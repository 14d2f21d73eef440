//! The metadata file of a project: a TOML document with three strings.
//!
//! ```toml
//! name = "demo"
//! timestamp = "2024-05-01T12:00:00Z"
//! garbage_collection = "14days"
//! ```
//!
//! TOML itself is the work of the `toml` crate. This module holds what
//! the document has to contain, and how a record is taken from it and put
//! into it.

use vstd::prelude::*;
use vstd::string::*;
use crate::human::{
    duration_to_text,
    format_span,
    format_timestamp,
    parse_span,
    parse_timestamp,
    span_from_text,
    timestamp_from_text,
    timestamp_text,
};
use crate::time::{Span, Timestamp};

verus! {

/// What `toml::from_str` makes of a document: the keys of the table that
/// it reads, in the order in which the table holds them, each with its
/// value where that is a string and with `None` where it is of another
/// kind; or `None` where it reports an error.
pub uninterp spec fn document_entries(text: Seq<char>) -> Option<
    Seq<(Seq<char>, Option<Seq<char>>)>,
>;

/// What `toml::to_string` writes for a table that is filled with these
/// keys and strings, in this order; or `None` where it reports an error.
pub uninterp spec fn document_text(entries: Seq<(Seq<char>, Seq<char>)>) -> Option<Seq<char>>;

/// The key of the project's name.
pub const KEY_NAME: &'static str = "name";

/// The key of the time of the last access.
pub const KEY_TIMESTAMP: &'static str = "timestamp";

/// The key of the retention period.
pub const KEY_GARBAGE_COLLECTION: &'static str = "garbage_collection";

/// Calls `toml::from_str` for a `toml::Table` and lists the entries of the
/// table in its order, keeping the strings among the values. An error of
/// the parser becomes `None`.
#[verifier::external_body]
fn toml_from_str(text: &str) -> (parsed: Option<Vec<(String, Option<String>)>>)
    ensures
        match parsed {
            Some(entries) => document_entries(text@) == Some(entries.deep_view()),
            None => document_entries(text@) is None,
        },
{
    match toml::from_str::<toml::Table>(text) {
        Ok(table) => Some(
            table.into_iter().map(
                |(key, value)|
                    match value {
                        toml::Value::String(text) => (key, Some(text)),
                        _ => (key, None),
                    },
            ).collect(),
        ),
        Err(_) => None,
    }
}

/// Fills a `toml::Table` with the given keys and strings, in their order,
/// and calls `toml::to_string` on it. An error of the serializer becomes
/// `None`.
#[verifier::external_body]
fn toml_to_string(entries: &Vec<(String, String)>) -> (written: Option<String>)
    ensures
        match written {
            Some(text) => document_text(entries.deep_view()) == Some(text@),
            None => document_text(entries.deep_view()) is None,
        },
{
    let table: toml::Table = entries.iter().map(
        |(key, text)| (key.clone(), toml::Value::String(text.clone())),
    ).collect();
    toml::to_string(&table).ok()
}

/// What is kept of a project from one run to the next.
#[derive(Clone, Debug, PartialEq, Eq)]
pub struct Record {
    /// The name of the project.
    pub name: String,
    /// When the project was last entered.
    pub timestamp: Timestamp,
    /// How long after that the project may be removed.
    pub garbage_collection: Span,
}

/// A record in the model: the name as characters, the times in
/// nanoseconds.
pub ghost struct RecordView {
    pub name: Seq<char>,
    pub timestamp: nat,
    pub garbage_collection: nat,
}

impl View for Record {
    type V = RecordView;

    open spec fn view(&self) -> RecordView {
        RecordView {
            name: self.name@,
            timestamp: self.timestamp@,
            garbage_collection: self.garbage_collection@,
        }
    }
}

/// The string under `key`: the value of the first entry with that key,
/// where it is a string.
pub open spec fn lookup(entries: Seq<(Seq<char>, Option<Seq<char>>)>, key: Seq<char>) -> Option<
    Seq<char>,
>
    decreases entries.len(),
{
    if entries.len() == 0 {
        None
    } else if entries[0].0 == key {
        entries[0].1
    } else {
        lookup(entries.drop_first(), key)
    }
}

/// The record that a list of entries holds: the name as it stands, the
/// timestamp and the retention period as their texts are read. Entries
/// under other keys do not count.
pub open spec fn record_in(entries: Seq<(Seq<char>, Option<Seq<char>>)>) -> Option<RecordView> {
    match (
        lookup(entries, KEY_NAME@),
        lookup(entries, KEY_TIMESTAMP@),
        lookup(entries, KEY_GARBAGE_COLLECTION@),
    ) {
        (Some(name), Some(timestamp), Some(garbage_collection)) => match (
            timestamp_from_text(timestamp),
            span_from_text(garbage_collection),
        ) {
            (Some(at), Some(span)) => Some(
                RecordView { name, timestamp: at, garbage_collection: span },
            ),
            _ => None,
        },
        _ => None,
    }
}

/// The record that a document holds.
pub open spec fn decoded(text: Seq<char>) -> Option<RecordView> {
    match document_entries(text) {
        Some(entries) => record_in(entries),
        None => None,
    }
}

/// The entries that stand for a record, where its timestamp can be
/// written.
pub open spec fn entries_of(record: RecordView) -> Option<Seq<(Seq<char>, Seq<char>)>> {
    match timestamp_text(record.timestamp) {
        Some(timestamp) => Some(
            seq![
                (KEY_NAME@, record.name),
                (KEY_TIMESTAMP@, timestamp),
                (KEY_GARBAGE_COLLECTION@, duration_to_text(record.garbage_collection)),
            ],
        ),
        None => None,
    }
}

/// The document for a record: its entries as TOML, provided that the
/// document holds the record again.
pub open spec fn encoded(record: RecordView) -> Option<Seq<char>> {
    match entries_of(record) {
        Some(entries) => match document_text(entries) {
            Some(text) => if decoded(text) == Some(record) {
                Some(text)
            } else {
                None
            },
            None => None,
        },
        None => None,
    }
}

/// Finds the string under `key`.
pub fn find_text<'a>(entries: &'a Vec<(String, Option<String>)>, key: &str) -> (found: Option<
    &'a String,
>)
    ensures
        match found {
            Some(text) => lookup(entries.deep_view(), key@) == Some(text@),
            None => lookup(entries.deep_view(), key@) is None,
        },
{
    let wanted = String::from_str(key);
    let mut i: usize = 0;
    proof {
        assert(entries.deep_view().skip(0) == entries.deep_view());
    }
    while i < entries.len()
        invariant
            i <= entries.len(),
            wanted@ == key@,
            lookup(entries.deep_view(), key@) == lookup(entries.deep_view().skip(i as int), key@),
        decreases entries.len() - i,
    {
        proof {
            let rest = entries.deep_view().skip(i as int);
            assert(rest[0] == entries@[i as int].deep_view());
            assert(rest.drop_first() == entries.deep_view().skip(i + 1));
        }
        if entries[i].0 == wanted {
            return match &entries[i].1 {
                Some(text) => Some(text),
                None => None,
            };
        }
        i = i + 1;
    }
    None
}

impl Record {
    /// Takes a record from the entries of a document.
    pub fn from_entries(entries: &Vec<(String, Option<String>)>) -> (record: Option<Record>)
        ensures
            match record {
                Some(r) => record_in(entries.deep_view()) == Some(r@),
                None => record_in(entries.deep_view()) is None,
            },
    {
        let name = match find_text(entries, KEY_NAME) {
            Some(name) => name,
            None => return None,
        };
        let timestamp = match find_text(entries, KEY_TIMESTAMP) {
            Some(text) => text,
            None => return None,
        };
        let garbage_collection = match find_text(entries, KEY_GARBAGE_COLLECTION) {
            Some(text) => text,
            None => return None,
        };
        let timestamp = match parse_timestamp(timestamp.as_str()) {
            Some(at) => at,
            None => return None,
        };
        let garbage_collection = match parse_span(garbage_collection.as_str()) {
            Some(span) => span,
            None => return None,
        };
        Some(Record { name: name.clone(), timestamp, garbage_collection })
    }

    /// The entries that stand for this record, or `None` where its
    /// timestamp lies after the year 9999.
    pub fn to_entries(&self) -> (entries: Option<Vec<(String, String)>>)
        ensures
            match entries {
                Some(e) => entries_of(self@) == Some(e.deep_view()),
                None => entries_of(self@) is None,
            },
    {
        let timestamp = match format_timestamp(&self.timestamp) {
            Some(text) => text,
            None => return None,
        };
        let mut entries: Vec<(String, String)> = Vec::new();
        entries.push((String::from_str(KEY_NAME), self.name.clone()));
        entries.push((String::from_str(KEY_TIMESTAMP), timestamp));
        entries.push(
            (String::from_str(KEY_GARBAGE_COLLECTION), format_span(&self.garbage_collection)),
        );
        proof {
            assert(entries.deep_view() =~= entries_of(self@)->0);
        }
        Some(entries)
    }

    /// Whether the two records are the same.
    pub fn same(&self, other: &Record) -> (same: bool)
        ensures
            same == (self@ == other@),
    {
        self.name == other.name && self.timestamp.same(&other.timestamp)
            && self.garbage_collection.same(&other.garbage_collection)
    }
}

/// Reads a record from the text of a metadata file, or `None` where the
/// text is no TOML document or holds no record.
pub fn decode(text: &str) -> (record: Option<Record>)
    ensures
        match record {
            Some(r) => decoded(text@) == Some(r@),
            None => decoded(text@) is None,
        },
{
    match toml_from_str(text) {
        Some(entries) => Record::from_entries(&entries),
        None => None,
    }
}

/// Writes a record as the text of a metadata file. The text is read back
/// before it is handed out, and refused where it does not hold the record
/// again.
pub fn encode(record: &Record) -> (text: Option<String>)
    ensures
        match text {
            Some(t) => encoded(record@) == Some(t@),
            None => encoded(record@) is None,
        },
{
    let entries = match record.to_entries() {
        Some(entries) => entries,
        None => return None,
    };
    let text = match toml_to_string(&entries) {
        Some(text) => text,
        None => return None,
    };
    match decode(text.as_str()) {
        Some(back) => if back.same(record) {
            Some(text)
        } else {
            None
        },
        None => None,
    }
}

} // verus!
