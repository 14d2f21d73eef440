//! Times as people write them: `2weeks`, `1h 30m`, `2024-05-01T12:00:00Z`.
//!
//! Reading and writing these notations is the work of the `humantime`
//! crate. What it makes of a text is not spelled out here: each of its
//! four functions has a name in the model, and the contracts below say
//! how the results of this module follow from those names. The names
//! stand for the functions as they are built for a 64-bit Unix, where
//! timestamps reach to the end of the year 9999.

use vstd::prelude::*;
use crate::time::{nanoseconds, Span, Timestamp, NANOS_PER_SEC};

verus! {

broadcast use vstd::string::group_string_axioms;

/// The error of `humantime::parse_duration`.
#[verifier::external_type_specification]
#[verifier::external_body]
pub struct ExDurationError(humantime::DurationError);

/// The error of `humantime::parse_rfc3339_weak`.
#[verifier::external_type_specification]
#[verifier::external_body]
pub struct ExTimestampError(humantime::TimestampError);

/// What `humantime::parse_duration` makes of a text: the duration in
/// nanoseconds, or `None` where it reports an error.
pub uninterp spec fn duration_from_text(text: Seq<char>) -> Option<nat>;

/// What `humantime::format_duration` writes for a duration of so many
/// nanoseconds.
pub uninterp spec fn duration_to_text(nanos: nat) -> Seq<char>;

/// What `humantime::parse_rfc3339_weak` makes of a text: the nanoseconds
/// from the epoch to that point, or `None` where it reports an error.
pub uninterp spec fn timestamp_from_text(text: Seq<char>) -> Option<nat>;

/// What `humantime::format_rfc3339` writes for the point so many
/// nanoseconds after the epoch.
pub uninterp spec fn timestamp_to_text(nanos: nat) -> Seq<char>;

/// The last second that can be written as a timestamp: the end of the
/// year 9999.
pub const MAX_TIMESTAMP_SECS: u64 = 253_402_300_799;

/// A decimal digit.
pub open spec fn is_digit(c: char) -> bool {
    '0' <= c && c <= '9'
}

/// A letter of a unit.
pub open spec fn is_letter(c: char) -> bool {
    ('a' <= c && c <= 'z') || ('A' <= c && c <= 'Z')
}

/// The most seconds that `value` can stand for before a unit that begins
/// with the letter `c`, which is not `m`: the seconds themselves before
/// `s`, and before `n` and `u`, which begin units below a second; an
/// hour, a day, a week, a month of 30.44 days or a year of 365.25 days
/// each before `h`, `d`, `w`, `M` and `y`; and a year each before any
/// other letter.
pub open spec fn worth(value: int, c: char) -> int {
    if c == 's' || c == 'n' || c == 'u' {
        value
    } else if c == 'h' {
        value * 3_600
    } else if c == 'd' {
        value * 86_400
    } else if c == 'w' {
        value * 604_800
    } else if c == 'M' {
        value * 2_630_016
    } else {
        value * 31_557_600
    }
}

/// The most seconds that `value` can stand for before a unit that begins
/// with `m`, where `next` is the character after the `m`: a month each
/// before `mo`, the value itself before `ms`, which is below a second, and
/// a minute each else.
pub open spec fn worth_after_m(value: int, next: char) -> int {
    if next == 'o' {
        value * 2_630_016
    } else if next == 's' {
        value
    } else {
        value * 60
    }
}

/// What has been read of a duration text, from the left.
#[derive(Clone, Copy, Debug, PartialEq, Eq, Structural)]
pub struct Scan {
    /// The seconds of the items that are over, at most.
    pub total: u64,
    /// Of the item that is being read: the number before the decimal
    /// point, once the point is read.
    pub whole: u64,
    /// Of the item that is being read: the digits read since its beginning
    /// or since the point.
    pub number: u64,
    /// The number of an item whose unit has begun with `m`, until the next
    /// character is read.
    pub minutes: Option<u64>,
    /// Whether a unit is being read.
    pub in_unit: bool,
    /// Whether one of the numbers above no longer fits in 64 bits. Nothing
    /// is read from there on.
    pub over: bool,
}

/// The scan with these numbers, where they fit in 64 bits, and `scan`
/// marked as over where they do not.
pub open spec fn scan_with(
    scan: Scan,
    total: int,
    whole: int,
    number: int,
    minutes: Option<int>,
    in_unit: bool,
) -> Scan {
    if total <= u64::MAX && whole <= u64::MAX && number <= u64::MAX && (minutes matches Some(v)
        ==> v <= u64::MAX) {
        Scan {
            total: total as u64,
            whole: whole as u64,
            number: number as u64,
            minutes: match minutes {
                Some(v) => Some(v as u64),
                None => None,
            },
            in_unit,
            over: false,
        }
    } else {
        Scan { over: true, ..scan }
    }
}

/// The scan after one more character. A digit goes to the number. The
/// point closes the number before it. The first letter after a number
/// begins the unit and closes the item, which is then counted with the
/// most that it can be worth; after `m` that is known with the next
/// character. Further letters belong to the unit, and any other character
/// changes nothing.
pub open spec fn scan_step(scan: Scan, c: char) -> Scan {
    if scan.over {
        scan
    } else {
        let total = match scan.minutes {
            Some(v) => scan.total + worth_after_m(v as int, c),
            None => scan.total as int,
        };
        if is_digit(c) {
            scan_with(
                scan,
                total,
                scan.whole as int,
                scan.number * 10 + (c as int - '0' as int),
                None,
                false,
            )
        } else if c == '.' {
            scan_with(scan, total, scan.whole + scan.number, 0, None, scan.in_unit)
        } else if is_letter(c) && !scan.in_unit {
            if c == 'm' {
                scan_with(scan, total, 0, 0, Some(scan.whole + scan.number), true)
            } else {
                scan_with(scan, total + worth(scan.whole + scan.number, c), 0, 0, None, true)
            }
        } else {
            scan_with(scan, total, scan.whole as int, scan.number as int, None, scan.in_unit)
        }
    }
}

/// The scan of a whole text.
pub open spec fn scanned(text: Seq<char>) -> Scan
    decreases text.len(),
{
    if text.len() == 0 {
        Scan { total: 0, whole: 0, number: 0, minutes: None, in_unit: false, over: false }
    } else {
        scan_step(scanned(text.drop_last()), text.last())
    }
}

/// Whether the seconds of a duration text are within reach: whether the
/// most that its items can be worth, taken together, fits in 64 bits. An
/// item whose unit is the last `m` of the text counts as minutes, and a
/// number without a unit as years.
pub open spec fn in_reach(text: Seq<char>) -> bool {
    let scan = scanned(text);
    !scan.over && scan.total + (match scan.minutes {
        Some(v) => v * 60,
        None => 0,
    }) + (scan.whole + scan.number) * 31_557_600 <= u64::MAX
}

/// The span that a text stands for, in nanoseconds: what `humantime`
/// reads in it, unless its seconds are out of reach.
pub open spec fn span_from_text(text: Seq<char>) -> Option<nat> {
    if in_reach(text) {
        duration_from_text(text)
    } else {
        None
    }
}

/// The text for the point `nanos` nanoseconds after the epoch, where it
/// has one: points after the year 9999 have none.
pub open spec fn timestamp_text(nanos: nat) -> Option<Seq<char>> {
    if nanos / (NANOS_PER_SEC as nat) <= MAX_TIMESTAMP_SECS {
        Some(timestamp_to_text(nanos))
    } else {
        None
    }
}

/// Calls `humantime::parse_duration` and splits the duration into seconds
/// and nanoseconds (`Duration::as_secs`, `Duration::subsec_nanos`, the
/// latter below a second as std documents).
///
/// The parser sums the seconds of all items with checked arithmetic and
/// reports an error on overflow, but where it puts the sum together,
/// `Duration::new` adds a carry of one second unchecked and panics where
/// the sum is `u64::MAX`. No item gives more seconds, carries included,
/// than [`worth`] and [`worth_after_m`] count for it: the parser reads the
/// digits of a number as the scan does, and knows no unit that is worth
/// more than they say by its first letters. So where the text is within
/// reach, the seconds with every carry fit in 64 bits, and there is no
/// such panic.
#[verifier::external_body]
fn humantime_parse_duration(text: &str) -> (parsed: Result<(u64, u32), humantime::DurationError>)
    requires
        in_reach(text@),
    ensures
        match parsed {
            Ok(parts) => parts.1 < NANOS_PER_SEC && duration_from_text(text@) == Some(
                nanoseconds(parts.0, parts.1),
            ),
            Err(_) => duration_from_text(text@) is None,
        },
{
    match humantime::parse_duration(text) {
        Ok(duration) => Ok((duration.as_secs(), duration.subsec_nanos())),
        Err(error) => Err(error),
    }
}

/// Calls `humantime::format_duration` on the duration of `secs` seconds
/// and `nanos` nanoseconds and takes the text it displays. With `nanos`
/// below a second `Duration::new` has nothing to carry and cannot panic.
#[verifier::external_body]
fn humantime_format_duration(secs: u64, nanos: u32) -> (text: String)
    requires
        nanos < NANOS_PER_SEC,
    ensures
        text@ == duration_to_text(nanoseconds(secs, nanos)),
{
    humantime::format_duration(std::time::Duration::new(secs, nanos)).to_string()
}

/// Calls `humantime::parse_rfc3339_weak` and counts the result from the
/// epoch. The parser accepts no year before 1970, so the count exists;
/// its nanoseconds are below a second as std documents.
#[verifier::external_body]
fn humantime_parse_rfc3339_weak(text: &str) -> (parsed: Result<
    (u64, u32),
    humantime::TimestampError,
>)
    ensures
        match parsed {
            Ok(parts) => parts.1 < NANOS_PER_SEC && timestamp_from_text(text@) == Some(
                nanoseconds(parts.0, parts.1),
            ),
            Err(_) => timestamp_from_text(text@) is None,
        },
{
    match humantime::parse_rfc3339_weak(text) {
        Ok(at) => {
            let since = at.duration_since(std::time::UNIX_EPOCH).unwrap_or_default();
            Ok((since.as_secs(), since.subsec_nanos()))
        },
        Err(error) => Err(error),
    }
}

/// Calls `humantime::format_rfc3339` on the point `secs` seconds and
/// `nanos` nanoseconds after the epoch and takes the text it displays.
/// Its `Display` reports an error from the year 10000 on, on which
/// `to_string` would panic: the precondition stops before that.
#[verifier::external_body]
fn humantime_format_rfc3339(secs: u64, nanos: u32) -> (text: String)
    requires
        secs <= MAX_TIMESTAMP_SECS,
        nanos < NANOS_PER_SEC,
    ensures
        text@ == timestamp_to_text(nanoseconds(secs, nanos)),
{
    let at = std::time::UNIX_EPOCH + std::time::Duration::new(secs, nanos);
    humantime::format_rfc3339(at).to_string()
}

/// The most seconds that `value` can stand for before a unit that begins
/// with `c`.
fn worth_of(value: u128, c: char) -> (seconds: u128)
    requires
        value <= 2 * u64::MAX,
    ensures
        seconds == worth(value as int, c),
{
    if c == 's' || c == 'n' || c == 'u' {
        value
    } else if c == 'h' {
        value * 3_600
    } else if c == 'd' {
        value * 86_400
    } else if c == 'w' {
        value * 604_800
    } else if c == 'M' {
        value * 2_630_016
    } else {
        value * 31_557_600
    }
}

/// The most seconds that `value` can stand for before a unit that begins
/// with `m` and goes on with `next`.
fn worth_after_m_of(value: u64, next: char) -> (seconds: u128)
    ensures
        seconds == worth_after_m(value as int, next),
{
    let value: u128 = value as u128;
    if next == 'o' {
        value * 2_630_016
    } else if next == 's' {
        value
    } else {
        value * 60
    }
}

/// Puts a scan together from its numbers.
fn scan_of(
    scan: Scan,
    total: u128,
    whole: u128,
    number: u128,
    minutes: Option<u128>,
    in_unit: bool,
) -> (next: Scan)
    ensures
        next == scan_with(
            scan,
            total as int,
            whole as int,
            number as int,
            match minutes {
                Some(v) => Some(v as int),
                None => None,
            },
            in_unit,
        ),
{
    let top: u128 = u64::MAX as u128;
    let minutes_fit = match minutes {
        Some(v) => v <= top,
        None => true,
    };
    if total <= top && whole <= top && number <= top && minutes_fit {
        Scan {
            total: total as u64,
            whole: whole as u64,
            number: number as u64,
            minutes: match minutes {
                Some(v) => Some(v as u64),
                None => None,
            },
            in_unit,
            over: false,
        }
    } else {
        Scan {
            total: scan.total,
            whole: scan.whole,
            number: scan.number,
            minutes: scan.minutes,
            in_unit: scan.in_unit,
            over: true,
        }
    }
}

/// Reads one more character of a duration text.
pub fn scan_next(scan: Scan, c: char) -> (next: Scan)
    ensures
        next == scan_step(scan, c),
{
    if scan.over {
        return scan;
    }
    let total: u128 = match scan.minutes {
        Some(v) => scan.total as u128 + worth_after_m_of(v, c),
        None => scan.total as u128,
    };
    let whole: u128 = scan.whole as u128;
    let number: u128 = scan.number as u128;
    if c >= '0' && c <= '9' {
        let digit: u128 = (c as u32 - '0' as u32) as u128;
        scan_of(scan, total, whole, number * 10 + digit, None, false)
    } else if c == '.' {
        scan_of(scan, total, whole + number, 0, None, scan.in_unit)
    } else if ((c >= 'a' && c <= 'z') || (c >= 'A' && c <= 'Z')) && !scan.in_unit {
        if c == 'm' {
            scan_of(scan, total, 0, 0, Some(whole + number), true)
        } else {
            scan_of(scan, total + worth_of(whole + number, c), 0, 0, None, true)
        }
    } else {
        scan_of(scan, total, whole, number, None, scan.in_unit)
    }
}

/// Whether the seconds of a duration text are within reach.
pub fn within_reach(text: &str) -> (near: bool)
    ensures
        near == in_reach(text@),
{
    let mut scan = Scan {
        total: 0,
        whole: 0,
        number: 0,
        minutes: None,
        in_unit: false,
        over: false,
    };
    for c in it: text.chars()
        invariant
            it.seq() == text@,
            scan == scanned(text@.take(it.index() as int)),
    {
        proof {
            let k = it.index() as int;
            assert(text@.take(k + 1).drop_last() == text@.take(k));
            assert(text@.take(k + 1).last() == c);
        }
        scan = scan_next(scan, c);
    }
    proof {
        assert(text@.take(text@.len() as int) == text@);
    }
    if scan.over {
        return false;
    }
    let open: u128 = match scan.minutes {
        Some(v) => v as u128 * 60,
        None => 0,
    };
    let rest: u128 = (scan.whole as u128 + scan.number as u128) * 31_557_600;
    scan.total as u128 + open + rest <= u64::MAX as u128
}

/// Reads a span such as `2weeks` or `1h 30m`.
pub fn parse_span(text: &str) -> (span: Option<Span>)
    ensures
        match span {
            Some(s) => span_from_text(text@) == Some(s@),
            None => span_from_text(text@) is None,
        },
{
    if !within_reach(text) {
        return None;
    }
    match humantime_parse_duration(text) {
        Ok(parts) => Span::new(parts.0, parts.1),
        Err(_) => None,
    }
}

/// Writes a span in the notation that [`parse_span`] reads.
pub fn format_span(span: &Span) -> (text: String)
    ensures
        text@ == duration_to_text(span@),
{
    humantime_format_duration(span.secs(), span.subsec_nanos())
}

/// Reads a timestamp such as `2024-05-01T12:00:00Z` or
/// `2024-05-01 12:00:00`.
pub fn parse_timestamp(text: &str) -> (at: Option<Timestamp>)
    ensures
        match at {
            Some(t) => timestamp_from_text(text@) == Some(t@),
            None => timestamp_from_text(text@) is None,
        },
{
    match humantime_parse_rfc3339_weak(text) {
        Ok(parts) => Timestamp::new(parts.0, parts.1),
        Err(_) => None,
    }
}

/// Writes a timestamp in the notation that [`parse_timestamp`] reads, or
/// `None` where it lies after the year 9999.
pub fn format_timestamp(at: &Timestamp) -> (text: Option<String>)
    ensures
        match text {
            Some(t) => timestamp_text(at@) == Some(t@),
            None => timestamp_text(at@) is None,
        },
{
    if at.secs() <= MAX_TIMESTAMP_SECS {
        Some(humantime_format_rfc3339(at.secs(), at.subsec_nanos()))
    } else {
        None
    }
}

} // verus!
