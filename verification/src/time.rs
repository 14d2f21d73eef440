//! Points in time and lengths of time, to the nanosecond.

use vstd::prelude::*;

verus! {

/// Nanoseconds in a second.
pub const NANOS_PER_SEC: u32 = 1_000_000_000;

/// The nanoseconds in `secs` seconds and `nanos` nanoseconds.
pub open spec fn nanoseconds(secs: u64, nanos: u32) -> nat {
    (secs as nat) * (NANOS_PER_SEC as nat) + (nanos as nat)
}

/// A length of time. Its view is the length in nanoseconds.
#[derive(Clone, Copy, Debug, PartialEq, Eq, Structural)]
pub struct Span {
    secs: u64,
    nanos: u32,
}

impl View for Span {
    type V = nat;

    closed spec fn view(&self) -> nat {
        nanoseconds(self.secs, self.nanos)
    }
}

impl Span {
    #[verifier::type_invariant]
    spec fn subsecond(self) -> bool {
        self.nanos < NANOS_PER_SEC
    }

    /// A span of `secs` seconds and `nanos` nanoseconds, where `nanos` is
    /// less than a second.
    pub fn new(secs: u64, nanos: u32) -> (span: Option<Span>)
        ensures
            span is Some <==> nanos < NANOS_PER_SEC,
            span matches Some(s) ==> s@ == nanoseconds(secs, nanos),
    {
        if nanos < NANOS_PER_SEC {
            Some(Span { secs, nanos })
        } else {
            None
        }
    }

    /// A span of whole seconds.
    pub fn from_secs(secs: u64) -> (span: Span)
        ensures
            span@ == nanoseconds(secs, 0),
    {
        Span { secs, nanos: 0 }
    }

    /// Whole seconds of the span.
    pub fn secs(&self) -> (secs: u64)
        ensures
            secs == self@ / (NANOS_PER_SEC as nat),
    {
        proof {
            use_type_invariant(self);
        }
        self.secs
    }

    /// Nanoseconds beyond the whole seconds.
    pub fn subsec_nanos(&self) -> (nanos: u32)
        ensures
            nanos == self@ % (NANOS_PER_SEC as nat),
    {
        proof {
            use_type_invariant(self);
        }
        self.nanos
    }

    /// Whether the two spans are equally long.
    pub fn same(&self, other: &Span) -> (same: bool)
        ensures
            same == (self@ == other@),
    {
        proof {
            use_type_invariant(self);
            use_type_invariant(other);
        }
        self.secs == other.secs && self.nanos == other.nanos
    }

    /// Whether this span is strictly longer than `other`.
    pub fn longer_than(&self, other: &Span) -> (longer: bool)
        ensures
            longer == (self@ > other@),
    {
        proof {
            use_type_invariant(self);
            use_type_invariant(other);
        }
        self.secs > other.secs || (self.secs == other.secs && self.nanos > other.nanos)
    }
}

/// A point in time. Its view is the nanoseconds since the Unix epoch.
#[derive(Clone, Copy, Debug, PartialEq, Eq, Structural)]
pub struct Timestamp {
    secs: u64,
    nanos: u32,
}

impl View for Timestamp {
    type V = nat;

    closed spec fn view(&self) -> nat {
        nanoseconds(self.secs, self.nanos)
    }
}

impl Timestamp {
    #[verifier::type_invariant]
    spec fn subsecond(self) -> bool {
        self.nanos < NANOS_PER_SEC
    }

    /// The point `secs` seconds and `nanos` nanoseconds after the epoch,
    /// where `nanos` is less than a second.
    pub fn new(secs: u64, nanos: u32) -> (at: Option<Timestamp>)
        ensures
            at is Some <==> nanos < NANOS_PER_SEC,
            at matches Some(t) ==> t@ == nanoseconds(secs, nanos),
    {
        if nanos < NANOS_PER_SEC {
            Some(Timestamp { secs, nanos })
        } else {
            None
        }
    }

    /// Whole seconds since the epoch.
    pub fn secs(&self) -> (secs: u64)
        ensures
            secs == self@ / (NANOS_PER_SEC as nat),
    {
        proof {
            use_type_invariant(self);
        }
        self.secs
    }

    /// Nanoseconds beyond the whole seconds.
    pub fn subsec_nanos(&self) -> (nanos: u32)
        ensures
            nanos == self@ % (NANOS_PER_SEC as nat),
    {
        proof {
            use_type_invariant(self);
        }
        self.nanos
    }

    /// Whether the two are the same point in time.
    pub fn same(&self, other: &Timestamp) -> (same: bool)
        ensures
            same == (self@ == other@),
    {
        proof {
            use_type_invariant(self);
            use_type_invariant(other);
        }
        self.secs == other.secs && self.nanos == other.nanos
    }

    /// The time that has passed at `self` since `earlier`, or `None` where
    /// `earlier` is in fact the later of the two.
    pub fn since(&self, earlier: &Timestamp) -> (passed: Option<Span>)
        ensures
            passed is Some <==> earlier@ <= self@,
            passed matches Some(span) ==> span@ == self@ - earlier@,
    {
        proof {
            use_type_invariant(self);
            use_type_invariant(earlier);
        }
        if self.secs < earlier.secs || (self.secs == earlier.secs && self.nanos < earlier.nanos) {
            None
        } else if self.nanos >= earlier.nanos {
            Some(Span { secs: self.secs - earlier.secs, nanos: self.nanos - earlier.nanos })
        } else {
            Some(
                Span {
                    secs: self.secs - earlier.secs - 1,
                    nanos: NANOS_PER_SEC - earlier.nanos + self.nanos,
                },
            )
        }
    }
}

} // verus!
