//! Instants and spans with nanosecond resolution.
//!
//! In contracts an instant is the integer number of nanoseconds since the
//! Unix epoch, and a span is a natural number of nanoseconds.

use vstd::prelude::*;

verus! {

/// Nanoseconds in one second.
pub const NANOS_PER_SECOND: u32 = 1_000_000_000;

/// A point in time: whole seconds since the Unix epoch and the nanoseconds
/// into that second.
#[derive(Clone, Copy, Debug, PartialEq, Eq, Structural)]
pub struct Timestamp {
    seconds: i64,
    nanos: u32,
}

/// A non-negative length of time: whole seconds and the nanoseconds beyond
/// them.
#[derive(Clone, Copy, Debug, PartialEq, Eq, Structural)]
pub struct Span {
    seconds: u64,
    nanos: u32,
}

impl View for Timestamp {
    type V = int;

    /// Nanoseconds since the Unix epoch.
    closed spec fn view(&self) -> int {
        self.seconds * 1_000_000_000 + self.nanos
    }
}

impl View for Span {
    type V = nat;

    /// Length in nanoseconds.
    closed spec fn view(&self) -> nat {
        (self.seconds * 1_000_000_000 + self.nanos) as nat
    }
}

impl Timestamp {
    #[verifier::type_invariant]
    spec fn inv(self) -> bool {
        self.nanos < 1_000_000_000
    }

    /// The instant `nanos` nanoseconds after second `seconds` of the epoch,
    /// or `None` when `nanos` does not lie within one second.
    pub fn new(seconds: i64, nanos: u32) -> (r: Option<Timestamp>)
        ensures
            nanos >= 1_000_000_000 ==> r is None,
            nanos < 1_000_000_000 ==> r is Some && r->0@ == seconds * 1_000_000_000 + nanos,
    {
        if nanos < NANOS_PER_SECOND {
            Some(Timestamp { seconds, nanos })
        } else {
            None
        }
    }

    /// The instant `nanos` nanoseconds after the epoch, or before it where
    /// `nanos` is negative; `None` when its whole seconds do not fit in 64
    /// bits.
    pub fn from_nanos(nanos: i128) -> (r: Option<Timestamp>)
        ensures
            r is Some <==> i64::MIN * 1_000_000_000 <= nanos < (i64::MAX + 1) * 1_000_000_000,
            r is Some ==> r->0@ == nanos,
    {
        let billion: i128 = 1_000_000_000;
        let (whole, rest): (i128, i128) = if nanos >= 0 {
            (nanos / billion, nanos % billion)
        } else {
            let back: i128 = -(nanos + 1);
            (-(back / billion) - 1, billion - 1 - back % billion)
        };
        if whole < i64::MIN as i128 || whole > i64::MAX as i128 {
            None
        } else {
            Some(Timestamp { seconds: whole as i64, nanos: rest as u32 })
        }
    }

    /// Whole seconds since the epoch, rounded towards the past.
    pub fn seconds(&self) -> (r: i64)
        ensures
            r == self@ / 1_000_000_000,
    {
        proof {
            use_type_invariant(self);
        }
        self.seconds
    }

    /// Nanoseconds into the current second.
    pub fn subsec_nanos(&self) -> (r: u32)
        ensures
            r == self@ % 1_000_000_000,
    {
        proof {
            use_type_invariant(self);
        }
        self.nanos
    }

    /// Whether `self` is strictly earlier than `other`.
    pub fn is_before(&self, other: &Timestamp) -> (r: bool)
        ensures
            r == (self@ < other@),
    {
        proof {
            use_type_invariant(self);
            use_type_invariant(other);
        }
        self.seconds < other.seconds || (self.seconds == other.seconds && self.nanos
            < other.nanos)
    }

    /// The time from `earlier` to `self`, or `None` when `self` lies before
    /// `earlier`.
    pub fn elapsed_since(&self, earlier: &Timestamp) -> (r: Option<Span>)
        ensures
            self@ < earlier@ ==> r is None,
            self@ >= earlier@ ==> r is Some && r->0@ == self@ - earlier@,
    {
        proof {
            use_type_invariant(self);
            use_type_invariant(earlier);
        }
        if self.is_before(earlier) {
            return None;
        }
        let whole: i128 = self.seconds as i128 - earlier.seconds as i128;
        if self.nanos >= earlier.nanos {
            Some(Span { seconds: whole as u64, nanos: self.nanos - earlier.nanos })
        } else {
            Some(
                Span {
                    seconds: (whole - 1) as u64,
                    nanos: self.nanos + (NANOS_PER_SECOND - earlier.nanos),
                },
            )
        }
    }
}

impl Span {
    #[verifier::type_invariant]
    spec fn inv(self) -> bool {
        self.nanos < 1_000_000_000
    }

    /// The span of `seconds` seconds and `nanos` nanoseconds, or `None` when
    /// `nanos` does not lie within one second.
    pub fn new(seconds: u64, nanos: u32) -> (r: Option<Span>)
        ensures
            nanos >= 1_000_000_000 ==> r is None,
            nanos < 1_000_000_000 ==> r is Some && r->0@ == seconds * 1_000_000_000 + nanos,
    {
        if nanos < NANOS_PER_SECOND {
            Some(Span { seconds, nanos })
        } else {
            None
        }
    }

    /// Whole seconds of the span.
    pub fn seconds(&self) -> (r: u64)
        ensures
            r == self@ / 1_000_000_000,
    {
        proof {
            use_type_invariant(self);
        }
        self.seconds
    }

    /// Nanoseconds beyond the whole seconds.
    pub fn subsec_nanos(&self) -> (r: u32)
        ensures
            r == self@ % 1_000_000_000,
    {
        proof {
            use_type_invariant(self);
        }
        self.nanos
    }
}

} // verus!
