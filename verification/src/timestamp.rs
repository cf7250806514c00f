//! Absolute points in time, counted in nanoseconds from the Unix epoch, with
//! arithmetic that reports overflow instead of wrapping.

use vstd::prelude::*;

verus! {

/// Nanoseconds in one second.
pub const NANOS_PER_SEC: u32 = 1_000_000_000;

/// Nanoseconds in one millisecond.
pub const NANOS_PER_MILLI: u32 = 1_000_000;

/// The earliest instant a `Timestamp` can hold, in nanoseconds from the epoch.
pub open spec fn min_nanos() -> int {
    i64::MIN * 1_000_000_000
}

/// The latest instant a `Timestamp` can hold, in nanoseconds from the epoch.
pub open spec fn max_nanos() -> int {
    i64::MAX * 1_000_000_000 + 999_999_999
}

/// Whether an instant, in nanoseconds from the epoch, fits in a `Timestamp`.
pub open spec fn representable(nanos: int) -> bool {
    min_nanos() <= nanos <= max_nanos()
}

/// An offset from the epoch in nanoseconds, negative when it points back.
pub open spec fn signed_offset(before: bool, secs: u64, nanos: u32) -> int {
    if before {
        -(secs * 1_000_000_000 + nanos)
    } else {
        secs * 1_000_000_000 + nanos
    }
}

/// The representable instant nearest to `nanos`.
pub open spec fn clamp_to_range(nanos: int) -> int {
    if nanos < min_nanos() {
        min_nanos()
    } else if nanos > max_nanos() {
        max_nanos()
    } else {
        nanos
    }
}

/// A length of time: whole seconds and the nanoseconds beyond them.
#[derive(Clone, Copy, Debug, PartialEq, Eq, Structural)]
pub struct Span {
    pub secs: u64,
    pub nanos: u32,
}

impl View for Span {
    type V = int;

    /// The span in nanoseconds.
    open spec fn view(&self) -> int {
        self.secs * 1_000_000_000 + self.nanos
    }
}

/// An instant in time: whole seconds from the Unix epoch (negative before
/// it) and the nanoseconds into that second.
#[derive(Clone, Copy, Debug)]
pub struct Timestamp {
    secs: i64,
    nanos: u32,
}

impl View for Timestamp {
    type V = int;

    /// The instant in nanoseconds from the Unix epoch. The nanoseconds
    /// count within the second, so that every value of the type stands for
    /// an instant in range.
    closed spec fn view(&self) -> int {
        self.secs * 1_000_000_000 + self.nanos % 1_000_000_000
    }
}

/// Every timestamp holds an instant in range.
pub proof fn lemma_timestamp_representable(t: Timestamp)
    ensures
        representable(t@),
{
}

impl Timestamp {
    #[verifier::type_invariant]
    spec fn well_formed(self) -> bool {
        self.nanos < 1_000_000_000
    }

    /// The Unix epoch itself.
    pub fn epoch() -> (t: Timestamp)
        ensures
            t@ == 0,
    {
        Timestamp { secs: 0, nanos: 0 }
    }

    /// The instant `secs` seconds and `nanos` nanoseconds from the epoch, or
    /// `None` when it lies beyond the last representable second.
    pub fn from_unix(secs: i64, nanos: u32) -> (r: Option<Timestamp>)
        ensures
            r is Some <==> representable(secs * 1_000_000_000 + nanos),
            r matches Some(t) ==> t@ == secs * 1_000_000_000 + nanos,
    {
        let carry: u32 = nanos / NANOS_PER_SEC;
        let rest: u32 = nanos % NANOS_PER_SEC;
        match secs.checked_add(carry as i64) {
            Some(whole) => Some(Timestamp { secs: whole, nanos: rest }),
            None => None,
        }
    }

    /// The instant that lies `secs` seconds and `nanos` nanoseconds after the
    /// epoch, or before it when `before` is set; an instant out of range is
    /// moved to the nearest one that a `Timestamp` can hold.
    pub fn from_epoch_offset(before: bool, secs: u64, nanos: u32) -> (t: Timestamp)
        ensures
            t@ == clamp_to_range(signed_offset(before, secs, nanos)),
            representable(t@),
    {
        let carry: u64 = (nanos / NANOS_PER_SEC) as u64;
        let rest: u32 = nanos % NANOS_PER_SEC;
        let whole: u128 = secs as u128 + carry as u128;
        if !before {
            if whole > i64::MAX as u128 {
                Timestamp { secs: i64::MAX, nanos: NANOS_PER_SEC - 1 }
            } else {
                Timestamp { secs: whole as i64, nanos: rest }
            }
        } else if rest == 0 {
            if whole > i64::MAX as u128 + 1 {
                Timestamp { secs: i64::MIN, nanos: 0 }
            } else {
                Timestamp { secs: (0 - whole as i128) as i64, nanos: 0 }
            }
        } else if whole > i64::MAX as u128 {
            Timestamp { secs: i64::MIN, nanos: 0 }
        } else {
            Timestamp { secs: (0 - whole as i128 - 1) as i64, nanos: NANOS_PER_SEC - rest }
        }
    }

    /// Whole seconds from the epoch, rounded towards the past.
    pub fn unix_seconds(&self) -> (s: i64)
        ensures
            s * 1_000_000_000 <= self@ < (s + 1) * 1_000_000_000,
    {
        proof {
            use_type_invariant(self);
        }
        self.secs
    }

    /// Nanoseconds into the current second.
    pub fn subsec_nanos(&self) -> (n: u32)
        ensures
            n < 1_000_000_000,
            (self@ - n) % 1_000_000_000 == 0,
    {
        proof {
            use_type_invariant(self);
        }
        self.nanos
    }

    /// `self < other`.
    pub fn is_before(&self, other: &Timestamp) -> (r: bool)
        ensures
            r == (self@ < other@),
    {
        proof {
            use_type_invariant(self);
            use_type_invariant(other);
        }
        self.secs < other.secs || (self.secs == other.secs && self.nanos < other.nanos)
    }

    /// `self <= other`.
    pub fn is_at_or_before(&self, other: &Timestamp) -> (r: bool)
        ensures
            r == (self@ <= other@),
    {
        proof {
            use_type_invariant(self);
            use_type_invariant(other);
        }
        self.secs < other.secs || (self.secs == other.secs && self.nanos <= other.nanos)
    }

    /// The instant `millis` milliseconds later, or `None` on overflow.
    pub fn checked_add_millis(&self, millis: u64) -> (r: Option<Timestamp>)
        ensures
            r is Some <==> representable(self@ + millis * 1_000_000),
            r matches Some(t) ==> t@ == self@ + millis * 1_000_000,
    {
        proof {
            use_type_invariant(self);
        }
        let add_secs: u64 = millis / 1000;
        let add_nanos: u32 = ((millis % 1000) as u32) * NANOS_PER_MILLI;
        let sum: u32 = self.nanos + add_nanos;
        let carry: i64 = if sum >= NANOS_PER_SEC { 1 } else { 0 };
        let rest: u32 = if sum >= NANOS_PER_SEC { sum - NANOS_PER_SEC } else { sum };
        match self.secs.checked_add(add_secs as i64) {
            Some(whole) => match whole.checked_add(carry) {
                Some(secs) => Some(Timestamp { secs, nanos: rest }),
                None => None,
            },
            None => None,
        }
    }

    /// The instant `millis` milliseconds earlier, or `None` on overflow.
    pub fn checked_sub_millis(&self, millis: u64) -> (r: Option<Timestamp>)
        ensures
            r is Some <==> representable(self@ - millis * 1_000_000),
            r matches Some(t) ==> t@ == self@ - millis * 1_000_000,
    {
        proof {
            use_type_invariant(self);
        }
        let sub_secs: u64 = millis / 1000;
        let sub_nanos: u32 = ((millis % 1000) as u32) * NANOS_PER_MILLI;
        let borrow: i64 = if self.nanos >= sub_nanos { 0 } else { 1 };
        let rest: u32 = if self.nanos >= sub_nanos {
            self.nanos - sub_nanos
        } else {
            self.nanos + NANOS_PER_SEC - sub_nanos
        };
        match self.secs.checked_sub(sub_secs as i64) {
            Some(whole) => match whole.checked_sub(borrow) {
                Some(secs) => Some(Timestamp { secs, nanos: rest }),
                None => None,
            },
            None => None,
        }
    }

    /// The instant `secs` seconds later, or `None` on overflow.
    pub fn checked_add_secs(&self, secs: u64) -> (r: Option<Timestamp>)
        ensures
            r is Some <==> representable(self@ + secs * 1_000_000_000),
            r matches Some(t) ==> t@ == self@ + secs * 1_000_000_000,
    {
        proof {
            use_type_invariant(self);
        }
        match self.secs.checked_add_unsigned(secs) {
            Some(whole) => Some(Timestamp { secs: whole, nanos: self.nanos }),
            None => None,
        }
    }

    /// How long from `self` until `later`, or `None` when `later` is already
    /// in the past.
    pub fn span_until(&self, later: &Timestamp) -> (r: Option<Span>)
        ensures
            r is Some <==> self@ <= later@,
            r matches Some(span) ==> span@ == later@ - self@ && span.nanos < 1_000_000_000,
    {
        proof {
            use_type_invariant(self);
            use_type_invariant(later);
        }
        if !self.is_at_or_before(later) {
            return None;
        }
        let whole: i128 = later.secs as i128 - self.secs as i128;
        if later.nanos >= self.nanos {
            Some(Span { secs: whole as u64, nanos: later.nanos - self.nanos })
        } else {
            Some(Span { secs: (whole - 1) as u64, nanos: later.nanos + NANOS_PER_SEC - self.nanos })
        }
    }
}

} // verus!
