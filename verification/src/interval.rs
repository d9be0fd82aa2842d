//! A span of time with nanosecond precision, as the reconcile pass is
//! scheduled with.

use vstd::prelude::*;

verus! {

/// Nanoseconds in a second.
pub const NANOS_PER_SEC: u32 = 1_000_000_000;

/// A non-negative span of time: whole seconds and a sub-second part in
/// nanoseconds.
///
/// Ordered and compared by its total length, like `std::time::Duration`,
/// which is what the host converts it to when it schedules a timer.
#[derive(Debug, Clone, Copy, PartialEq, Eq, Hash, Structural)]
pub struct Interval {
    secs: u64,
    nanos: u32,
}

impl View for Interval {
    type V = nat;

    /// The total length in nanoseconds.
    closed spec fn view(&self) -> nat {
        (self.secs * 1_000_000_000 + self.nanos) as nat
    }
}

impl Interval {
    #[verifier::type_invariant]
    spec fn sub_second_part_is_below_a_second(self) -> bool {
        self.nanos < 1_000_000_000
    }

    /// An interval of `millis` milliseconds.
    pub fn from_millis(millis: u64) -> (d: Interval)
        ensures
            d@ == millis * 1_000_000,
    {
        let secs = millis / 1000;
        let rem = millis % 1000;
        let nanos: u32 = (rem * 1_000_000) as u32;
        Interval { secs, nanos }
    }

    /// An interval of `secs` seconds and `nanos` nanoseconds, the latter
    /// below a second.
    pub fn new(secs: u64, nanos: u32) -> (d: Interval)
        requires
            nanos < NANOS_PER_SEC,
        ensures
            d@ == secs * 1_000_000_000 + nanos,
            d.as_secs_spec() == secs,
            d.subsec_nanos_spec() == nanos,
    {
        Interval { secs, nanos }
    }

    /// The whole seconds.
    pub closed spec fn as_secs_spec(self) -> u64 {
        self.secs
    }

    /// The nanoseconds beyond the whole seconds.
    pub closed spec fn subsec_nanos_spec(self) -> u32 {
        self.nanos
    }

    /// The whole seconds.
    pub fn as_secs(&self) -> (secs: u64)
        ensures
            secs == self.as_secs_spec(),
            secs == self@ / 1_000_000_000,
    {
        proof {
            use_type_invariant(self);
        }
        self.secs
    }

    /// The nanoseconds beyond the whole seconds; always below a second.
    pub fn subsec_nanos(&self) -> (nanos: u32)
        ensures
            nanos == self.subsec_nanos_spec(),
            nanos == self@ % 1_000_000_000,
            nanos < NANOS_PER_SEC,
    {
        proof {
            use_type_invariant(self);
        }
        self.nanos
    }

    /// Whether this interval is shorter than `other`.
    pub fn is_shorter_than(&self, other: &Interval) -> (shorter: bool)
        ensures
            shorter == (self@ < other@),
    {
        proof {
            use_type_invariant(self);
            use_type_invariant(other);
        }
        self.secs < other.secs || (self.secs == other.secs && self.nanos < other.nanos)
    }

    /// The longer of this interval and `floor`.
    pub fn at_least(self, floor: Interval) -> (d: Interval)
        ensures
            d@ == if self@ < floor@ { floor@ } else { self@ },
            d == if self@ < floor@ { floor } else { self },
    {
        if self.is_shorter_than(&floor) {
            floor
        } else {
            self
        }
    }
}

} // verus!
