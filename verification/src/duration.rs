//! Spans of time, as whole seconds and a nanosecond remainder.

use vstd::prelude::*;

verus! {

/// Nanoseconds in a second.
pub const NANOS_PER_SEC: u32 = 1_000_000_000;

/// Nanoseconds in a millisecond.
pub const NANOS_PER_MILLI: u32 = 1_000_000;

/// Milliseconds in a second.
pub const MILLIS_PER_SEC: u64 = 1_000;

/// A span of time. Its view is its length in nanoseconds.
#[derive(Clone, Copy, Debug, PartialEq, Eq, Structural)]
pub struct Duration {
    secs: u64,
    nanos: u32,
}

impl View for Duration {
    type V = nat;

    closed spec fn view(&self) -> nat {
        (self.secs * NANOS_PER_SEC + self.nanos) as nat
    }
}

impl Duration {
    #[verifier::type_invariant]
    spec fn wf(self) -> bool {
        self.nanos < NANOS_PER_SEC
    }

    /// The span that is `length` nanoseconds long.
    pub closed spec fn of_nanos(length: nat) -> Self {
        Duration {
            secs: (length / NANOS_PER_SEC as nat) as u64,
            nanos: (length % NANOS_PER_SEC as nat) as u32,
        }
    }

    /// The span of `secs` seconds and `nanos` nanoseconds; a second or more of nanoseconds
    /// carries over.
    pub fn new(secs: u64, nanos: u32) -> (duration: Self)
        requires
            secs + nanos / NANOS_PER_SEC <= u64::MAX,
        ensures
            duration@ == secs * NANOS_PER_SEC + nanos,
            duration == Self::of_nanos(duration@),
    {
        Duration { secs: secs + (nanos / NANOS_PER_SEC) as u64, nanos: nanos % NANOS_PER_SEC }
    }

    /// The span of `secs` seconds.
    pub fn from_secs(secs: u64) -> (duration: Self)
        ensures
            duration@ == secs * NANOS_PER_SEC,
            duration == Self::of_nanos(duration@),
    {
        Duration { secs, nanos: 0 }
    }

    /// The span of `millis` milliseconds.
    pub fn from_millis(millis: u64) -> (duration: Self)
        ensures
            duration@ == millis * NANOS_PER_MILLI,
            duration == Self::of_nanos(duration@),
    {
        Duration {
            secs: millis / MILLIS_PER_SEC,
            nanos: (millis % MILLIS_PER_SEC) as u32 * NANOS_PER_MILLI,
        }
    }

    /// The whole seconds of the span.
    pub fn as_secs(&self) -> (secs: u64)
        ensures
            secs == self@ / NANOS_PER_SEC as nat,
    {
        proof {
            use_type_invariant(self);
        }
        self.secs
    }

    /// What is left of the span, in nanoseconds, beyond its whole seconds.
    pub fn subsec_nanos(&self) -> (nanos: u32)
        ensures
            nanos == self@ % NANOS_PER_SEC as nat,
    {
        proof {
            use_type_invariant(self);
        }
        self.nanos
    }

    /// The shorter of two spans.
    pub fn min(self, other: Self) -> (shorter: Self)
        ensures
            shorter == if other@ < self@ {
                other
            } else {
                self
            },
    {
        proof {
            use_type_invariant(&self);
            use_type_invariant(&other);
        }
        if other.secs < self.secs || (other.secs == self.secs && other.nanos < self.nanos) {
            other
        } else {
            self
        }
    }
}

/// The span that is `length` nanoseconds long is that long, up to the longest span there is.
pub proof fn span_has_its_length(length: nat)
    requires
        length / NANOS_PER_SEC as nat <= u64::MAX,
    ensures
        Duration::of_nanos(length)@ == length,
{
}

} // verus!
