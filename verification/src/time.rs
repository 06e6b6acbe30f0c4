//! Readings of a monotonic clock, and the spans between them.

use vstd::prelude::*;

verus! {

/// A span of time, in nanoseconds.
#[derive(Clone, Copy, Debug, PartialEq, Eq, PartialOrd, Ord, Structural)]
pub struct Duration {
    pub nanos: u64,
}

/// A reading of a monotonic clock, in nanoseconds since the clock started.
#[derive(Clone, Copy, Debug, PartialEq, Eq, PartialOrd, Ord, Structural)]
pub struct Instant {
    pub nanos: u64,
}

/// The span from `first` to `second`: their difference where `second` is the
/// later one, else nothing at all.
pub open spec fn span_between(first: Instant, second: Instant) -> Duration {
    Duration {
        nanos: if second.nanos >= first.nanos {
            (second.nanos - first.nanos) as u64
        } else {
            0
        },
    }
}

/// The span of `ns` nanoseconds.
pub fn nanoseconds(ns: u64) -> (r: Duration)
    ensures
        r == (Duration { nanos: ns }),
{
    Duration { nanos: ns }
}

/// The span from `first` to `second`; empty where `second` is the earlier
/// one.
pub fn duration_between(first: Instant, second: Instant) -> (r: Duration)
    ensures
        r == span_between(first, second),
{
    if second.nanos >= first.nanos {
        Duration { nanos: second.nanos - first.nanos }
    } else {
        Duration { nanos: 0 }
    }
}

impl Duration {
    /// Whether `self` is the longer span.
    pub fn longer_than(self, other: Duration) -> (r: bool)
        ensures
            r == (self.nanos > other.nanos),
    {
        self.nanos > other.nanos
    }
}

} // verus!
