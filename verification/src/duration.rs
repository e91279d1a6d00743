use vstd::prelude::*;

verus! {

/// Nanoseconds in one second; a normalized sub-second part stays below this.
pub const NANOS_PER_SEC: u32 = 1_000_000_000;

/// Nanoseconds in one millisecond.
pub const NANOS_PER_MILLI: u32 = 1_000_000;

/// Milliseconds in one second.
pub const MILLIS_PER_SEC: u64 = 1_000;

/// How long the retry loop intends to wait before the next attempt, held as
/// whole seconds plus a sub-second remainder in nanoseconds. The value is
/// small and immutable, so it is passed around by copy.
#[derive(Clone, Copy, PartialEq, Eq, Structural, Debug)]
pub struct Duration {
    /// Whole seconds of the wait.
    pub secs: u64,
    /// Remainder of the wait in nanoseconds, below one second when normalized.
    pub nanos: u32,
}

impl Duration {
    /// A duration is normalized when its nanosecond part is below one second;
    /// the constructors establish this.
    pub open spec fn wf(self) -> bool {
        self.nanos < NANOS_PER_SEC
    }

    /// The duration of `secs` whole seconds.
    pub fn from_secs(secs: u64) -> (d: Duration)
        ensures
            d.secs == secs,
            d.nanos == 0,
            d.wf(),
    {
        Duration { secs, nanos: 0 }
    }

    /// The duration of `millis` milliseconds, normalized into whole seconds
    /// and a sub-second remainder.
    pub fn from_millis(millis: u64) -> (d: Duration)
        ensures
            d.secs == millis / MILLIS_PER_SEC,
            d.nanos == (millis % MILLIS_PER_SEC) * NANOS_PER_MILLI,
            d.wf(),
    {
        Duration {
            secs: millis / MILLIS_PER_SEC,
            nanos: ((millis % MILLIS_PER_SEC) as u32) * NANOS_PER_MILLI,
        }
    }
}

} // verus!
