use vstd::prelude::*;

verus! {

/// A length of time, or a point in time counted from the Unix epoch.
#[derive(Debug, Clone, Copy, PartialEq, Eq, Structural)]
pub struct TimeSpan {
    pub secs: u64,
    pub nanos: u32,
}

/// A point in time as a host keeps it for its files: at a distance from the
/// Unix epoch, after it or before it.
#[derive(Debug, Clone, Copy, PartialEq, Eq, Structural)]
pub struct HostTime {
    /// Whether the point lies before the epoch.
    pub before_epoch: bool,
    /// How far from the epoch the point lies.
    pub distance: TimeSpan,
}

/// A system clock that stands still, so that no verdict depends on the time
/// of day.
#[derive(Debug, Clone, Copy)]
pub struct NullSystemClock;

impl NullSystemClock {
    /// The resolution of the clock: one nanosecond.
    pub fn resolution(&self) -> (span: TimeSpan)
        ensures
            span == (TimeSpan { secs: 0, nanos: 1 }),
    {
        TimeSpan { secs: 0, nanos: 1 }
    }

    /// The time now, whatever the precision asked for: the Unix epoch.
    pub fn now(&self, precision: TimeSpan) -> (time: TimeSpan)
        ensures
            time == (TimeSpan { secs: 0, nanos: 0 }),
    {
        TimeSpan { secs: 0, nanos: 0 }
    }
}

} // verus!
