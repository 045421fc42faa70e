//! Frame timing on integer nanoseconds.

use vstd::prelude::*;

verus! {

/// Time between two instants of a monotonic clock, both in nanoseconds. An
/// instant that lies before its reference point gives zero, as a saturating
/// difference of instants does.
pub open spec fn span(from: u64, to: u64) -> u64 {
    if to >= from {
        (to - from) as u64
    } else {
        0
    }
}

/// What one frame gets to know about time, in nanoseconds.
#[derive(Clone, Copy, Debug, PartialEq, Eq, Structural)]
pub struct FrameTimes {
    /// Time since the previous frame (since the start, for the first frame).
    pub delta: u64,
    /// Time since the clock was started.
    pub elapsed: u64,
}

/// Start time and last-frame timestamp of a run.
#[derive(Clone, Copy, Debug, PartialEq, Eq, Structural)]
pub struct FrameClock {
    /// Instant at which the run began. No operation changes it.
    pub start: u64,
    /// Instant of the most recent frame, or `start` before the first one.
    pub last: u64,
}

impl FrameClock {
    /// A clock started at `now`.
    pub fn new(now: u64) -> (clock: FrameClock)
        ensures
            clock == (FrameClock { start: now, last: now }),
    {
        FrameClock { start: now, last: now }
    }

    /// The clock after a frame at `now`.
    pub open spec fn advanced(self, now: u64) -> FrameClock {
        FrameClock { start: self.start, last: now }
    }

    /// The times that a frame at `now` observes.
    pub open spec fn times_at(self, now: u64) -> FrameTimes {
        FrameTimes { delta: span(self.last, now), elapsed: span(self.start, now) }
    }

    /// Advances the clock to `now` and returns the times of that frame.
    pub fn tick(&mut self, now: u64) -> (times: FrameTimes)
        ensures
            *final(self) == old(self).advanced(now),
            times == old(self).times_at(now),
    {
        let delta: u64 = now.saturating_sub(self.last);
        let elapsed: u64 = now.saturating_sub(self.start);
        self.last = now;
        FrameTimes { delta, elapsed }
    }
}

} // verus!
