//! The frame rate, from the time between two frames.

use vstd::prelude::*;

verus! {

/// Microseconds in a second.
pub const MICROS_PER_SECOND: u64 = 1_000_000;

/// The frames per second that go with `elapsed` microseconds per frame,
/// rounded down; zero where no time has passed.
pub open spec fn spec_rate(elapsed: int) -> int {
    if elapsed != 0 {
        MICROS_PER_SECOND as int / elapsed
    } else {
        0
    }
}

/// The rate of the last frame and the time at which it was seen.
pub struct FPSResource {
    /// Frames per second.
    pub fps: u64,
    /// When the last frame was seen, in microseconds since start.
    pub instant: u64,
}

impl FPSResource {
    /// A counter that has seen no frame since `now`.
    pub fn new(now: u64) -> (counter: Self)
        ensures
            counter.fps == 0,
            counter.instant == now,
    {
        Self { fps: 0, instant: now }
    }

    /// Takes in a frame seen at `now`, which is not before the last one.
    pub fn process(&mut self, now: u64)
        requires
            old(self).instant <= now,
        ensures
            final(self).fps == spec_rate(now - old(self).instant),
            final(self).instant == now,
    {
        let micros: u64 = now - self.instant;
        self.fps = if micros != 0 {
            MICROS_PER_SECOND / micros
        } else {
            0
        };
        self.instant = now;
    }
}

} // verus!
