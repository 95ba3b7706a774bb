//! The one "accumulate delta time, fire at a threshold" mechanism that the
//! reveal pacing, the post-reveal hold, and the menu transition all share.

use vstd::prelude::*;

verus! {

/// Upper bound kept on every accumulated duration, in milliseconds. It lies
/// far past every threshold the phases compare against (the largest is the
/// transition length of 2500 ms), and it keeps all derived fixed-point
/// arithmetic inside `u64`.
pub const ELAPSED_CAP_MS: u64 = 1_000_000;

/// What accumulating `dt` onto `elapsed` yields: the sum, saturated at
/// [`ELAPSED_CAP_MS`].
pub open spec fn spec_accum(elapsed: int, dt: int) -> int {
    if elapsed + dt > ELAPSED_CAP_MS { ELAPSED_CAP_MS as int } else { elapsed + dt }
}

/// A duration accumulator counting whole milliseconds.
pub struct ElapsedTimer {
    pub elapsed_ms: u64,
}

impl ElapsedTimer {
    /// The accumulator never leaves the range `[0, ELAPSED_CAP_MS]`.
    pub open spec fn wf(self) -> bool {
        self.elapsed_ms <= ELAPSED_CAP_MS
    }

    pub fn new() -> (r: ElapsedTimer)
        ensures
            r.elapsed_ms == 0,
            r.wf(),
    {
        ElapsedTimer { elapsed_ms: 0 }
    }

    /// Add one frame's delta time, saturating at the cap.
    pub fn accumulate(&mut self, dt_ms: u64)
        requires
            old(self).wf(),
        ensures
            final(self).elapsed_ms == spec_accum(old(self).elapsed_ms as int, dt_ms as int),
            final(self).wf(),
            final(self).elapsed_ms >= old(self).elapsed_ms,
    {
        if dt_ms > ELAPSED_CAP_MS - self.elapsed_ms {
            self.elapsed_ms = ELAPSED_CAP_MS;
        } else {
            self.elapsed_ms = self.elapsed_ms + dt_ms;
        }
    }

    /// Start a fresh accumulation, as is done each time a line is revealed.
    pub fn reset(&mut self)
        ensures
            final(self).elapsed_ms == 0,
            final(self).wf(),
    {
        self.elapsed_ms = 0;
    }

    /// Whether the accumulated duration strictly exceeds `threshold_ms`.
    pub fn exceeds(&self, threshold_ms: u64) -> (r: bool)
        ensures
            r == (self.elapsed_ms > threshold_ms),
    {
        self.elapsed_ms > threshold_ms
    }
}

} // verus!
