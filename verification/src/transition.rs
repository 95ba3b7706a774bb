//! The zoom-and-fade animation bridging the menu to the game screen: a
//! cubic zoom about the canvas centre and a white overlay whose opacity
//! ramps up linearly. Both are pure functions of the elapsed time; they are
//! kept in fixed point so the whole animation is verified. The scale factor
//! `1 + 2*t^3` (with `t` in seconds) is carried as a numerator over
//! [`SCALE_DENOM`], and the overlay alpha `clamp(t / 2.5, 0, 1)` in
//! thousandths.

use vstd::prelude::*;
use crate::timer::{ElapsedTimer, spec_accum};
use vstd::arithmetic::div_mod::{lemma_div_is_ordered, lemma_div_pos_is_pos};

verus! {

/// How long the transition runs before the owning phase is ready.
pub const TRANSITION_DURATION_MS: u64 = 2500;

/// Denominator of the fixed-point scale factor: a scale of `1.0` is
/// `SCALE_DENOM`. With time counted in milliseconds, `2 * t^3` in cubic
/// milliseconds is exactly the numerator beyond one.
pub const SCALE_DENOM: u64 = 1_000_000_000;

/// A fully opaque overlay, in thousandths.
pub const ALPHA_FULL_MILLI: u64 = 1000;

/// Numerator of the scale factor `1 + 2 * (t_ms / 1000)^3` over
/// [`SCALE_DENOM`]: exact, with no rounding.
pub open spec fn spec_scale_num(t_ms: int) -> int {
    SCALE_DENOM + 2 * (t_ms * t_ms * t_ms)
}

/// Overlay alpha in thousandths: `t_ms / 2500` scaled by 1000 and clamped
/// to `[0, 1000]`.
pub open spec fn spec_alpha_milli(t_ms: int) -> int {
    let raw = (t_ms * ALPHA_FULL_MILLI) / (TRANSITION_DURATION_MS as int);
    if raw > ALPHA_FULL_MILLI { ALPHA_FULL_MILLI as int } else { raw }
}

/// One rendered instant of the animation.
pub struct AnimFrame {
    pub scale_num: u64,
    pub alpha_milli: u64,
}

/// The transition animator: nothing but elapsed time.
pub struct TransitionState {
    pub timer: ElapsedTimer,
}

impl TransitionState {
    pub open spec fn wf(self) -> bool {
        self.timer.wf()
    }

    pub fn new() -> (r: TransitionState)
        ensures
            r.timer.elapsed_ms == 0,
            r.wf(),
    {
        TransitionState { timer: ElapsedTimer::new() }
    }

    /// Accumulate one frame's delta time. The elapsed duration never
    /// decreases.
    pub fn advance(&mut self, dt_ms: u64)
        requires
            old(self).wf(),
        ensures
            final(self).timer.elapsed_ms == spec_accum(
                old(self).timer.elapsed_ms as int,
                dt_ms as int,
            ),
            final(self).timer.elapsed_ms >= old(self).timer.elapsed_ms,
            final(self).wf(),
    {
        self.timer.accumulate(dt_ms);
    }

    /// Level-triggered completion query: true once 2500 ms have elapsed.
    /// Callers that need exactly-once semantics keep their own flag.
    pub fn is_complete(&self) -> (r: bool)
        ensures
            r == (self.timer.elapsed_ms >= TRANSITION_DURATION_MS),
    {
        self.timer.elapsed_ms >= TRANSITION_DURATION_MS
    }

    /// The scale factor and overlay alpha for the current instant.
    pub fn frame(&self) -> (f: AnimFrame)
        requires
            self.wf(),
        ensures
            f.scale_num == spec_scale_num(self.timer.elapsed_ms as int),
            f.alpha_milli == spec_alpha_milli(self.timer.elapsed_ms as int),
    {
        let t = self.timer.elapsed_ms;
        assert(t * t <= 1_000_000_000_000int) by (nonlinear_arith)
            requires t <= 1_000_000u64;
        let square = t * t;
        assert(square * t <= 1_000_000_000_000_000_000int) by (nonlinear_arith)
            requires square <= 1_000_000_000_000u64 && t <= 1_000_000u64;
        let cube = square * t;
        let scale_num = SCALE_DENOM + 2 * cube;
        let raw_alpha = (t * ALPHA_FULL_MILLI) / TRANSITION_DURATION_MS;
        let alpha_milli = if raw_alpha > ALPHA_FULL_MILLI { ALPHA_FULL_MILLI } else { raw_alpha };
        AnimFrame { scale_num, alpha_milli }
    }
}

/// At the start of the transition the content is at its natural size.
pub proof fn lemma_scale_starts_at_one()
    ensures
        spec_scale_num(0) == SCALE_DENOM,
{
}

/// The zoom only ever grows: the scale factor is strictly increasing in
/// elapsed time.
pub proof fn lemma_scale_strictly_increasing(t1: int, t2: int)
    requires
        0 <= t1 < t2,
    ensures
        spec_scale_num(t1) < spec_scale_num(t2),
{
    assert(t1 * t1 * t1 < t2 * t2 * t2) by (nonlinear_arith)
        requires 0 <= t1 < t2;
}

/// The overlay starts fully transparent, reaches full opacity exactly at
/// the end of the transition, and is clamped: it never exceeds full
/// opacity, however far past the end the clock runs.
pub proof fn lemma_alpha_ramp(t: int)
    requires
        0 <= t,
    ensures
        spec_alpha_milli(0) == 0,
        0 <= spec_alpha_milli(t) <= ALPHA_FULL_MILLI,
        t >= TRANSITION_DURATION_MS ==> spec_alpha_milli(t) == ALPHA_FULL_MILLI,
{
    lemma_div_pos_is_pos(t * ALPHA_FULL_MILLI, TRANSITION_DURATION_MS as int);
    if t >= TRANSITION_DURATION_MS {
        lemma_div_is_ordered(
            (TRANSITION_DURATION_MS * ALPHA_FULL_MILLI) as int,
            t * ALPHA_FULL_MILLI,
            TRANSITION_DURATION_MS as int,
        );
    }
}

} // verus!
