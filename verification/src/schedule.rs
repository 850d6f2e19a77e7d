//! Deadline computation and the convergent wait loop.
//!
//! The fire instant is a time-of-day offset biased by measured latency:
//! higher latency means the request is dispatched earlier locally, so that it
//! arrives at the target instant. If the naive target of day has already
//! passed, the deadline shifts forward by exactly one day. The wait loop
//! sleeps in decreasing steps (90% of the remaining gap while it is coarse,
//! then the exact remainder) and re-derives "now" on every iteration.

use vstd::prelude::*;
use crate::clock::MAX_TIME_MS;

verus! {

/// One authoritative-zone day, in milliseconds.
pub const DAY_MS: u64 = 86_400_000;

/// Gaps at or below this are closed with one exact ("fine") sleep.
pub const COARSE_GAP_MS: u64 = 100;

/// Calibrated base of the fire bias (milliseconds past the nominal minute).
pub const BASE_BIAS_MS: u64 = 59_091;

/// The latency at which the bias equals its base, in milliseconds.
pub const REFERENCE_LATENCY_MS: u64 = 166;

/// Calibrated slope of the bias: milliseconds of bias lost per millisecond
/// of measured latency above the reference.
pub const BIAS_SLOPE: u64 = 6;

/// Largest latency for which the linear bias formula is still non-negative;
/// beyond it the bias saturates at zero.
pub const MAX_BIAS_LATENCY_MS: u64 = 10_014;

/// Time of day of the pre-fire checkpoint (23:59:48), in milliseconds.
pub const CHECKPOINT_OFFSET_MS: u64 = 86_388_000;

/// Nominal time of day the fire bias is added to (23:59:00), in milliseconds.
pub const FIRE_BASE_OFFSET_MS: u64 = 86_340_000;

/// The fire-bias function: a pure function of the measured latency alone.
/// Within the calibrated range it is `BASE + (REFERENCE - latency) * SLOPE`;
/// past the point where that line reaches zero it saturates at zero.
pub open spec fn spec_fire_bias_ms(latency_ms: u64) -> int {
    if latency_ms <= MAX_BIAS_LATENCY_MS {
        BASE_BIAS_MS + (REFERENCE_LATENCY_MS - latency_ms as int) * BIAS_SLOPE
    } else {
        0
    }
}

/// Compute the latency bias added to the nominal fire time of day.
pub fn fire_bias_ms(latency_ms: u64) -> (r: u64)
    ensures
        r == spec_fire_bias_ms(latency_ms),
{
    if latency_ms <= REFERENCE_LATENCY_MS {
        BASE_BIAS_MS + (REFERENCE_LATENCY_MS - latency_ms) * BIAS_SLOPE
    } else if latency_ms <= MAX_BIAS_LATENCY_MS {
        BASE_BIAS_MS - (latency_ms - REFERENCE_LATENCY_MS) * BIAS_SLOPE
    } else {
        0
    }
}

/// The fire-bias function is monotonically non-increasing in the measured
/// latency: a higher latency never yields a later local fire instant.
pub proof fn lemma_fire_bias_monotone(p1: u64, p2: u64)
    requires
        p1 <= p2,
    ensures
        spec_fire_bias_ms(p2) <= spec_fire_bias_ms(p1),
{
}

/// Of the two deadlines of one run, the fire instant falls later in the
/// day than the pre-fire checkpoint, for every latency up to the point
/// where the bias would drop below the checkpoint's margin.
pub proof fn lemma_fire_after_checkpoint(latency_ms: u64)
    requires
        latency_ms <= 2014,
    ensures
        FIRE_BASE_OFFSET_MS + spec_fire_bias_ms(latency_ms) > CHECKPOINT_OFFSET_MS,
{
}

/// Midnight (00:00:00) of the day a given authoritative reading falls in.
pub open spec fn spec_day_start_ms(t_ms: u64) -> int {
    t_ms as int - (t_ms as int) % (DAY_MS as int)
}

/// Midnight of the day after the one a given reading falls in.
pub open spec fn spec_next_midnight_ms(t_ms: u64) -> int {
    spec_day_start_ms(t_ms) + DAY_MS
}

/// The effective deadline: the given time of day on the anchor's date,
/// shifted forward by exactly one day when "now" has already passed it.
pub open spec fn spec_effective_deadline_ms(anchor_ms: u64, now_ms: u64, offset_ms: u64) -> int {
    let naive = spec_day_start_ms(anchor_ms) + offset_ms;
    if now_ms > naive {
        naive + DAY_MS
    } else {
        naive
    }
}

/// Compute the effective deadline from the anchor date, the current
/// authoritative reading, and a time-of-day offset. When "now" already
/// exceeds the naive target of day, the result is exactly one day later.
pub fn effective_deadline_ms(anchor_ms: u64, now_ms: u64, offset_ms: u64) -> (r: u64)
    requires
        anchor_ms < MAX_TIME_MS,
        offset_ms <= 2 * DAY_MS,
    ensures
        r == spec_effective_deadline_ms(anchor_ms, now_ms, offset_ms),
        now_ms > spec_day_start_ms(anchor_ms) + offset_ms ==> r == spec_day_start_ms(anchor_ms)
            + offset_ms + DAY_MS,
        now_ms <= spec_day_start_ms(anchor_ms) + offset_ms ==> r == spec_day_start_ms(anchor_ms)
            + offset_ms,
        r < MAX_TIME_MS + 3 * DAY_MS,
{
    let day_start = anchor_ms - anchor_ms % DAY_MS;
    let naive = day_start + offset_ms;
    if now_ms > naive {
        naive + DAY_MS
    } else {
        naive
    }
}

/// What the scheduler does with a signed gap (deadline minus now):
/// sleep, or declare the deadline reached.
#[derive(Clone, Copy, Debug, PartialEq, Eq)]
pub enum WaitStep {
    Sleep { ms: u64 },
    Done,
}

/// The wait policy on one observed gap: 90% of a coarse gap, the exact
/// remainder of a fine one, and done once the gap is gone.
pub open spec fn spec_wait_step(gap_ms: int) -> WaitStep {
    if gap_ms > COARSE_GAP_MS {
        WaitStep::Sleep { ms: (gap_ms * 9 / 10) as u64 }
    } else if gap_ms > 0 {
        WaitStep::Sleep { ms: gap_ms as u64 }
    } else {
        WaitStep::Done
    }
}

/// Decide the next sleep from the signed gap between deadline and "now".
pub fn wait_step(gap_ms: i64) -> (r: WaitStep)
    requires
        gap_ms <= 3 * MAX_TIME_MS,
    ensures
        r == spec_wait_step(gap_ms as int),
{
    if gap_ms > COARSE_GAP_MS as i64 {
        WaitStep::Sleep { ms: (gap_ms * 9 / 10) as u64 }
    } else if gap_ms > 0 {
        WaitStep::Sleep { ms: gap_ms as u64 }
    } else {
        WaitStep::Done
    }
}

/// A coarse sleep is at least 90ms and always leaves a positive gap behind;
/// a fine sleep closes the gap exactly. Together these drive the wait loop
/// to its deadline.
proof fn lemma_coarse_step_bounds(gap_ms: int)
    requires
        gap_ms > COARSE_GAP_MS,
    ensures
        90 <= gap_ms * 9 / 10 < gap_ms,
{
    vstd::arithmetic::div_mod::lemma_fundamental_div_mod(gap_ms * 9, 10);
}

/// The wait loop on a synthetic clock that advances exactly by what is
/// slept: it terminates, and the observed "now" at return is at least the
/// deadline and within one fine step of it (here: exactly the deadline).
pub fn wait_until_model(start_ms: u64, deadline_ms: u64) -> (r: u64)
    requires
        start_ms <= deadline_ms,
        deadline_ms < 2 * MAX_TIME_MS,
    ensures
        deadline_ms <= r,
        r < deadline_ms + COARSE_GAP_MS,
        r == deadline_ms,
{
    let mut now_ms: u64 = start_ms;
    loop
        invariant
            now_ms <= deadline_ms,
            deadline_ms < 2 * MAX_TIME_MS,
        decreases deadline_ms - now_ms,
    {
        let gap: i64 = (deadline_ms - now_ms) as i64;
        match wait_step(gap) {
            WaitStep::Sleep { ms } => {
                proof {
                    if gap > COARSE_GAP_MS {
                        lemma_coarse_step_bounds(gap as int);
                    }
                }
                now_ms = now_ms + ms;
            },
            WaitStep::Done => {
                return now_ms;
            },
        }
    }
}

} // verus!
