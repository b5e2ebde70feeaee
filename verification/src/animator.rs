//! Smoothing of the raw progress estimate for display.
//!
//! The raw estimate is bursty: it can sit still for seconds and then jump.
//! The animator keeps a monotonically non-decreasing smoothed value in
//! thousandths of a percent, eases it toward the larger of the raw value
//! and a time-based floor (so the bar visibly moves even when the raw
//! signal is flat), and on completion ramps it to exactly 100 in fixed
//! increments.

use vstd::prelude::*;

verus! {

/// Scale of the smoothed value: thousandths of a percent.
pub const MILLI: u32 = 1000;

/// The smoothed value never exceeds this: 100 percent.
pub const FULL_MILLI: u32 = 100_000;

/// Growth rate of the time-based floor: thousandths of a percent per
/// millisecond, i.e. 2 percent per second.
pub const FLOOR_RATE_MILLI_PER_MS: u64 = 2;

/// Cap of the time-based floor: 85 percent.
pub const FLOOR_CAP_MILLI: u32 = 85_000;

/// Minimum easing step: half a percent per tick.
pub const MIN_STEP_MILLI: u32 = 500;

/// Easing gain: each tick closes a tenth of the remaining gap.
pub const GAIN_DIVISOR: u32 = 10;

/// Step of the terminal finish ramp: 5 percent per frame.
pub const FINISH_STEP_MILLI: u32 = 5000;

/// The time-based floor after `elapsed_ms` milliseconds: grows at 2 percent
/// per second and is capped at 85 percent.
pub open spec fn time_floor_milli(elapsed_ms: u64) -> u32 {
    if elapsed_ms * FLOOR_RATE_MILLI_PER_MS >= FLOOR_CAP_MILLI {
        FLOOR_CAP_MILLI
    } else {
        (elapsed_ms * FLOOR_RATE_MILLI_PER_MS) as u32
    }
}

/// One easing step from `s` toward `target`: closes a tenth of the gap but
/// at least half a percent, never overshooting, and never moving back.
pub open spec fn ease_step(s: u32, target: u32) -> u32 {
    if s >= target {
        s
    } else {
        let gap_step = ((target - s) / (GAIN_DIVISOR as int)) as u32;
        let step: u32 = if gap_step > MIN_STEP_MILLI {
            gap_step
        } else {
            MIN_STEP_MILLI
        };
        if s + step > target {
            target
        } else {
            (s + step) as u32
        }
    }
}

/// The target a tick eases toward: the raw estimate or the time-based
/// floor, whichever is larger.
pub open spec fn effective_target(raw: u32, elapsed_ms: u64) -> u32 {
    let raw_milli = (raw * MILLI) as u32;
    if raw_milli >= time_floor_milli(elapsed_ms) {
        raw_milli
    } else {
        time_floor_milli(elapsed_ms)
    }
}

/// One step of the terminal finish ramp.
pub open spec fn finish_step(s: u32) -> u32 {
    if s + FINISH_STEP_MILLI >= FULL_MILLI {
        FULL_MILLI
    } else {
        (s + FINISH_STEP_MILLI) as u32
    }
}

/// The smoothed display state.
pub struct ProgressAnimator {
    /// Smoothed progress in thousandths of a percent.
    pub smoothed_milli: u32,
}

impl ProgressAnimator {
    pub open spec fn wf(self) -> bool {
        self.smoothed_milli <= FULL_MILLI
    }

    /// The displayed whole percentage for a smoothed value.
    pub open spec fn display_of(s: u32) -> u32 {
        s / MILLI
    }

    pub fn start() -> (a: Self)
        ensures
            a.smoothed_milli == 0,
            a.wf(),
    {
        ProgressAnimator { smoothed_milli: 0 }
    }

    /// One animation tick: ease toward the larger of the raw estimate and
    /// the time-based floor, and return the whole percentage to display.
    /// The smoothed value never decreases and never exceeds 100 percent.
    pub fn tick(&mut self, raw: u32, elapsed_ms: u64) -> (display: u32)
        requires
            old(self).wf(),
            raw <= 100,
        ensures
            final(self).smoothed_milli == ease_step(
                old(self).smoothed_milli,
                effective_target(raw, elapsed_ms),
            ),
            final(self).smoothed_milli >= old(self).smoothed_milli,
            final(self).wf(),
            display == Self::display_of(final(self).smoothed_milli),
            display <= 100,
    {
        let floor: u32 = if elapsed_ms >= 42_500 {
            FLOOR_CAP_MILLI
        } else {
            let e: u32 = elapsed_ms as u32;
            assert(e == elapsed_ms);
            e * 2
        };
        let raw_milli = raw * MILLI;
        let target: u32 = if raw_milli >= floor {
            raw_milli
        } else {
            floor
        };
        assert(target == effective_target(raw, elapsed_ms));
        if self.smoothed_milli < target {
            let gap_step = (target - self.smoothed_milli) / GAIN_DIVISOR;
            let step: u32 = if gap_step > MIN_STEP_MILLI {
                gap_step
            } else {
                MIN_STEP_MILLI
            };
            if self.smoothed_milli + step > target {
                self.smoothed_milli = target;
            } else {
                self.smoothed_milli = self.smoothed_milli + step;
            }
        }
        self.smoothed_milli / MILLI
    }

    /// One frame of the terminal finish ramp: advance by 5 percent, to
    /// exactly 100 percent at most.
    pub fn finish_tick(&mut self) -> (display: u32)
        requires
            old(self).wf(),
        ensures
            final(self).smoothed_milli == finish_step(old(self).smoothed_milli),
            final(self).smoothed_milli >= old(self).smoothed_milli,
            final(self).wf(),
            display == Self::display_of(final(self).smoothed_milli),
            display <= 100,
    {
        if self.smoothed_milli + FINISH_STEP_MILLI >= FULL_MILLI {
            self.smoothed_milli = FULL_MILLI;
        } else {
            self.smoothed_milli = self.smoothed_milli + FINISH_STEP_MILLI;
        }
        self.smoothed_milli / MILLI
    }

    /// Whether the finish ramp still has frames to run.
    pub fn finish_pending(&self) -> (r: bool)
        ensures
            r == (self.smoothed_milli < FULL_MILLI),
    {
        self.smoothed_milli < FULL_MILLI
    }
}

/// The smoothed value after the finish ramp has run `n` frames from `s`.
pub open spec fn finish_run(s: u32, n: int) -> u32
    decreases n,
{
    if n <= 0 {
        s
    } else {
        finish_step(finish_run(s, n - 1))
    }
}

/// The finish ramp reaches exactly 100 percent within 20 frames from any
/// well-formed state: the bar visibly fills before the window is retired.
pub proof fn lemma_finish_ramp_reaches_full(s: u32, n: int)
    requires
        s <= FULL_MILLI,
        n >= 20,
    ensures
        finish_run(s, n) == FULL_MILLI,
    decreases n,
{
    lemma_finish_run_progress(s, n);
}

/// Each finish frame adds a full step until the ramp saturates.
proof fn lemma_finish_run_progress(s: u32, n: int)
    requires
        s <= FULL_MILLI,
        n >= 0,
    ensures
        finish_run(s, n) <= FULL_MILLI,
        finish_run(s, n) == FULL_MILLI || finish_run(s, n) >= s + n * FINISH_STEP_MILLI,
    decreases n,
{
    if n > 0 {
        lemma_finish_run_progress(s, n - 1);
    }
}

/// The smoothed value after ticks with inputs `ticks[0], ..., ticks[n-1]`
/// (raw value and elapsed milliseconds), starting from zero.
pub open spec fn tick_run(ticks: Seq<(u32, u64)>, n: int) -> u32
    decreases n,
{
    if n <= 0 {
        0u32
    } else {
        ease_step(
            tick_run(ticks, n - 1),
            effective_target(ticks[n - 1].0, ticks[n - 1].1),
        )
    }
}

/// Across successive ticks the smoothed value, and with it the displayed
/// percentage, never decreases - whatever the raw values and elapsed times.
pub proof fn lemma_tick_run_monotone(ticks: Seq<(u32, u64)>, i: int, j: int)
    requires
        0 <= i <= j,
    ensures
        tick_run(ticks, i) <= tick_run(ticks, j),
        ProgressAnimator::display_of(tick_run(ticks, i)) <= ProgressAnimator::display_of(
            tick_run(ticks, j),
        ),
    decreases j - i,
{
    if i < j {
        lemma_tick_run_monotone(ticks, i, j - 1);
    }
}

/// The time-based floor property.  If ticks come at least every 250
/// milliseconds (the reference cadence is one per 33 ms), then after the
/// tick at elapsed time `e` the smoothed value is within half a percent of
/// the time-based floor `min(2 * e, 85 percent)` - whatever the raw
/// values, including a raw signal that stays at zero throughout.
pub proof fn lemma_time_floor_drives_motion(ticks: Seq<(u32, u64)>, n: int)
    requires
        1 <= n <= ticks.len(),
        ticks[0].1 <= 250,
        forall|i: int| 0 < i < n ==> #[trigger] ticks[i].1 - ticks[i - 1].1 <= 250,
        forall|i: int| 0 < i < n ==> ticks[i - 1].1 <= #[trigger] ticks[i].1,
    ensures
        tick_run(ticks, n) + MIN_STEP_MILLI >= time_floor_milli(ticks[n - 1].1),
    decreases n,
{
    if n == 1 {
        assert(time_floor_milli(ticks[0].1) <= 500) by {
            assert(ticks[0].1 * FLOOR_RATE_MILLI_PER_MS <= 500);
        }
    } else {
        lemma_time_floor_drives_motion(ticks, n - 1);
        let e_prev = ticks[n - 2].1;
        let e = ticks[n - 1].1;
        assert(time_floor_milli(e) <= time_floor_milli(e_prev) + MIN_STEP_MILLI) by {
            assert(e * FLOOR_RATE_MILLI_PER_MS <= e_prev * FLOOR_RATE_MILLI_PER_MS + 500);
        }
    }
}

} // verus!
