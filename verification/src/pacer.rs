//! The frame pacer's decisions.
//!
//! The pacer holds every loop iteration to a minimum wall-clock duration with
//! a hybrid of one coarse sleep and a busy-wait. The blocking itself is the
//! caller's work; this module decides, from plain elapsed-time readings, what
//! the caller should do. Each frame is paced independently against its own
//! start time: drift is never corrected retroactively.

use vstd::prelude::*;

verus! {

/// The target duration of one frame, in milliseconds (60 frames per second).
pub const TARGET_FRAME_MS: u64 = 1000 / 60;

/// The slice of the target reserved for the busy-wait: coarse sleeps on
/// commodity schedulers overshoot by up to a few milliseconds, so the pacer
/// never asks for a sleep closer than this to the deadline.
pub const SLEEP_MARGIN_MS: u64 = 3;

/// How the rest of the current frame's pause should be spent.
#[derive(Clone, Copy, Debug, PartialEq, Eq, Structural)]
pub enum PacerPlan {
    /// The frame's work already reached into the sleep margin (or past the
    /// deadline): no sleep, only the busy-wait, which ends at once if the
    /// deadline has passed.
    BusyWaitOnly,
    /// There is room for one coarse sleep of `sleep_ms` measured from the
    /// frame's start; the residual is busy-waited.
    SleepThenBusyWait { sleep_ms: u64 },
}

/// The plan, given how many milliseconds of work the frame has already
/// consumed and the target frame duration.
pub open spec fn spec_plan_frame_pause(elapsed_ms: u64, target_ms: u64) -> PacerPlan {
    if elapsed_ms + SLEEP_MARGIN_MS <= target_ms {
        PacerPlan::SleepThenBusyWait { sleep_ms: (target_ms - SLEEP_MARGIN_MS) as u64 }
    } else {
        PacerPlan::BusyWaitOnly
    }
}

/// Decides the pause for the current frame. The sleep, when there is one, is
/// measured from the frame's start, so the caller sleeps until
/// `sleep_ms - elapsed_ms` more milliseconds have passed and busy-waits the
/// rest.
pub fn plan_frame_pause(elapsed_ms: u64, target_ms: u64) -> (plan: PacerPlan)
    ensures
        plan == spec_plan_frame_pause(elapsed_ms, target_ms),
{
    if target_ms >= SLEEP_MARGIN_MS && elapsed_ms <= target_ms - SLEEP_MARGIN_MS {
        PacerPlan::SleepThenBusyWait { sleep_ms: target_ms - SLEEP_MARGIN_MS }
    } else {
        PacerPlan::BusyWaitOnly
    }
}

/// The busy-wait's continuation test: keep spinning while the elapsed time
/// has not yet passed the target.
pub fn frame_pause_continues(elapsed_ms: u64, target_ms: u64) -> (r: bool)
    ensures
        r == (elapsed_ms <= target_ms),
{
    elapsed_ms <= target_ms
}

/// A frame that overran its target is never slept on: the plan skips the
/// coarse sleep, and the busy-wait's continuation test fails at once, so the
/// pacer returns immediately.
pub proof fn lemma_overrun_returns_immediately(elapsed_ms: u64, target_ms: u64)
    requires
        elapsed_ms > target_ms,
    ensures
        spec_plan_frame_pause(elapsed_ms, target_ms) == PacerPlan::BusyWaitOnly,
        !(elapsed_ms <= target_ms),
{
}

} // verus!
