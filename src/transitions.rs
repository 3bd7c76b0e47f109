//! What a driver takes from an engine transition to feed the tracker, the snapshot and
//! the user interface.

use vstd::prelude::*;

use crate::models::{Step, StepRunResult};
use crate::timer_engine::{AdvanceResult, TimerEngine};

verus! {

/// The step entered (with its index) and whether the routine completed.
pub fn capture_advance_events(engine: &TimerEngine, result: &AdvanceResult) -> (r: (
    Option<(Step, usize)>,
    bool,
))
    ensures
        r.1 == (*result == AdvanceResult::RoutineCompleted),
        r.0 == (match *result {
            AdvanceResult::StepAdvanced { step_index } => if engine@.is_running() && step_index
                < engine@.steps().len() {
                Some((engine@.steps()[step_index as int], step_index))
            } else {
                None
            },
            _ => None,
        }),
{
    let step_changed = match result {
        AdvanceResult::StepAdvanced { step_index } => match engine.step_at(*step_index) {
            Some(step) => Some((step.duplicate(), *step_index)),
            None => None,
        },
        _ => None,
    };
    let routine_completed = match result {
        AdvanceResult::RoutineCompleted => true,
        _ => false,
    };
    (step_changed, routine_completed)
}

/// Seconds actually spent in a step: its planned length less what was left of it.
pub fn seconds_spent(planned_seconds: u32, remaining_seconds: u32) -> (r: u32)
    ensures
        r == (if planned_seconds >= remaining_seconds {
            (planned_seconds - remaining_seconds) as u32
        } else {
            0
        }),
{
    if planned_seconds >= remaining_seconds {
        planned_seconds - remaining_seconds
    } else {
        0
    }
}

/// How a step that was current when the routine completed ended: cut short while time
/// was left, else completed.
pub fn final_step_result(remaining_seconds: u32) -> (r: StepRunResult)
    ensures
        r == (if remaining_seconds > 0 {
            StepRunResult::Aborted
        } else {
            StepRunResult::Completed
        }),
{
    if remaining_seconds > 0 {
        StepRunResult::Aborted
    } else {
        StepRunResult::Completed
    }
}

} // verus!
