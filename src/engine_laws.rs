//! Properties of the engine's transitions, stated over [`EngineState`] and proved.

use vstd::prelude::*;

use crate::models::{CheckInChoice, CheckInMode, CheckInResult, RepeatMode, Routine};
use crate::timer_engine::{
    landing, response_ms, sat_sub, seconds_nanos, step_nanos, timed_out_result, timeout_nanos,
    valid_routine, AdvanceResult, CheckInEvent, EngineState, Landing,
};

verus! {

/// While the engine runs unpaused, the time left in the step strictly decreases as the
/// clock moves on, for as long as any is left. `t1` is a reading no earlier than the
/// engine's latest, which every reachable state is anchored by (see the laws below).
pub proof fn remaining_decreases_while_running(s: EngineState, t1: u64, t2: u64)
    requires
        s.wf(),
        s.is_running(),
        s.paused_at is None,
        s.anchored_by(t1),
        t1 < t2,
        s.remaining(t1) > 0,
    ensures
        s.remaining(t2) < s.remaining(t1),
        s.remaining(t2) == sat_sub(s.remaining(t1), (t2 - t1) as u64),
{
}

/// While the engine is paused, the time left does not depend on the clock.
pub proof fn remaining_frozen_while_paused(s: EngineState, t1: u64, t2: u64)
    requires
        s.paused_at is Some,
    ensures
        s.remaining(t1) == s.remaining(t2),
{
}

/// Pausing at `t` and resuming at any later reading `u` leaves the time left in the step
/// as it was just before the pause.
pub proof fn pause_resume_keeps_remaining(s: EngineState, t: u64, u: u64)
    requires
        s.wf(),
        s.is_running(),
        s.paused_at is None,
        s.anchored_by(t),
        t <= u,
    ensures
        s.paused(t).resumed(u).remaining(u) == s.remaining(t),
        s.paused(t).resumed(u).paused_at is None,
        s.paused(t).resumed(u).session_elapsed(u) == s.session_elapsed(t),
{
}

/// A first step of duration `D` without check-in: started at `t0` and ticked at
/// `t0 + D + k`, the engine moves to the second step exactly once, and `k` has already
/// elapsed in it.
pub proof fn step_boundary_advances_once(routine: Routine, t0: u64, k: u64)
    requires
        valid_routine(routine),
        routine.steps@.len() >= 2,
        routine.steps@[0].check_in.mode == CheckInMode::Off,
        k < step_nanos(routine.steps@[1]),
        t0 + step_nanos(routine.steps@[0]) + k <= u64::MAX,
        routine.repeat_mode matches RepeatMode::Duration { total_seconds } ==> step_nanos(
            routine.steps@[0],
        ) + k < seconds_nanos(total_seconds),
    ensures
        ({
            let now = (t0 + step_nanos(routine.steps@[0]) + k) as u64;
            let (s, r) = EngineState::started(routine, t0).ticked(now);
            &&& r == (AdvanceResult::StepAdvanced { step_index: 1 })
            &&& s.current_step_index == 1
            &&& s.elapsed_in_step(now) == k
            &&& s.ticked(now).1 == AdvanceResult::NoChange
        }),
{
    let now = (t0 + step_nanos(routine.steps@[0]) + k) as u64;
    let s0 = EngineState::started(routine, t0);
    assert(s0.elapsed_in_step(now) == step_nanos(routine.steps@[0]) + k);
    assert(landing(s0.steps(), routine.repeat_mode, 0, k, 0, s0.session_elapsed(now))
        == (Landing::At { index: 1, overflow: k, cycles: 0 }));
}

/// Under `Count { n }`, in a routine without check-ins, completing the last step of the
/// `n`-th cycle ends the routine.
pub proof fn count_limit_completes(s: EngineState, now: u64)
    requires
        s.wf(),
        s.is_running(),
        s.paused_at is None,
        forall|i: int| 0 <= i < s.steps().len() ==> #[trigger] s.steps()[i].check_in.mode
            == CheckInMode::Off,
        s.routine->0.repeat_mode matches RepeatMode::Count { value } && s.cycles_completed + 1
            == value,
        s.current_step_index + 1 == s.steps().len(),
        s.elapsed_in_step(now) >= step_nanos(s.current_step()),
    ensures
        s.ticked(now) == (EngineState::idle(), AdvanceResult::RoutineCompleted),
{
}

/// Under `Count { n }`, in a routine without check-ins, completing the last step of an
/// earlier cycle wraps to the first step and counts the cycle.
pub proof fn count_below_limit_wraps(s: EngineState, now: u64)
    requires
        s.wf(),
        s.is_running(),
        s.paused_at is None,
        forall|i: int| 0 <= i < s.steps().len() ==> #[trigger] s.steps()[i].check_in.mode
            == CheckInMode::Off,
        s.routine->0.repeat_mode matches RepeatMode::Count { value } && s.cycles_completed + 1
            < value,
        s.current_step_index + 1 == s.steps().len(),
        step_nanos(s.current_step()) <= s.elapsed_in_step(now),
        s.elapsed_in_step(now) < step_nanos(s.current_step()) + step_nanos(s.steps()[0]),
    ensures
        s.ticked(now).1 == (AdvanceResult::StepAdvanced { step_index: 0 }),
        s.ticked(now).0.cycles_completed == s.cycles_completed + 1,
        s.ticked(now).0.is_running(),
{
}

/// Under `Duration { total }`, a tick once the session has run for `total` ends the
/// routine, wherever the current cycle stands.
pub proof fn duration_limit_completes(s: EngineState, now: u64)
    requires
        s.wf(),
        s.is_running(),
        s.paused_at is None,
        !s.gate_pending(),
        s.routine->0.repeat_mode matches RepeatMode::Duration { total_seconds } && s.session_elapsed(
            now,
        ) >= seconds_nanos(total_seconds),
    ensures
        s.ticked(now) == (EngineState::idle(), AdvanceResult::RoutineCompleted),
{
}

/// A blocking check-in that awaits its answer holds the engine: ticks change nothing.
pub proof fn gate_pending_blocks_ticks(s: EngineState, now: u64)
    requires
        s.wf(),
        s.is_running(),
        s.gate_pending(),
    ensures
        s.ticked(now) == (s, AdvanceResult::NoChange),
{
}

/// While the current step is gated, no tick ever moves past it.
pub proof fn gated_step_never_advances_on_tick(s: EngineState, now: u64)
    requires
        s.wf(),
        s.is_running(),
        s.current_step().check_in.mode == CheckInMode::Gate,
    ensures
        !(s.ticked(now).1 is StepAdvanced),
        s.ticked(now).0.is_running() ==> s.ticked(now).0.current_step_index
            == s.current_step_index,
{
}

/// When a gated step's time is up, the tick does not advance: it opens a blocking
/// check-in for that step and announces it.
pub proof fn gate_step_holds_at_boundary(s: EngineState, now: u64)
    requires
        s.wf(),
        s.is_running(),
        s.paused_at is None,
        !s.gate_pending(),
        !s.duration_limit_reached(now),
        s.current_step().check_in.mode == CheckInMode::Gate,
        s.elapsed_in_step(now) >= step_nanos(s.current_step()),
    ensures
        s.ticked(now).1 == AdvanceResult::NoChange,
        s.ticked(now).0.gate_pending(),
        s.ticked(now).0.pending_check_in->0.step_index == s.current_step_index,
        s.ticked(now).0.current_step_index == s.current_step_index,
        s.ticked(now).0.pending_check_in_event matches Some(e) && e.blocking && e.step_index
            == s.current_step_index,
{
}

/// Answering a blocking check-in releases the step: the engine moves on, and while it
/// still runs, the recorded answer carries the choice given.
pub proof fn gate_response_releases(s: EngineState, choice: CheckInChoice, now: u64)
    requires
        s.wf(),
        s.is_running(),
        s.gate_pending(),
    ensures
        s.answered(choice, now).1 != AdvanceResult::NoChange,
        s.answered(choice, now).0.is_running() ==> (s.answered(choice, now).0.last_check_in matches Some(
            c,
        ) && c.choice == Some(choice) && !c.timed_out && c.mode == CheckInMode::Gate),
        s.answered(choice, now).0.pending_check_in is None,
{
}

/// When a prompting step's time is up, the tick moves on at once (or ends the routine)
/// and, while the engine still runs, announces a non-blocking check-in for the step left.
pub proof fn prompt_step_advances_at_boundary(s: EngineState, now: u64)
    requires
        s.wf(),
        s.is_running(),
        s.paused_at is None,
        !s.prompt_expired(now).gate_pending(),
        !s.duration_limit_reached(now),
        s.current_step().check_in.mode == CheckInMode::Prompt,
        s.elapsed_in_step(now) >= step_nanos(s.current_step()),
    ensures
        s.ticked(now).1 != AdvanceResult::NoChange,
        s.ticked(now).0.is_running() ==> (s.ticked(now).0.pending_check_in_event matches Some(e)
            && !e.blocking && e.step_index == s.current_step_index),
        s.ticked(now).0.is_running() ==> (s.ticked(now).0.pending_check_in matches Some(p) && p.mode
            == CheckInMode::Prompt),
{
}

/// A prompt left unanswered for its timeout expires on the next tick: unless that tick
/// ends the routine (which clears everything), it reports the step the prompt belonged to
/// and records a timed-out result without a choice, whether or not the tick also
/// completes the current step.
pub proof fn prompt_expires_after_timeout(s: EngineState, now: u64)
    requires
        s.wf(),
        s.is_running(),
        s.paused_at is None,
        s.pending_check_in matches Some(p) && p.mode == CheckInMode::Prompt && (p.timeout matches Some(
            t,
        ) && sat_sub(now, p.requested_at) >= t),
    ensures
        s.ticked(now).1 != AdvanceResult::RoutineCompleted ==> s.ticked(now).0.pending_check_in_timeout
            == Some(s.pending_check_in->0.step_index) && s.ticked(now).0.last_check_in == Some(
            timed_out_result(),
        ),
        timed_out_result().timed_out && timed_out_result().choice is None
            && timed_out_result().response_time_ms is None,
{
}

/// A prompt whose timeout has not run out stays pending through a tick's expiry check.
pub proof fn prompt_not_yet_due_stays(s: EngineState, now: u64)
    requires
        s.pending_check_in matches Some(p) && p.mode == CheckInMode::Prompt && (p.timeout matches Some(
            t,
        ) && sat_sub(now, p.requested_at) < t),
    ensures
        s.prompt_expired(now) == s,
{
}

/// Starting at `now` anchors the engine by `now`.
pub proof fn started_is_anchored(routine: Routine, now: u64)
    ensures
        EngineState::started(routine, now).anchored_by(now),
{
}

/// Anchoring by a reading carries over to every later reading.
pub proof fn anchored_later(s: EngineState, t: u64, u: u64)
    requires
        s.anchored_by(t),
        t <= u,
    ensures
        s.anchored_by(u),
{
}

proof fn advanced_is_anchored(s: EngineState, index: int, overflow: u64, now: u64)
    requires
        s.is_running(),
        s.session_started_at + s.session_paused <= now,
    ensures
        s.advanced_from(index, overflow, now).0.anchored_by(now),
{
}

proof fn completed_is_anchored(s: EngineState, index: usize, overflow: u64, now: u64)
    requires
        s.wf(),
        s.is_running(),
        index < s.steps().len(),
        s.anchored_by(now),
        s.paused_at is None,
    ensures
        s.step_completed(index, overflow, now).0.anchored_by(now),
{
    let config = s.steps()[index as int].check_in;
    advanced_is_anchored(s, index as int, overflow, now);
    let t = EngineState {
        pending_check_in_event: Some(CheckInEvent { step_index: index, config, blocking: false }),
        ..s.prompt_replaced(index, now, timeout_nanos(config))
    };
    advanced_is_anchored(t, index as int, overflow, now);
}

/// A tick at a reading no earlier than the anchoring one keeps the engine anchored.
pub proof fn tick_keeps_anchored(s: EngineState, t: u64, now: u64)
    requires
        s.wf(),
        s.is_running(),
        s.anchored_by(t),
        t <= now,
    ensures
        s.ticked(now).0.anchored_by(now),
{
    if s.paused_at is None {
        let e = s.prompt_expired(now);
        if !e.gate_pending() && !e.duration_limit_reached(now) && e.elapsed_in_step(now)
            >= step_nanos(e.current_step()) {
            completed_is_anchored(
                e,
                e.current_step_index,
                (e.elapsed_in_step(now) - step_nanos(e.current_step())) as u64,
                now,
            );
        }
    }
}

/// Pausing, resuming, answering and skipping at a reading no earlier than the anchoring
/// one keep the engine anchored.
pub proof fn operations_keep_anchored(s: EngineState, choice: CheckInChoice, t: u64, now: u64)
    requires
        s.wf(),
        s.is_running(),
        s.anchored_by(t),
        t <= now,
    ensures
        s.paused_at is None ==> s.paused(now).anchored_by(now),
        s.paused_at is Some ==> s.resumed(now).anchored_by(now),
        s.pending_check_in is Some ==> s.answered(choice, now).0.anchored_by(now),
        s.skipped(now).0.anchored_by(now),
{
    let p = s.pending_check_in;
    if p is Some {
        let a = EngineState {
            pending_check_in: None,
            last_check_in: Some(
                CheckInResult {
                    mode: p->0.mode,
                    responded_at: None,
                    choice: Some(choice),
                    response_time_ms: Some(response_ms(p->0, now)),
                    timed_out: false,
                },
            ),
            pending_check_in_event: None,
            pending_check_in_timeout: None,
            ..s
        };
        advanced_is_anchored(a, p->0.step_index as int, 0, now);
        let b = EngineState {
            pending_check_in: None,
            last_check_in: Some(
                CheckInResult {
                    mode: p->0.mode,
                    responded_at: None,
                    choice: Some(CheckInChoice::Skip),
                    response_time_ms: Some(response_ms(p->0, now)),
                    timed_out: false,
                },
            ),
            pending_check_in_event: None,
            pending_check_in_timeout: None,
            ..s
        };
        advanced_is_anchored(b, p->0.step_index as int, 0, now);
    }
    let at = s.effective_now(now);
    let unpaused = EngineState { paused_at: None, ..s };
    completed_is_anchored(unpaused, s.current_step_index, 0, at);
}

} // verus!
