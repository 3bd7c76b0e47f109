use mccall::models::{
    CheckInChoice, CheckInConfig, CheckInMode, RepeatMode, Routine, SoundOverride, SoundScheme,
    SoundSetting, Step, StepRunResult,
};
use mccall::session_flow::{record_response, record_skip, record_stop, record_tick};
use mccall::session_tracker::SessionTracker;
use mccall::timer_engine::{AdvanceResult, TimerEngine};
use mccall::transitions::{capture_advance_events, final_step_result, seconds_spent};
use mccall::tray_title::whole_seconds;

const SECOND: u64 = 1_000_000_000;
const T0: u64 = 500 * SECOND;

fn step(id: &str, duration: u32, mode: CheckInMode, count_as_break: bool) -> Step {
    Step {
        id: id.to_string(),
        order: 0,
        label: id.to_string(),
        duration_seconds: duration,
        instruction: String::new(),
        sound_override: SoundOverride::Inherit,
        count_as_break,
        check_in: CheckInConfig {
            mode,
            prompt_title: None,
            prompt_body: None,
            prompt_timeout_seconds: None,
        },
    }
}

fn routine(steps: Vec<Step>, repeat_mode: RepeatMode) -> Routine {
    Routine {
        id: "r".to_string(),
        name: "r".to_string(),
        steps,
        repeat_mode,
        auto_advance: true,
        notifications: true,
        sound_default: SoundSetting::On,
        sound_scheme: SoundScheme::Default,
    }
}

/// One heartbeat of engine and tracker at clock reading `now`.
fn tick(engine: &mut TimerEngine, tracker: &mut SessionTracker, now: u64, stamp: &str) -> Option<mccall::models::Session> {
    let previous = engine.current_step().cloned();
    let previous_remaining = engine.remaining_time_at(now).ok().map(whole_seconds);
    let result = engine.advance_if_needed_at(now).expect("running");
    let (entered, completed) = capture_advance_events(engine, &result);
    let event = engine.take_check_in_event();
    let gate_step = event
        .filter(|e| e.blocking)
        .and_then(|e| engine.step_at(e.step_index).cloned());
    let timed_out = engine
        .take_check_in_timeout()
        .and_then(|i| engine.step_at(i).map(|s| s.id.clone()));
    record_tick(
        tracker,
        previous.as_ref(),
        previous_remaining,
        gate_step.as_ref(),
        entered.as_ref().map(|(s, _)| s),
        false,
        timed_out.as_deref(),
        completed,
        stamp.to_string(),
    )
}

#[test]
fn gated_cycle_records_the_answer_and_the_totals() {
    let gate = step("gate", 10, CheckInMode::Gate, false);
    let rest = step("rest", 5, CheckInMode::Off, true);
    let routine = routine(vec![gate.clone(), rest.clone()], RepeatMode::Count { value: 1 });
    let mut engine = TimerEngine::new();
    let mut tracker = SessionTracker::new();
    engine.start_routine_at(routine.clone(), T0).expect("start");
    tracker.start_session_at(&routine, &gate, false, "s".to_string(), "t0".to_string());

    assert!(tick(&mut engine, &mut tracker, T0 + 10 * SECOND, "t10").is_none());
    assert_eq!(engine.current_step_index(), Some(0));

    let result = engine.respond_to_check_in_at(CheckInChoice::Done, T0 + 12 * SECOND).expect("answer");
    assert_eq!(result, AdvanceResult::StepAdvanced { step_index: 1 });
    let (entered, completed) = capture_advance_events(&engine, &result);
    assert!(record_response(
        &mut tracker,
        "gate",
        CheckInChoice::Done,
        Some("t12".to_string()),
        Some(2000),
        entered.as_ref().map(|(s, _)| s),
        false,
        completed,
        "t12".to_string(),
    )
    .is_none());

    let session = tick(&mut engine, &mut tracker, T0 + 17 * SECOND, "t17").expect("completed");
    assert!(!engine.is_running());
    assert_eq!(session.step_runs.len(), 2);
    assert_eq!(session.step_runs[0].step_id, "gate");
    let answer = session.step_runs[0].check_in_result.as_ref().expect("answer");
    assert_eq!(answer.choice, Some(CheckInChoice::Done));
    assert_eq!(session.step_runs[1].result, StepRunResult::Completed);
    assert_eq!(session.totals.total_seconds, 15);
    assert_eq!(session.totals.work_seconds, 10);
    assert_eq!(session.totals.break_seconds, 5);
    assert_eq!(session.totals.cycles_count, 1);
    assert_eq!(session.totals.check_in_done_count, 1);
}

#[test]
fn skip_and_stop_close_runs_with_time_spent() {
    let a = step("a", 60, CheckInMode::Off, false);
    let b = step("b", 30, CheckInMode::Off, false);
    let routine = routine(vec![a.clone(), b.clone()], RepeatMode::Infinite);
    let mut engine = TimerEngine::new();
    let mut tracker = SessionTracker::new();
    engine.start_routine_at(routine.clone(), T0).expect("start");
    tracker.start_session_at(&routine, &a, false, "s".to_string(), "t0".to_string());

    let now = T0 + 20 * SECOND;
    let remaining = whole_seconds(engine.remaining_time_at(now).expect("remaining"));
    let current = engine.current_step().cloned();
    let result = engine.skip_current_step_at(now).expect("skip");
    let (entered, completed) = capture_advance_events(&engine, &result);
    assert!(record_skip(
        &mut tracker,
        current.as_ref(),
        remaining,
        false,
        None,
        entered.as_ref().map(|(s, _)| s),
        true,
        completed,
        "t20".to_string(),
    )
    .is_none());

    let later = T0 + 30 * SECOND;
    let remaining = whole_seconds(engine.remaining_time_at(later).expect("remaining"));
    let current = engine.current_step().cloned();
    engine.stop().expect("stop");
    let session = record_stop(&mut tracker, current.as_ref(), remaining, "t30".to_string())
        .expect("session");
    assert_eq!(session.step_runs.len(), 2);
    assert_eq!(session.step_runs[0].result, StepRunResult::Skipped);
    assert_eq!(session.step_runs[0].actual_duration_seconds, 20);
    assert_eq!(session.step_runs[1].result, StepRunResult::Aborted);
    assert_eq!(session.step_runs[1].actual_duration_seconds, 10);
    assert!(session.step_runs[1].sound_played);
    assert_eq!(session.totals.total_seconds, 30);
    assert_eq!(session.totals.cycles_count, 0);
}

#[test]
fn run_outcome_helpers() {
    assert_eq!(seconds_spent(60, 15), 45);
    assert_eq!(seconds_spent(10, 15), 0);
    assert_eq!(final_step_result(3), StepRunResult::Aborted);
    assert_eq!(final_step_result(0), StepRunResult::Completed);
    assert_eq!(whole_seconds(2_999_999_999), 2);
}

#[test]
fn skipping_a_gated_step_closes_it_awaiting_the_answer() {
    let gate = step("gate", 10, CheckInMode::Gate, false);
    let next = step("next", 10, CheckInMode::Off, false);
    let routine = routine(vec![gate.clone(), next.clone()], RepeatMode::Infinite);
    let mut engine = TimerEngine::new();
    let mut tracker = SessionTracker::new();
    engine.start_routine_at(routine.clone(), T0).expect("start");
    tracker.start_session_at(&routine, &gate, false, "s".to_string(), "t0".to_string());

    let current = engine.current_step().cloned();
    let result = engine.skip_current_step_at(T0 + 4 * SECOND).expect("skip");
    assert_eq!(result, AdvanceResult::NoChange);
    let gate_step = engine
        .take_check_in_event()
        .filter(|e| e.blocking)
        .and_then(|e| engine.step_at(e.step_index).cloned());
    let (entered, completed) = capture_advance_events(&engine, &result);
    assert!(record_skip(
        &mut tracker,
        current.as_ref(),
        6,
        false,
        gate_step.as_ref(),
        entered.as_ref().map(|(s, _)| s),
        false,
        completed,
        "t4".to_string(),
    )
    .is_none());

    let result = engine.respond_to_check_in_at(CheckInChoice::Skip, T0 + 6 * SECOND).expect("answer");
    assert_eq!(result, AdvanceResult::StepAdvanced { step_index: 1 });
    let (entered, completed) = capture_advance_events(&engine, &result);
    record_response(
        &mut tracker,
        "gate",
        CheckInChoice::Skip,
        None,
        None,
        entered.as_ref().map(|(s, _)| s),
        false,
        completed,
        "t6".to_string(),
    );
    engine.stop().expect("stop");
    let session = record_stop(&mut tracker, Some(&next), 10, "t6".to_string()).expect("session");
    assert_eq!(session.step_runs.len(), 2);
    assert_eq!(session.step_runs[0].result, StepRunResult::Completed);
    let answer = session.step_runs[0].check_in_result.as_ref().expect("answer");
    assert_eq!(answer.choice, Some(CheckInChoice::Skip));
    assert_eq!(session.totals.check_in_skip_count, 1);
}
