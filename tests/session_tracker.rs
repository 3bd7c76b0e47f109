use mccall::models::{
    CheckInChoice, CheckInConfig, CheckInMode, RepeatMode, Routine, SoundOverride, SoundScheme,
    SoundSetting, Step, StepRunResult,
};
use mccall::session_tracker::SessionTracker;

fn build_step(id: &str, duration: u32, count_as_break: bool, mode: CheckInMode) -> Step {
    Step {
        id: id.to_string(),
        order: 0,
        label: id.to_string(),
        duration_seconds: duration,
        instruction: "".to_string(),
        sound_override: SoundOverride::Inherit,
        count_as_break,
        check_in: CheckInConfig {
            mode,
            prompt_title: None,
            prompt_body: None,
            prompt_timeout_seconds: None,
        },
    }
}

fn build_routine(steps: Vec<Step>) -> Routine {
    Routine {
        id: "routine-1".to_string(),
        name: "Sample".to_string(),
        steps,
        repeat_mode: RepeatMode::Infinite,
        auto_advance: true,
        notifications: true,
        sound_default: SoundSetting::On,
        sound_scheme: SoundScheme::Default,
    }
}

#[test]
fn records_check_in_sound_and_totals() {
    let step1 = build_step("step-1", 60, false, CheckInMode::Prompt);
    let step2 = build_step("step-2", 30, true, CheckInMode::Off);
    let routine = build_routine(vec![step1.clone(), step2.clone()]);
    let mut tracker = SessionTracker::new();

    tracker.start_session(&routine, &step1, false);
    tracker.finalize_current_step(
        "step-1",
        StepRunResult::Completed,
        60,
        "2025-01-01T00:01:00Z".to_string(),
    );
    tracker.record_check_in_response(
        "step-1",
        CheckInChoice::Skip,
        Some("2025-01-01T00:01:05Z".to_string()),
        Some(1200),
    );
    tracker.start_step(&step2, true);
    tracker.finalize_current_step(
        "step-2",
        StepRunResult::Completed,
        30,
        "2025-01-01T00:01:30Z".to_string(),
    );
    tracker.mark_muted();

    let session = tracker.finish_session("2025-01-01T00:01:30Z".to_string()).expect("session");

    assert!(session.muted_during_session);
    assert_eq!(session.step_runs.len(), 2);
    assert!(!session.step_runs[0].sound_played);
    assert!(session.step_runs[1].sound_played);
    assert_eq!(session.totals.total_seconds, 90);
    assert_eq!(session.totals.work_seconds, 60);
    assert_eq!(session.totals.break_seconds, 30);
    assert_eq!(session.totals.check_in_done_count, 0);
    assert_eq!(session.totals.check_in_skip_count, 1);
    assert_eq!(session.totals.cycles_count, 1);
}

#[test]
fn records_prompt_timeout_as_skip() {
    let step = build_step("step-1", 10, false, CheckInMode::Prompt);
    let routine = build_routine(vec![step.clone()]);
    let mut tracker = SessionTracker::new();

    tracker.start_session(&routine, &step, false);
    tracker.finalize_current_step(
        "step-1",
        StepRunResult::Completed,
        10,
        "2025-01-01T00:00:10Z".to_string(),
    );
    tracker.record_check_in_timeout("step-1");

    let session = tracker.finish_session("2025-01-01T00:00:10Z".to_string()).expect("session");

    assert_eq!(session.totals.check_in_skip_count, 1);
    assert_eq!(session.totals.check_in_done_count, 0);
    assert_eq!(session.step_runs[0].check_in_result.as_ref().unwrap().timed_out, true);
}

#[test]
fn work_and_break_totals_of_two_completed_steps() {
    let work = build_step("work", 60, false, CheckInMode::Off);
    let rest = build_step("rest", 30, true, CheckInMode::Off);
    let routine = build_routine(vec![work.clone(), rest.clone()]);
    let mut tracker = SessionTracker::new();
    let id = tracker.start_session_at(
        &routine,
        &work,
        false,
        "session-a".to_string(),
        "2025-01-01T00:00:00Z".to_string(),
    );
    assert_eq!(id, "session-a");
    tracker.finalize_current_step("work", StepRunResult::Completed, 60, "t1".to_string());
    tracker.start_step_at(&rest, false, "t1".to_string());
    tracker.finalize_current_step("rest", StepRunResult::Completed, 30, "t2".to_string());
    let session = tracker.finish_session("t2".to_string()).expect("session");
    assert_eq!(session.totals.total_seconds, 90);
    assert_eq!(session.totals.work_seconds, 60);
    assert_eq!(session.totals.break_seconds, 30);
    assert_eq!(session.totals.cycles_count, 1);
    assert_eq!(session.step_runs[0].planned_duration_seconds, 60);
    assert_eq!(session.step_runs[1].started_at, "t1");
    assert!(tracker.finish_session("t3".to_string()).is_none());
}

#[test]
fn gate_answer_lands_on_latest_run_of_the_step() {
    let gate = build_step("gate", 5, false, CheckInMode::Gate);
    let other = build_step("other", 5, false, CheckInMode::Off);
    let routine = build_routine(vec![gate.clone(), other.clone()]);
    let mut tracker = SessionTracker::new();
    tracker.start_session_at(&routine, &gate, false, "s".to_string(), "t0".to_string());
    tracker.finalize_current_step("gate", StepRunResult::Completed, 5, "t1".to_string());
    tracker.start_step_at(&other, false, "t1".to_string());
    tracker.finalize_current_step("other", StepRunResult::Completed, 5, "t2".to_string());
    tracker.start_step_at(&gate, false, "t2".to_string());
    tracker.finalize_current_step("gate", StepRunResult::Completed, 5, "t3".to_string());
    tracker.record_check_in_response("gate", CheckInChoice::Done, None, Some(40));
    tracker.record_check_in_timeout("gate");
    let session = tracker.finish_session("t3".to_string()).expect("session");
    let first = session.step_runs[0].check_in_result.as_ref().expect("entry");
    assert_eq!(first.choice, None);
    assert!(!first.timed_out);
    let last = session.step_runs[2].check_in_result.as_ref().expect("entry");
    assert_eq!(last.choice, Some(CheckInChoice::Done));
    assert!(!last.timed_out);
    assert_eq!(last.response_time_ms, Some(40));
    assert_eq!(session.totals.check_in_done_count, 1);
    assert_eq!(session.totals.check_in_skip_count, 0);
    assert_eq!(session.totals.cycles_count, 1);
}

#[test]
fn late_finalize_for_another_step_is_ignored() {
    let a = build_step("a", 5, false, CheckInMode::Off);
    let b = build_step("b", 5, false, CheckInMode::Off);
    let routine = build_routine(vec![a.clone(), b.clone()]);
    let mut tracker = SessionTracker::new();
    tracker.start_session_at(&routine, &a, false, "s".to_string(), "t0".to_string());
    tracker.finalize_current_step("b", StepRunResult::Completed, 5, "t1".to_string());
    tracker.finalize_current_step("a", StepRunResult::Aborted, 2, "t1".to_string());
    let session = tracker.finish_session("t1".to_string()).expect("session");
    assert_eq!(session.step_runs.len(), 1);
    assert_eq!(session.step_runs[0].step_id, "a");
    assert_eq!(session.step_runs[0].result, StepRunResult::Aborted);
    assert!(session.step_runs[0].check_in_result.is_none());
    assert_eq!(session.totals.cycles_count, 0);
}
