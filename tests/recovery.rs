use mccall::clock::{duration_seconds_between, whole_seconds_between};
use mccall::models::{
    CheckInConfig, CheckInMode, RepeatMode, Routine, SoundOverride, SoundScheme, SoundSetting,
    Step, StepRunResult,
};
use mccall::recovery::{
    mark_muted, mark_paused_at, mark_resumed, recover_aborted_session, recover_aborted_session_at,
    start_active_session, start_active_session_at, update_active_step_at,
};

fn step(id: &str, duration: u32, count_as_break: bool) -> Step {
    Step {
        id: id.to_string(),
        order: 0,
        label: id.to_string(),
        duration_seconds: duration,
        instruction: String::new(),
        sound_override: SoundOverride::Inherit,
        count_as_break,
        check_in: CheckInConfig {
            mode: CheckInMode::Off,
            prompt_title: None,
            prompt_body: None,
            prompt_timeout_seconds: None,
        },
    }
}

fn routine() -> Routine {
    Routine {
        id: "routine-1".to_string(),
        name: "Sample".to_string(),
        steps: vec![step("work", 1500, false), step("rest", 300, true)],
        repeat_mode: RepeatMode::Infinite,
        auto_advance: true,
        notifications: true,
        sound_default: SoundSetting::On,
        sound_scheme: SoundScheme::Default,
    }
}

#[test]
fn recovers_aborted_session_and_clears_snapshot() {
    let routines = vec![routine()];
    let routine = routines.first().expect("routine exists");
    let step = routine.steps.first().expect("step exists");

    let snapshot = start_active_session(&routine.id, step, false);
    let recovered = recover_aborted_session(Some(snapshot), &routines).expect("session saved");

    assert_eq!(recovered.routine_id, routine.id);
    assert!(recovered.ended_at.is_some());
    assert_eq!(recovered.step_runs.len(), 1);
    assert!(matches!(recovered.step_runs[0].result, StepRunResult::Aborted));
    assert!(recover_aborted_session(None, &routines).is_none());
}

#[test]
fn recovery_clamps_the_last_step_to_the_session() {
    let routines = vec![routine()];
    let rest = step("rest", 300, true);
    let snapshot = start_active_session_at(
        "routine-1",
        &routines[0].steps[0],
        false,
        "session-x".to_string(),
        "2025-01-01T10:00:00Z".to_string(),
    );
    let snapshot =
        update_active_step_at(Some(snapshot), &rest, true, "2025-01-01T10:25:00Z".to_string())
            .expect("snapshot");
    let session = recover_aborted_session_at(
        Some(snapshot.clone()),
        &routines,
        "2025-01-01T10:27:30Z".to_string(),
    )
    .expect("session");
    assert_eq!(session.id, "session-x");
    assert_eq!(session.ended_at.as_deref(), Some("2025-01-01T10:27:30Z"));
    let run = &session.step_runs[0];
    assert_eq!(run.step_id, "rest");
    assert_eq!(run.actual_duration_seconds, 150);
    assert_eq!(run.planned_duration_seconds, 300);
    assert!(run.sound_played);
    assert_eq!(run.result, StepRunResult::Aborted);
    assert_eq!(session.totals.total_seconds, 1650);
    assert_eq!(session.totals.break_seconds, 150);
    assert_eq!(session.totals.work_seconds, 1500);

    // A step start recorded after the session's end of the clock counts no more than the
    // session itself.
    let mut skewed = snapshot;
    skewed.current_step_started_at = "2025-01-01T09:00:00Z".to_string();
    let session =
        recover_aborted_session_at(Some(skewed), &routines, "2025-01-01T10:00:40Z".to_string())
            .expect("session");
    assert_eq!(session.step_runs[0].actual_duration_seconds, 40);
    assert_eq!(session.totals.total_seconds, 40);
}

#[test]
fn recovery_ends_a_paused_session_at_its_pause() {
    let routines: Vec<Routine> = Vec::new();
    let snapshot = start_active_session_at(
        "gone",
        &step("work", 60, false),
        true,
        "s".to_string(),
        "2025-01-01T10:00:00+02:00".to_string(),
    );
    let paused = mark_paused_at(Some(snapshot), "2025-01-01T08:00:45Z".to_string()).expect("paused");
    assert!(mark_paused_at(Some(paused.clone()), "later".to_string()).is_none());
    let session =
        recover_aborted_session_at(Some(paused.clone()), &routines, "2030-01-01T00:00:00Z".to_string())
            .expect("session");
    assert_eq!(session.ended_at.as_deref(), Some("2025-01-01T08:00:45Z"));
    assert_eq!(session.step_runs[0].actual_duration_seconds, 45);
    assert_eq!(session.step_runs[0].planned_duration_seconds, 0);
    assert_eq!(session.totals.work_seconds, 45);
    assert!(session.muted_during_session);
    let resumed = mark_resumed(Some(paused)).expect("resumed");
    assert!(resumed.paused_at.is_none());
    assert!(mark_resumed(Some(resumed.clone())).is_none());
    assert!(mark_muted(Some(resumed)).is_none());
}

#[test]
fn seconds_between_rfc3339_texts() {
    assert_eq!(
        duration_seconds_between("2025-01-01T00:00:00Z", "2025-01-01T00:01:30.5Z"),
        Some(90)
    );
    assert_eq!(duration_seconds_between("2025-01-01T00:01:00Z", "2025-01-01T00:00:00Z"), Some(0));
    assert_eq!(duration_seconds_between("not-a-date", "2025-01-01T00:00:00Z"), None);
    assert_eq!(whole_seconds_between((10, 500_000_000), (11, 400_000_000)), 0);
    assert_eq!(whole_seconds_between((0, 0), (i64::MAX / 2, 0)), u32::MAX);
}
