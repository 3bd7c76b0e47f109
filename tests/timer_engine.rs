use mccall::models::{
    CheckInChoice, CheckInConfig, CheckInMode, RepeatMode, Routine, SoundOverride, SoundScheme,
    SoundSetting, Step,
};
use mccall::timer_engine::{AdvanceResult, TimerEngine, TimerError};

const SECOND: u64 = 1_000_000_000;
const MILLI: u64 = 1_000_000;
const T0: u64 = 1_000 * SECOND;

fn sample_step(id: &str, duration_seconds: u32) -> Step {
    Step {
        id: id.to_string(),
        order: 0,
        label: "Focus".to_string(),
        duration_seconds,
        instruction: "Do work".to_string(),
        sound_override: SoundOverride::Inherit,
        count_as_break: false,
        check_in: CheckInConfig {
            mode: CheckInMode::Off,
            prompt_title: None,
            prompt_body: None,
            prompt_timeout_seconds: None,
        },
    }
}

fn routine_with_steps(steps: Vec<Step>, repeat_mode: RepeatMode) -> Routine {
    Routine {
        id: "routine-1".to_string(),
        name: "Sample".to_string(),
        steps,
        repeat_mode,
        auto_advance: true,
        notifications: true,
        sound_default: SoundSetting::On,
        sound_scheme: SoundScheme::Default,
    }
}

fn sample_routine(duration_seconds: u32) -> Routine {
    routine_with_steps(vec![sample_step("step-1", duration_seconds)], RepeatMode::Infinite)
}

#[test]
fn start_pause_resume_flow() {
    let mut engine = TimerEngine::new();
    engine.start_routine_at(sample_routine(1), T0).expect("start routine");

    let initial = engine.remaining_time_at(T0).expect("remaining time");
    let after_tick = engine.remaining_time_at(T0 + 40 * MILLI).expect("remaining time");
    assert!(after_tick < initial);

    engine.pause_at(T0 + 40 * MILLI).expect("pause");
    let paused = engine.remaining_time_at(T0 + 40 * MILLI).expect("remaining time");
    let paused_again = engine.remaining_time_at(T0 + 80 * MILLI).expect("remaining time");
    assert_eq!(paused, paused_again);

    engine.resume_at(T0 + 80 * MILLI).expect("resume");
    let after_resume = engine.remaining_time_at(T0 + 120 * MILLI).expect("remaining time");
    assert!(after_resume < paused);
}

#[test]
fn stop_resets_running_state() {
    let mut engine = TimerEngine::new();
    engine.start_routine(sample_routine(1)).expect("start routine");
    engine.stop().expect("stop");
    assert!(!engine.is_running());
    assert!(matches!(engine.remaining_time(), Err(TimerError::NotRunning)));
}

#[test]
fn start_rejects_empty_routine() {
    let mut engine = TimerEngine::new();
    let mut routine = sample_routine(1);
    routine.steps.clear();
    let err = engine.start_routine(routine).expect_err("should fail");
    assert!(matches!(err, TimerError::InvalidRoutine(_)));
}

#[test]
fn advance_moves_to_next_step_with_overflow() {
    let steps = vec![sample_step("step-1", 60), sample_step("step-2", 60)];
    let routine = routine_with_steps(steps, RepeatMode::Infinite);
    let mut engine = TimerEngine::new();
    engine.start_routine_at(routine, T0).expect("start routine");

    let now = T0 + 90 * SECOND;
    let result = engine.advance_if_needed_at(now).expect("advance");
    assert!(matches!(result, AdvanceResult::StepAdvanced { step_index: 1 }));
    let remaining = engine.remaining_time_at(now).expect("remaining time");
    assert!(remaining < 60 * SECOND);
    assert!(remaining > 0);
}

#[test]
fn advance_repeats_infinite() {
    let routine = routine_with_steps(vec![sample_step("step-1", 30)], RepeatMode::Infinite);
    let mut engine = TimerEngine::new();
    engine.start_routine_at(routine, T0).expect("start routine");

    let result = engine.advance_if_needed_at(T0 + 40 * SECOND).expect("advance");
    assert!(matches!(result, AdvanceResult::StepAdvanced { step_index: 0 }));
    assert!(engine.is_running());
}

#[test]
fn advance_stops_after_count() {
    let routine =
        routine_with_steps(vec![sample_step("step-1", 30)], RepeatMode::Count { value: 1 });
    let mut engine = TimerEngine::new();
    engine.start_routine_at(routine, T0).expect("start routine");

    let result = engine.advance_if_needed_at(T0 + 40 * SECOND).expect("advance");
    assert!(matches!(result, AdvanceResult::RoutineCompleted));
    assert!(!engine.is_running());
}

#[test]
fn duration_repeat_stops_when_limit_exceeded() {
    let routine = routine_with_steps(
        vec![sample_step("step-1", 300)],
        RepeatMode::Duration { total_seconds: 60 },
    );
    let mut engine = TimerEngine::new();
    // The session started 120 s before the tick; its step only 10 s before it.
    engine.start_routine_at(routine, T0).expect("start routine");
    let result = engine.advance_if_needed_at(T0 + 120 * SECOND).expect("advance");
    assert!(matches!(result, AdvanceResult::RoutineCompleted));
    assert!(!engine.is_running());
}

#[test]
fn gate_check_in_blocks_progress() {
    let mut step = sample_step("step-1", 1);
    step.check_in.mode = CheckInMode::Gate;
    let steps = vec![step, sample_step("step-2", 60)];
    let routine = routine_with_steps(steps, RepeatMode::Infinite);
    let mut engine = TimerEngine::new();
    engine.start_routine_at(routine, T0).expect("start routine");

    let now = T0 + 2 * SECOND;
    let result = engine.advance_if_needed_at(now).expect("advance");
    assert!(matches!(result, AdvanceResult::NoChange));

    let event = engine.take_check_in_event().expect("check-in event");
    assert!(event.blocking);
    assert_eq!(event.step_index, 0);
    assert!(matches!(event.config.mode, CheckInMode::Gate));

    let result = engine.respond_to_check_in_at(CheckInChoice::Done, now).expect("respond");
    assert!(matches!(result, AdvanceResult::StepAdvanced { step_index: 1 }));
    assert_eq!(engine.current_step_index(), Some(1));
}

#[test]
fn prompt_check_in_does_not_block() {
    let mut step = sample_step("step-1", 1);
    step.check_in.mode = CheckInMode::Prompt;
    step.check_in.prompt_timeout_seconds = Some(10);
    let steps = vec![step, sample_step("step-2", 60)];
    let routine = routine_with_steps(steps, RepeatMode::Infinite);
    let mut engine = TimerEngine::new();
    engine.start_routine_at(routine, T0).expect("start routine");

    let now = T0 + 2 * SECOND;
    let result = engine.advance_if_needed_at(now).expect("advance");
    assert!(matches!(result, AdvanceResult::StepAdvanced { step_index: 1 }));

    let event = engine.take_check_in_event().expect("check-in event");
    assert!(!event.blocking);
    assert_eq!(event.step_index, 0);
    assert!(matches!(event.config.mode, CheckInMode::Prompt));

    let result = engine.respond_to_check_in_at(CheckInChoice::Skip, now).expect("respond");
    assert!(matches!(result, AdvanceResult::NoChange));
    let last = engine.last_check_in_result().expect("last check-in");
    assert!(matches!(last.choice, Some(CheckInChoice::Skip)));
    assert!(!last.timed_out);
}

#[test]
fn prompt_times_out() {
    let mut step = sample_step("step-1", 1);
    step.check_in.mode = CheckInMode::Prompt;
    step.check_in.prompt_timeout_seconds = Some(1);
    let steps = vec![step, sample_step("step-2", 60)];
    let routine = routine_with_steps(steps, RepeatMode::Infinite);
    let mut engine = TimerEngine::new();
    engine.start_routine_at(routine, T0).expect("start routine");

    let _ = engine.advance_if_needed_at(T0 + 2 * SECOND).expect("advance");
    // The prompt was requested 2 s before this tick.
    let _ = engine.advance_if_needed_at(T0 + 4 * SECOND).expect("advance");
    let last = engine.last_check_in_result().expect("last check-in");
    assert!(last.timed_out);
    assert!(last.choice.is_none());
    assert_eq!(engine.take_check_in_timeout(), Some(0));
    assert_eq!(engine.take_check_in_timeout(), None);
}

#[test]
fn skip_advances_to_next_step() {
    let steps = vec![sample_step("step-1", 60), sample_step("step-2", 60)];
    let routine = routine_with_steps(steps, RepeatMode::Infinite);
    let mut engine = TimerEngine::new();
    engine.start_routine(routine).expect("start routine");

    let result = engine.skip_current_step().expect("skip step");
    assert!(matches!(result, AdvanceResult::StepAdvanced { step_index: 1 }));
    assert_eq!(engine.current_step_index(), Some(1));
}

#[test]
fn skip_keeps_pause_state() {
    let steps = vec![sample_step("step-1", 60), sample_step("step-2", 60)];
    let routine = routine_with_steps(steps, RepeatMode::Infinite);
    let mut engine = TimerEngine::new();
    engine.start_routine(routine).expect("start routine");
    engine.pause().expect("pause");

    let result = engine.skip_current_step().expect("skip step");
    assert!(matches!(result, AdvanceResult::StepAdvanced { step_index: 1 }));
    assert!(engine.is_paused());
}

#[test]
fn remaining_decreases_then_freezes_when_paused() {
    let mut engine = TimerEngine::new();
    engine.start_routine_at(sample_routine(10), T0).expect("start");
    assert_eq!(engine.remaining_time_at(T0 + SECOND), Ok(9 * SECOND));
    assert_eq!(engine.remaining_time_at(T0 + 3 * SECOND), Ok(7 * SECOND));
    engine.pause_at(T0 + 4 * SECOND).expect("pause");
    assert_eq!(engine.remaining_time_at(T0 + 5 * SECOND), Ok(6 * SECOND));
    assert_eq!(engine.remaining_time_at(T0 + 500 * SECOND), Ok(6 * SECOND));
}

#[test]
fn pause_then_resume_keeps_remaining() {
    let mut engine = TimerEngine::new();
    engine.start_routine_at(sample_routine(10), T0).expect("start");
    let before = engine.remaining_time_at(T0 + 3 * SECOND).expect("remaining");
    engine.pause_at(T0 + 3 * SECOND).expect("pause");
    engine.resume_at(T0 + 3 * SECOND + 250 * SECOND).expect("resume");
    let after = engine.remaining_time_at(T0 + 3 * SECOND + 250 * SECOND).expect("remaining");
    assert_eq!(before, after);
    assert_eq!(engine.pause_at(T0 + 300 * SECOND), Ok(()));
    assert_eq!(engine.pause_at(T0 + 301 * SECOND), Err(TimerError::AlreadyPaused));
}

#[test]
fn boundary_tick_carries_overflow_into_next_step() {
    let steps = vec![sample_step("a", 30), sample_step("b", 20)];
    let mut engine = TimerEngine::new();
    engine
        .start_routine_at(routine_with_steps(steps, RepeatMode::Infinite), T0)
        .expect("start");
    let now = T0 + 30 * SECOND + 7 * SECOND;
    assert_eq!(
        engine.advance_if_needed_at(now),
        Ok(AdvanceResult::StepAdvanced { step_index: 1 })
    );
    assert_eq!(engine.remaining_time_at(now), Ok(13 * SECOND));
    assert_eq!(engine.advance_if_needed_at(now), Ok(AdvanceResult::NoChange));
}

#[test]
fn late_tick_consumes_whole_steps() {
    let steps = vec![sample_step("a", 10), sample_step("b", 5), sample_step("c", 20)];
    let mut engine = TimerEngine::new();
    engine
        .start_routine_at(routine_with_steps(steps, RepeatMode::Infinite), T0)
        .expect("start");
    let now = T0 + 17 * SECOND;
    assert_eq!(
        engine.advance_if_needed_at(now),
        Ok(AdvanceResult::StepAdvanced { step_index: 2 })
    );
    assert_eq!(engine.remaining_time_at(now), Ok(18 * SECOND));
}

#[test]
fn count_two_completes_after_second_cycle() {
    let steps = vec![sample_step("a", 10), sample_step("b", 10)];
    let mut engine = TimerEngine::new();
    engine
        .start_routine_at(routine_with_steps(steps, RepeatMode::Count { value: 2 }), T0)
        .expect("start");
    let mut t = T0;
    let mut results = Vec::new();
    for _ in 0..4 {
        t += 10 * SECOND;
        results.push(engine.advance_if_needed_at(t).expect("advance"));
    }
    assert_eq!(
        results,
        vec![
            AdvanceResult::StepAdvanced { step_index: 1 },
            AdvanceResult::StepAdvanced { step_index: 0 },
            AdvanceResult::StepAdvanced { step_index: 1 },
            AdvanceResult::RoutineCompleted,
        ]
    );
    assert!(!engine.is_running());
}

#[test]
fn duration_limit_ends_an_incomplete_cycle() {
    let steps = vec![sample_step("a", 40), sample_step("b", 40)];
    let mut engine = TimerEngine::new();
    engine
        .start_routine_at(
            routine_with_steps(steps, RepeatMode::Duration { total_seconds: 50 }),
            T0,
        )
        .expect("start");
    assert_eq!(
        engine.advance_if_needed_at(T0 + 40 * SECOND),
        Ok(AdvanceResult::StepAdvanced { step_index: 1 })
    );
    assert_eq!(
        engine.advance_if_needed_at(T0 + 50 * SECOND),
        Ok(AdvanceResult::RoutineCompleted)
    );
}

#[test]
fn gate_holds_until_skip() {
    let mut step = sample_step("a", 5);
    step.check_in.mode = CheckInMode::Gate;
    let mut engine = TimerEngine::new();
    engine
        .start_routine_at(
            routine_with_steps(vec![step, sample_step("b", 5)], RepeatMode::Infinite),
            T0,
        )
        .expect("start");
    for k in 5..20u64 {
        assert_eq!(engine.advance_if_needed_at(T0 + k * SECOND), Ok(AdvanceResult::NoChange));
    }
    assert_eq!(engine.current_step_index(), Some(0));
    assert_eq!(
        engine.skip_current_step_at(T0 + 20 * SECOND),
        Ok(AdvanceResult::StepAdvanced { step_index: 1 })
    );
    let last = engine.last_check_in_result().expect("answer");
    assert_eq!(last.choice, Some(CheckInChoice::Skip));
    assert_eq!(last.response_time_ms, Some(15_000));
}

#[test]
fn respond_without_pending_check_in_fails() {
    let mut engine = TimerEngine::new();
    assert_eq!(
        engine.respond_to_check_in_at(CheckInChoice::Done, T0),
        Err(TimerError::NotRunning)
    );
    engine.start_routine_at(sample_routine(5), T0).expect("start");
    assert_eq!(
        engine.respond_to_check_in_at(CheckInChoice::Done, T0),
        Err(TimerError::InvalidRoutine("no check-in awaiting response".to_string()))
    );
}

#[test]
fn start_reports_each_invalid_routine() {
    let mut engine = TimerEngine::new();
    assert_eq!(
        engine.start_routine_at(sample_routine(0), T0),
        Err(TimerError::InvalidRoutine("step duration must be at least 1 second".to_string()))
    );
    let counted = routine_with_steps(vec![sample_step("a", 1)], RepeatMode::Count { value: 0 });
    assert_eq!(
        engine.start_routine_at(counted, T0),
        Err(TimerError::InvalidRoutine("repeat count must be at least 1".to_string()))
    );
    let timed =
        routine_with_steps(vec![sample_step("a", 1)], RepeatMode::Duration { total_seconds: 0 });
    assert_eq!(
        engine.start_routine_at(timed, T0),
        Err(TimerError::InvalidRoutine("repeat duration must be at least 1 second".to_string()))
    );
    let empty = routine_with_steps(Vec::new(), RepeatMode::Infinite);
    assert_eq!(
        engine.start_routine_at(empty, T0),
        Err(TimerError::InvalidRoutine("routine must have at least one step".to_string()))
    );
    engine.start_routine_at(sample_routine(1), T0).expect("start");
    assert_eq!(engine.start_routine_at(sample_routine(1), T0), Err(TimerError::AlreadyRunning));
}

#[test]
fn state_errors_when_idle() {
    let mut engine = TimerEngine::new();
    assert_eq!(engine.pause_at(T0), Err(TimerError::NotRunning));
    assert_eq!(engine.resume_at(T0), Err(TimerError::NotRunning));
    assert_eq!(engine.stop(), Err(TimerError::NotRunning));
    assert_eq!(engine.advance_if_needed_at(T0), Err(TimerError::NotRunning));
    assert_eq!(engine.skip_current_step_at(T0), Err(TimerError::NotRunning));
    engine.start_routine_at(sample_routine(1), T0).expect("start");
    assert_eq!(engine.resume_at(T0), Err(TimerError::NotPaused));
    assert_eq!(TimerError::NotPaused.message(), "Timer not paused");
    assert_eq!(
        TimerError::InvalidRoutine("x".to_string()).message(),
        "Invalid routine: x"
    );
}

#[test]
fn skipping_a_gated_step_opens_its_check_in() {
    let mut gate = sample_step("a", 60);
    gate.check_in.mode = CheckInMode::Gate;
    let mut engine = TimerEngine::new();
    engine
        .start_routine_at(routine_with_steps(vec![gate, sample_step("b", 60)], RepeatMode::Infinite), T0)
        .expect("start");
    assert_eq!(engine.skip_current_step_at(T0 + SECOND), Ok(AdvanceResult::NoChange));
    assert_eq!(engine.current_step_index(), Some(0));
    assert_eq!(engine.pending_check_in(), Some((CheckInMode::Gate, 0)));
    let event = engine.take_check_in_event().expect("event");
    assert!(event.blocking);
    assert_eq!(event.step_index, 0);
    assert_eq!(engine.advance_if_needed_at(T0 + 100 * SECOND), Ok(AdvanceResult::NoChange));
    assert_eq!(
        engine.skip_current_step_at(T0 + 3 * SECOND),
        Ok(AdvanceResult::StepAdvanced { step_index: 1 })
    );
    assert_eq!(engine.last_check_in_result().expect("answer").choice, Some(CheckInChoice::Skip));
}

#[test]
fn skipping_a_prompting_step_advances_and_prompts() {
    let mut prompt = sample_step("a", 60);
    prompt.check_in.mode = CheckInMode::Prompt;
    prompt.check_in.prompt_timeout_seconds = Some(5);
    let mut engine = TimerEngine::new();
    engine
        .start_routine_at(routine_with_steps(vec![prompt, sample_step("b", 60)], RepeatMode::Infinite), T0)
        .expect("start");
    engine.pause_at(T0 + SECOND).expect("pause");
    assert_eq!(
        engine.skip_current_step_at(T0 + 2 * SECOND),
        Ok(AdvanceResult::StepAdvanced { step_index: 1 })
    );
    assert!(engine.is_paused());
    assert_eq!(engine.remaining_time_at(T0 + 50 * SECOND), Ok(60 * SECOND));
    assert_eq!(engine.pending_check_in(), Some((CheckInMode::Prompt, 0)));
    let event = engine.take_check_in_event().expect("event");
    assert!(!event.blocking);
    assert_eq!(event.step_index, 0);
}
