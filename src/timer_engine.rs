//! The routine execution engine: step sequencing, pause and resume time accounting,
//! repeat policies and check-in gating.
//!
//! All times are nanoseconds of a monotonic clock. Every operation comes in two forms:
//! `*_at(now)` takes the clock reading and is specified exactly over [`EngineState`];
//! the plain form reads the engine's own clock and then does the same.

use vstd::prelude::*;

use crate::clock::{MonotonicClock, NANOS_PER_MILLI, NANOS_PER_SECOND};
use crate::models::{
    CheckInChoice, CheckInConfig, CheckInMode, CheckInResult, RepeatMode, Routine, Step,
};
use crate::text::owned;

verus! {

#[derive(Debug, Clone, PartialEq, Eq)]
pub enum TimerError {
    AlreadyRunning,
    NotRunning,
    AlreadyPaused,
    NotPaused,
    InvalidRoutine(String),
}

#[derive(Debug, Clone, Copy, PartialEq, Eq, Structural)]
pub enum AdvanceResult {
    NoChange,
    StepAdvanced { step_index: usize },
    RoutineCompleted,
}

/// A one-shot notice that a step asks for a check-in.
#[derive(Debug, Clone)]
pub struct CheckInEvent {
    pub step_index: usize,
    pub config: CheckInConfig,
    pub blocking: bool,
}

/// The single check-in that awaits an answer.
#[derive(Debug, Clone, Copy, PartialEq, Eq, Structural)]
pub struct PendingCheckIn {
    pub mode: CheckInMode,
    pub step_index: usize,
    pub requested_at: u64,
    pub timeout: Option<u64>,
}

/// Everything the engine knows, as plain values.
#[derive(Debug, Clone)]
pub struct EngineState {
    pub routine: Option<Routine>,
    pub current_step_index: usize,
    pub step_started_at: u64,
    pub session_started_at: u64,
    pub paused_at: Option<u64>,
    pub step_paused: u64,
    pub session_paused: u64,
    pub cycles_completed: u32,
    pub pending_check_in: Option<PendingCheckIn>,
    pub pending_check_in_event: Option<CheckInEvent>,
    pub pending_check_in_timeout: Option<usize>,
    pub last_check_in: Option<CheckInResult>,
}

/// Where a run of consecutive step completions comes to rest.
pub enum Landing {
    Finished,
    At { index: usize, overflow: u64, cycles: u32 },
}

pub open spec fn sat_sub(a: u64, b: u64) -> u64 {
    if a >= b {
        (a - b) as u64
    } else {
        0
    }
}

pub open spec fn sat_add(a: u64, b: u64) -> u64 {
    if a + b <= u64::MAX {
        (a + b) as u64
    } else {
        u64::MAX
    }
}

pub open spec fn seconds_nanos(s: u32) -> u64 {
    (s as int * 1_000_000_000) as u64
}

pub open spec fn step_nanos(step: Step) -> u64 {
    seconds_nanos(step.duration_seconds)
}

pub open spec fn timeout_nanos(config: CheckInConfig) -> Option<u64> {
    match config.prompt_timeout_seconds {
        Some(s) => Some(seconds_nanos(s)),
        None => None,
    }
}

/// Why a routine cannot run, or `None` when it can.
pub open spec fn routine_error(r: Routine) -> Option<Seq<char>> {
    if r.steps@.len() == 0 {
        Some("routine must have at least one step"@)
    } else if exists|i: int| 0 <= i < r.steps@.len() && r.steps@[i].duration_seconds == 0 {
        Some("step duration must be at least 1 second"@)
    } else {
        match r.repeat_mode {
            RepeatMode::Count { value } => if value == 0 {
                Some("repeat count must be at least 1"@)
            } else {
                None
            },
            RepeatMode::Duration { total_seconds } => if total_seconds == 0 {
                Some("repeat duration must be at least 1 second"@)
            } else {
                None
            },
            RepeatMode::Infinite => None,
        }
    }
}

pub open spec fn valid_routine(r: Routine) -> bool {
    routine_error(r) is None
}

pub open spec fn is_invalid_routine<T>(r: Result<T, TimerError>, reason: Seq<char>) -> bool {
    match r {
        Err(TimerError::InvalidRoutine(m)) => m@ == reason,
        _ => false,
    }
}

pub open spec fn wrapped_cycles(c: u32) -> u32 {
    if c < u32::MAX {
        (c + 1) as u32
    } else {
        c
    }
}

/// Whether the repeat policy ends the routine at a wrap, with `cycles` completed.
pub open spec fn repeat_stops(mode: RepeatMode, cycles: u32, session_elapsed: u64) -> bool {
    match mode {
        RepeatMode::Infinite => false,
        RepeatMode::Count { value } => cycles >= value,
        RepeatMode::Duration { total_seconds } => session_elapsed >= seconds_nanos(total_seconds),
    }
}

/// Leaving step `index` with `overflow` nanoseconds already spent past its end: move on,
/// wrapping under the repeat policy, and keep consuming whole steps while the overflow
/// covers them. (A step of zero length, which no valid routine has, ends the consumption.)
pub open spec fn landing(
    steps: Seq<Step>,
    mode: RepeatMode,
    index: int,
    overflow: u64,
    cycles: u32,
    session_elapsed: u64,
) -> Landing
    decreases overflow,
{
    let wraps = index + 1 >= steps.len();
    let next: int = if wraps {
        0
    } else {
        index + 1
    };
    let c = if wraps {
        wrapped_cycles(cycles)
    } else {
        cycles
    };
    if wraps && repeat_stops(mode, c, session_elapsed) {
        Landing::Finished
    } else {
        let d = step_nanos(steps[next]);
        if overflow < d || d == 0 {
            Landing::At { index: next as usize, overflow, cycles: c }
        } else {
            landing(steps, mode, next, (overflow - d) as u64, c, session_elapsed)
        }
    }
}

pub open spec fn timed_out_result() -> CheckInResult {
    CheckInResult {
        mode: CheckInMode::Prompt,
        responded_at: None,
        choice: None,
        response_time_ms: None,
        timed_out: true,
    }
}

pub open spec fn response_ms(p: PendingCheckIn, now: u64) -> u64 {
    (sat_sub(now, p.requested_at) / NANOS_PER_MILLI) as u64
}

impl EngineState {
    pub open spec fn idle() -> EngineState {
        EngineState {
            routine: None,
            current_step_index: 0,
            step_started_at: 0,
            session_started_at: 0,
            paused_at: None,
            step_paused: 0,
            session_paused: 0,
            cycles_completed: 0,
            pending_check_in: None,
            pending_check_in_event: None,
            pending_check_in_timeout: None,
            last_check_in: None,
        }
    }

    pub open spec fn started(routine: Routine, now: u64) -> EngineState {
        EngineState {
            routine: Some(routine),
            current_step_index: 0,
            step_started_at: now,
            session_started_at: now,
            paused_at: None,
            step_paused: 0,
            session_paused: 0,
            cycles_completed: 0,
            pending_check_in: None,
            pending_check_in_event: None,
            pending_check_in_timeout: None,
            last_check_in: None,
        }
    }

    pub open spec fn is_running(self) -> bool {
        self.routine is Some
    }

    pub open spec fn steps(self) -> Seq<Step> {
        self.routine->0.steps@
    }

    pub open spec fn current_step(self) -> Step {
        self.steps()[self.current_step_index as int]
    }

    /// A running engine holds a valid routine and an index into it; a pending check-in has
    /// the mode its step asks for, and a blocking one belongs to the current step; only a
    /// running engine is paused.
    pub open spec fn wf(self) -> bool {
        &&& self.is_running() ==> {
            &&& valid_routine(self.routine->0)
            &&& self.current_step_index < self.steps().len()
            &&& (self.pending_check_in matches Some(p) ==> p.step_index < self.steps().len()
                && p.mode == self.steps()[p.step_index as int].check_in.mode)
            &&& (self.gate_pending() ==> self.pending_check_in->0.step_index
                == self.current_step_index)
        }
        &&& (self.paused_at is Some ==> self.is_running())
    }

    /// Every anchor lies at or before clock reading `t`: the step's and the session's
    /// starts plus their paused time, and the pause instant; while paused the starts plus
    /// paused time lie at or before the pause instant. The states reached from a start by
    /// operations at non-decreasing clock readings all have it at their latest reading.
    pub open spec fn anchored_by(self, t: u64) -> bool {
        self.is_running() ==> match self.paused_at {
            Some(p) => p <= t && self.step_started_at + self.step_paused <= p
                && self.session_started_at + self.session_paused <= p,
            None => self.step_started_at + self.step_paused <= t && self.session_started_at
                + self.session_paused <= t,
        }
    }

    /// Time spent in the current step at `now`, paused time excluded.
    pub open spec fn elapsed_in_step(self, now: u64) -> u64 {
        sat_sub(sat_sub(now, self.step_started_at), self.step_paused)
    }

    /// Time spent in the whole session at `now`, paused time excluded.
    pub open spec fn session_elapsed(self, now: u64) -> u64 {
        sat_sub(sat_sub(now, self.session_started_at), self.session_paused)
    }

    /// The clock reading that counts: the pause instant while paused.
    pub open spec fn effective_now(self, now: u64) -> u64 {
        match self.paused_at {
            Some(p) => p,
            None => now,
        }
    }

    pub open spec fn remaining(self, now: u64) -> u64 {
        sat_sub(step_nanos(self.current_step()), self.elapsed_in_step(self.effective_now(now)))
    }

    pub open spec fn duration_limit_reached(self, now: u64) -> bool {
        match self.routine->0.repeat_mode {
            RepeatMode::Duration { total_seconds } => self.session_elapsed(now) >= seconds_nanos(
                total_seconds,
            ),
            _ => false,
        }
    }

    pub open spec fn gate_pending(self) -> bool {
        self.pending_check_in matches Some(p) && p.mode == CheckInMode::Gate
    }

    pub open spec fn paused(self, now: u64) -> EngineState {
        EngineState { paused_at: Some(now), ..self }
    }

    pub open spec fn resumed(self, now: u64) -> EngineState {
        let d = sat_sub(now, self.paused_at->0);
        EngineState {
            paused_at: None,
            step_paused: sat_add(self.step_paused, d),
            session_paused: sat_add(self.session_paused, d),
            ..self
        }
    }

    pub open spec fn advanced_from(self, index: int, overflow: u64, now: u64) -> (
        EngineState,
        AdvanceResult,
    ) {
        match landing(
            self.steps(),
            self.routine->0.repeat_mode,
            index,
            overflow,
            self.cycles_completed,
            self.session_elapsed(now),
        ) {
            Landing::Finished => (EngineState::idle(), AdvanceResult::RoutineCompleted),
            Landing::At { index, overflow, cycles } => (
                EngineState {
                    current_step_index: index,
                    step_started_at: if overflow <= now {
                        (now - overflow) as u64
                    } else {
                        now
                    },
                    step_paused: 0,
                    paused_at: None,
                    cycles_completed: cycles,
                    ..self
                },
                AdvanceResult::StepAdvanced { step_index: index },
            ),
        }
    }

    pub open spec fn prompt_expired(self, now: u64) -> EngineState {
        match self.pending_check_in {
            Some(p) => if p.mode == CheckInMode::Prompt && p.timeout is Some && sat_sub(
                now,
                p.requested_at,
            ) >= p.timeout->0 {
                EngineState {
                    pending_check_in: None,
                    pending_check_in_timeout: Some(p.step_index),
                    last_check_in: Some(timed_out_result()),
                    ..self
                }
            } else {
                self
            },
            None => self,
        }
    }

    pub open spec fn prompt_replaced(self, index: usize, now: u64, timeout: Option<u64>) -> EngineState {
        let last = match self.pending_check_in {
            Some(p) => if p.mode == CheckInMode::Prompt {
                Some(timed_out_result())
            } else {
                self.last_check_in
            },
            None => self.last_check_in,
        };
        EngineState {
            pending_check_in: Some(
                PendingCheckIn { mode: CheckInMode::Prompt, step_index: index, requested_at: now, timeout },
            ),
            last_check_in: last,
            ..self
        }
    }

    pub open spec fn step_completed(self, index: usize, overflow: u64, now: u64) -> (
        EngineState,
        AdvanceResult,
    ) {
        let config = self.steps()[index as int].check_in;
        match config.mode {
            CheckInMode::Off => self.advanced_from(index as int, overflow, now),
            CheckInMode::Prompt => EngineState {
                pending_check_in_event: Some(
                    CheckInEvent { step_index: index, config, blocking: false },
                ),
                ..self.prompt_replaced(index, now, timeout_nanos(config))
            }.advanced_from(index as int, overflow, now),
            CheckInMode::Gate => (
                EngineState {
                    pending_check_in: Some(
                        PendingCheckIn {
                            mode: CheckInMode::Gate,
                            step_index: index,
                            requested_at: now,
                            timeout: timeout_nanos(config),
                        },
                    ),
                    pending_check_in_event: Some(
                        CheckInEvent { step_index: index, config, blocking: true },
                    ),
                    ..self
                },
                AdvanceResult::NoChange,
            ),
        }
    }

    /// One heartbeat of a running engine at `now`.
    pub open spec fn ticked(self, now: u64) -> (EngineState, AdvanceResult) {
        if self.paused_at is Some {
            (self, AdvanceResult::NoChange)
        } else {
            let s = self.prompt_expired(now);
            if s.gate_pending() {
                (s, AdvanceResult::NoChange)
            } else if s.duration_limit_reached(now) {
                (EngineState::idle(), AdvanceResult::RoutineCompleted)
            } else if s.elapsed_in_step(now) < step_nanos(s.current_step()) {
                (s, AdvanceResult::NoChange)
            } else {
                s.step_completed(
                    s.current_step_index,
                    (s.elapsed_in_step(now) - step_nanos(s.current_step())) as u64,
                    now,
                )
            }
        }
    }

    /// Answering the pending check-in with `choice` at `now`.
    pub open spec fn answered(self, choice: CheckInChoice, now: u64) -> (EngineState, AdvanceResult) {
        let p = self.pending_check_in->0;
        let s = EngineState {
            pending_check_in: None,
            last_check_in: Some(
                CheckInResult {
                    mode: p.mode,
                    responded_at: None,
                    choice: Some(choice),
                    response_time_ms: Some(response_ms(p, now)),
                    timed_out: false,
                },
            ),
            pending_check_in_event: None,
            pending_check_in_timeout: None,
            ..self
        };
        if p.mode == CheckInMode::Gate {
            s.advanced_from(p.step_index as int, 0, now)
        } else {
            (s, AdvanceResult::NoChange)
        }
    }

    /// Skipping the current step at `now`: a blocking check-in of this step is answered
    /// with `Skip`; otherwise the step completes as if its time were up, with no overflow,
    /// and a pause stays in force while the routine runs.
    pub open spec fn skipped(self, now: u64) -> (EngineState, AdvanceResult) {
        if self.gate_pending() && self.pending_check_in->0.step_index == self.current_step_index {
            self.answered(CheckInChoice::Skip, now)
        } else {
            let moved = self.step_completed(self.current_step_index, 0, self.effective_now(now));
            if self.paused_at is Some && moved.0.is_running() {
                (EngineState { paused_at: self.paused_at, ..moved.0 }, moved.1)
            } else {
                moved
            }
        }
    }
}

fn sub_sat(a: u64, b: u64) -> (r: u64)
    ensures
        r == sat_sub(a, b),
{
    if a >= b {
        a - b
    } else {
        0
    }
}

fn add_sat(a: u64, b: u64) -> (r: u64)
    ensures
        r == sat_add(a, b),
{
    if a <= u64::MAX - b {
        a + b
    } else {
        u64::MAX
    }
}

fn seconds_to_nanos(s: u32) -> (r: u64)
    ensures
        r == seconds_nanos(s),
{
    s as u64 * NANOS_PER_SECOND
}

fn duration_for_step(step: &Step) -> (r: u64)
    ensures
        r == step_nanos(*step),
{
    seconds_to_nanos(step.duration_seconds)
}

fn timeout_for(config: &CheckInConfig) -> (r: Option<u64>)
    ensures
        r == timeout_nanos(*config),
{
    match config.prompt_timeout_seconds {
        Some(s) => Some(seconds_to_nanos(s)),
        None => None,
    }
}

fn timed_out_check_in() -> (r: CheckInResult)
    ensures
        r == timed_out_result(),
{
    CheckInResult {
        mode: CheckInMode::Prompt,
        responded_at: None,
        choice: None,
        response_time_ms: None,
        timed_out: true,
    }
}

fn idle_state() -> (r: EngineState)
    ensures
        r == EngineState::idle(),
{
    EngineState {
        routine: None,
        current_step_index: 0,
        step_started_at: 0,
        session_started_at: 0,
        paused_at: None,
        step_paused: 0,
        session_paused: 0,
        cycles_completed: 0,
        pending_check_in: None,
        pending_check_in_event: None,
        pending_check_in_timeout: None,
        last_check_in: None,
    }
}

/// Checks that a routine can run: at least one step, every step at least one second
/// long, and a repeat count or duration of at least one.
pub fn validate_routine(routine: &Routine) -> (r: Result<(), TimerError>)
    ensures
        routine_error(*routine) is None ==> r is Ok,
        routine_error(*routine) matches Some(reason) ==> is_invalid_routine(r, reason),
{
    if routine.steps.len() == 0 {
        return Err(TimerError::InvalidRoutine(owned("routine must have at least one step")));
    }
    let mut i: usize = 0;
    while i < routine.steps.len()
        invariant
            i <= routine.steps@.len(),
            forall|j: int| 0 <= j < i ==> routine.steps@[j].duration_seconds != 0,
        decreases routine.steps@.len() - i,
    {
        if routine.steps[i].duration_seconds == 0 {
            return Err(
                TimerError::InvalidRoutine(owned("step duration must be at least 1 second")),
            );
        }
        i = i + 1;
    }
    match routine.repeat_mode {
        RepeatMode::Count { value } => if value == 0 {
            return Err(TimerError::InvalidRoutine(owned("repeat count must be at least 1")));
        },
        RepeatMode::Duration { total_seconds } => if total_seconds == 0 {
            return Err(
                TimerError::InvalidRoutine(owned("repeat duration must be at least 1 second")),
            );
        },
        RepeatMode::Infinite => {},
    }
    Ok(())
}

impl TimerError {
    /// A sentence that describes the error.
    pub fn message(&self) -> (r: String)
        ensures
            self matches TimerError::InvalidRoutine(m) ==> r@ == "Invalid routine: "@ + m@,
    {
        match self {
            TimerError::AlreadyRunning => owned("Timer already running"),
            TimerError::NotRunning => owned("Timer not running"),
            TimerError::AlreadyPaused => owned("Timer already paused"),
            TimerError::NotPaused => owned("Timer not paused"),
            TimerError::InvalidRoutine(m) => owned("Invalid routine: ").concat(m.as_str()),
        }
    }
}

/// The routine execution engine.
pub struct TimerEngine {
    clock: MonotonicClock,
    state: EngineState,
}

impl View for TimerEngine {
    type V = EngineState;

    closed spec fn view(&self) -> EngineState {
        self.state
    }
}

impl TimerEngine {
    pub fn new() -> (r: Self)
        ensures
            r@ == EngineState::idle(),
            r@.wf(),
    {
        TimerEngine { clock: MonotonicClock::new(), state: idle_state() }
    }

    /// The engine's clock: nanoseconds of monotonic time.
    pub fn now(&self) -> u64 {
        self.clock.now()
    }

    pub fn is_running(&self) -> (r: bool)
        ensures
            r == self@.is_running(),
    {
        self.state.routine.is_some()
    }

    pub fn is_paused(&self) -> (r: bool)
        ensures
            r == self@.paused_at is Some,
    {
        self.state.paused_at.is_some()
    }

    pub fn current_step_index(&self) -> (r: Option<usize>)
        ensures
            r == (if self@.is_running() {
                Some(self@.current_step_index)
            } else {
                None
            }),
    {
        if self.is_running() {
            Some(self.state.current_step_index)
        } else {
            None
        }
    }

    pub fn current_routine(&self) -> (r: Option<&Routine>)
        ensures
            r is Some <==> self@.routine is Some,
            r matches Some(x) ==> *x == self@.routine->0,
    {
        self.state.routine.as_ref()
    }

    pub fn step_at(&self, index: usize) -> (r: Option<&Step>)
        ensures
            r is Some <==> self@.is_running() && index < self@.steps().len(),
            r matches Some(s) ==> *s == self@.steps()[index as int],
    {
        match &self.state.routine {
            Some(routine) => if index < routine.steps.len() {
                Some(&routine.steps[index])
            } else {
                None
            },
            None => None,
        }
    }

    pub fn current_step(&self) -> (r: Option<&Step>)
        requires
            self@.wf(),
        ensures
            r is Some <==> self@.is_running(),
            r matches Some(s) ==> *s == self@.current_step(),
    {
        self.step_at(self.state.current_step_index)
    }

    /// The mode and step of the check-in that awaits an answer.
    pub fn pending_check_in(&self) -> (r: Option<(CheckInMode, usize)>)
        ensures
            r == (match self@.pending_check_in {
                Some(p) => Some((p.mode, p.step_index)),
                None => None,
            }),
    {
        match &self.state.pending_check_in {
            Some(p) => Some((p.mode, p.step_index)),
            None => None,
        }
    }

    pub fn start_routine_at(&mut self, routine: Routine, now: u64) -> (r: Result<(), TimerError>)
        requires
            old(self)@.wf(),
        ensures
            final(self)@.wf(),
            old(self)@.is_running() ==> r == Err::<(), TimerError>(TimerError::AlreadyRunning)
                && final(self)@ == old(self)@,
            !old(self)@.is_running() && routine_error(routine) is Some ==> is_invalid_routine(
                r,
                routine_error(routine)->0,
            ) && final(self)@ == old(self)@,
            !old(self)@.is_running() && routine_error(routine) is None ==> r is Ok && final(self)@
                == EngineState::started(routine, now),
    {
        if self.is_running() {
            return Err(TimerError::AlreadyRunning);
        }
        match validate_routine(&routine) {
            Err(e) => {
                return Err(e);
            },
            Ok(()) => {},
        }
        self.state = EngineState {
            routine: Some(routine),
            current_step_index: 0,
            step_started_at: now,
            session_started_at: now,
            paused_at: None,
            step_paused: 0,
            session_paused: 0,
            cycles_completed: 0,
            pending_check_in: None,
            pending_check_in_event: None,
            pending_check_in_timeout: None,
            last_check_in: None,
        };
        Ok(())
    }

    pub fn start_routine(&mut self, routine: Routine) -> (r: Result<(), TimerError>)
        requires
            old(self)@.wf(),
        ensures
            final(self)@.wf(),
            old(self)@.is_running() ==> r == Err::<(), TimerError>(TimerError::AlreadyRunning)
                && final(self)@ == old(self)@,
            !old(self)@.is_running() && routine_error(routine) is Some ==> is_invalid_routine(
                r,
                routine_error(routine)->0,
            ) && final(self)@ == old(self)@,
            !old(self)@.is_running() && routine_error(routine) is None ==> r is Ok && final(self)@
                == EngineState::started(routine, final(self)@.session_started_at),
    {
        let now = self.clock.now();
        self.start_routine_at(routine, now)
    }

    pub fn pause_at(&mut self, now: u64) -> (r: Result<(), TimerError>)
        requires
            old(self)@.wf(),
        ensures
            final(self)@.wf(),
            !old(self)@.is_running() ==> r == Err::<(), TimerError>(TimerError::NotRunning)
                && final(self)@ == old(self)@,
            old(self)@.is_running() && old(self)@.paused_at is Some ==> r == Err::<(), TimerError>(
                TimerError::AlreadyPaused,
            ) && final(self)@ == old(self)@,
            old(self)@.is_running() && old(self)@.paused_at is None ==> r is Ok && final(self)@
                == old(self)@.paused(now),
    {
        if !self.is_running() {
            return Err(TimerError::NotRunning);
        }
        if self.is_paused() {
            return Err(TimerError::AlreadyPaused);
        }
        self.state.paused_at = Some(now);
        Ok(())
    }

    pub fn pause(&mut self) -> (r: Result<(), TimerError>)
        requires
            old(self)@.wf(),
        ensures
            final(self)@.wf(),
            !old(self)@.is_running() ==> r == Err::<(), TimerError>(TimerError::NotRunning)
                && final(self)@ == old(self)@,
            old(self)@.is_running() && old(self)@.paused_at is Some ==> r == Err::<(), TimerError>(
                TimerError::AlreadyPaused,
            ) && final(self)@ == old(self)@,
            old(self)@.is_running() && old(self)@.paused_at is None ==> r is Ok && final(self)@
                == old(self)@.paused(final(self)@.paused_at->0),
    {
        let now = self.clock.now();
        self.pause_at(now)
    }

    pub fn resume_at(&mut self, now: u64) -> (r: Result<(), TimerError>)
        requires
            old(self)@.wf(),
        ensures
            final(self)@.wf(),
            !old(self)@.is_running() ==> r == Err::<(), TimerError>(TimerError::NotRunning)
                && final(self)@ == old(self)@,
            old(self)@.is_running() && old(self)@.paused_at is None ==> r == Err::<(), TimerError>(
                TimerError::NotPaused,
            ) && final(self)@ == old(self)@,
            old(self)@.is_running() && old(self)@.paused_at is Some ==> r is Ok && final(self)@
                == old(self)@.resumed(now),
    {
        if !self.is_running() {
            return Err(TimerError::NotRunning);
        }
        match self.state.paused_at {
            None => Err(TimerError::NotPaused),
            Some(paused_at) => {
                let d = sub_sat(now, paused_at);
                self.state.paused_at = None;
                self.state.step_paused = add_sat(self.state.step_paused, d);
                self.state.session_paused = add_sat(self.state.session_paused, d);
                Ok(())
            },
        }
    }

    pub fn resume(&mut self) -> (r: Result<(), TimerError>)
        requires
            old(self)@.wf(),
        ensures
            final(self)@.wf(),
            !old(self)@.is_running() ==> r == Err::<(), TimerError>(TimerError::NotRunning)
                && final(self)@ == old(self)@,
            old(self)@.is_running() && old(self)@.paused_at is None ==> r == Err::<(), TimerError>(
                TimerError::NotPaused,
            ) && final(self)@ == old(self)@,
            old(self)@.is_running() && old(self)@.paused_at is Some ==> r is Ok && exists|now: u64|
                final(self)@ == old(self)@.resumed(now),
    {
        let now = self.clock.now();
        self.resume_at(now)
    }

    pub fn stop(&mut self) -> (r: Result<(), TimerError>)
        requires
            old(self)@.wf(),
        ensures
            final(self)@.wf(),
            !old(self)@.is_running() ==> r == Err::<(), TimerError>(TimerError::NotRunning)
                && final(self)@ == old(self)@,
            old(self)@.is_running() ==> r is Ok && final(self)@ == EngineState::idle(),
    {
        if !self.is_running() {
            return Err(TimerError::NotRunning);
        }
        self.state = idle_state();
        Ok(())
    }

    fn elapsed_in_step_at(&self, now: u64) -> (r: u64)
        ensures
            r == self@.elapsed_in_step(now),
    {
        sub_sat(sub_sat(now, self.state.step_started_at), self.state.step_paused)
    }

    fn session_elapsed_at(&self, now: u64) -> (r: u64)
        ensures
            r == self@.session_elapsed(now),
    {
        sub_sat(sub_sat(now, self.state.session_started_at), self.state.session_paused)
    }

    fn effective_now(&self, now: u64) -> (r: u64)
        ensures
            r == self@.effective_now(now),
    {
        match self.state.paused_at {
            Some(p) => p,
            None => now,
        }
    }

    fn duration_limit_reached(&self, now: u64) -> (r: bool)
        requires
            self@.is_running(),
        ensures
            r == self@.duration_limit_reached(now),
    {
        match &self.state.routine {
            Some(routine) => match routine.repeat_mode {
                RepeatMode::Duration { total_seconds } => self.session_elapsed_at(now)
                    >= seconds_to_nanos(total_seconds),
                _ => false,
            },
            None => false,
        }
    }

    /// Nanoseconds left in the current step at clock reading `now`; frozen while paused.
    pub fn remaining_time_at(&self, now: u64) -> (r: Result<u64, TimerError>)
        requires
            self@.wf(),
        ensures
            !self@.is_running() ==> r == Err::<u64, TimerError>(TimerError::NotRunning),
            self@.is_running() ==> r == Ok::<u64, TimerError>(self@.remaining(now)),
    {
        match &self.state.routine {
            None => Err(TimerError::NotRunning),
            Some(routine) => {
                let duration = duration_for_step(&routine.steps[self.state.current_step_index]);
                let elapsed = self.elapsed_in_step_at(self.effective_now(now));
                Ok(sub_sat(duration, elapsed))
            },
        }
    }

    pub fn remaining_time(&self) -> (r: Result<u64, TimerError>)
        requires
            self@.wf(),
        ensures
            !self@.is_running() ==> r == Err::<u64, TimerError>(TimerError::NotRunning),
            self@.is_running() ==> exists|now: u64| r == Ok::<u64, TimerError>(self@.remaining(now)),
    {
        let now = self.clock.now();
        self.remaining_time_at(now)
    }

    fn advance_from_index(&mut self, step_index: usize, overflow: u64, now: u64) -> (r:
        AdvanceResult)
        requires
            old(self)@.wf(),
            old(self)@.is_running(),
            !old(self)@.gate_pending(),
            step_index < old(self)@.steps().len(),
        ensures
            final(self)@.wf(),
            (final(self)@, r) == old(self)@.advanced_from(step_index as int, overflow, now),
    {
        let ghost s0 = self.state;
        let session_elapsed = self.session_elapsed_at(now);
        let routine = self.state.routine.as_ref().unwrap();
        let steps = &routine.steps;
        let mode = routine.repeat_mode;
        let len = steps.len();
        let mut index = step_index;
        let mut rest = overflow;
        let mut cycles = self.state.cycles_completed;
        let mut finished = false;
        let ghost target = landing(steps@, mode, step_index as int, overflow, cycles, session_elapsed);
        loop
            invariant_except_break
                !finished,
                index < len,
                target == landing(steps@, mode, index as int, rest, cycles, session_elapsed),
            invariant
                len == steps@.len(),
                steps@ == s0.steps(),
                valid_routine(s0.routine->0),
                mode == s0.routine->0.repeat_mode,
            ensures
                finished ==> target == Landing::Finished,
                !finished ==> index < len && target == (Landing::At { index, overflow: rest, cycles }),
            decreases rest,
        {
            let wraps = index + 1 >= len;
            let next: usize = if wraps {
                0
            } else {
                index + 1
            };
            let c: u32 = if wraps && cycles < u32::MAX {
                cycles + 1
            } else {
                cycles
            };
            if wraps {
                let stop = match mode {
                    RepeatMode::Infinite => false,
                    RepeatMode::Count { value } => c >= value,
                    RepeatMode::Duration { total_seconds } => session_elapsed >= seconds_to_nanos(
                        total_seconds,
                    ),
                };
                if stop {
                    assert(repeat_stops(mode, c, session_elapsed));
                    assert(landing(steps@, mode, index as int, rest, cycles, session_elapsed)
                        == Landing::Finished);
                    finished = true;
                    break ;
                }
            }
            let d = duration_for_step(&steps[next]);
            assert(d > 0) by {
                assert(s0.steps()[next as int].duration_seconds != 0);
            }
            if rest < d {
                index = next;
                cycles = c;
                break ;
            }
            rest = rest - d;
            index = next;
            cycles = c;
        }
        if finished {
            self.state = idle_state();
            return AdvanceResult::RoutineCompleted;
        }
        let started_at = if rest <= now {
            now - rest
        } else {
            now
        };
        self.state.current_step_index = index;
        self.state.step_started_at = started_at;
        self.state.step_paused = 0;
        self.state.paused_at = None;
        self.state.cycles_completed = cycles;
        AdvanceResult::StepAdvanced { step_index: index }
    }

    fn replace_prompt_pending(&mut self, step_index: usize, now: u64, timeout: Option<u64>)
        ensures
            final(self)@ == old(self)@.prompt_replaced(step_index, now, timeout),
    {
        match self.state.pending_check_in {
            Some(p) => if p.mode == CheckInMode::Prompt {
                self.state.last_check_in = Some(timed_out_check_in());
            },
            None => {},
        }
        self.state.pending_check_in = Some(
            PendingCheckIn { mode: CheckInMode::Prompt, step_index, requested_at: now, timeout },
        );
    }

    fn handle_step_completion(&mut self, step_index: usize, overflow: u64, now: u64) -> (r:
        AdvanceResult)
        requires
            old(self)@.wf(),
            old(self)@.is_running(),
            !old(self)@.gate_pending(),
            step_index == old(self)@.current_step_index,
        ensures
            final(self)@.wf(),
            (final(self)@, r) == old(self)@.step_completed(step_index, overflow, now),
    {
        let routine = self.state.routine.as_ref().unwrap();
        let config = routine.steps[step_index].check_in.duplicate();
        let timeout = timeout_for(&config);
        match config.mode {
            CheckInMode::Off => self.advance_from_index(step_index, overflow, now),
            CheckInMode::Prompt => {
                self.replace_prompt_pending(step_index, now, timeout);
                self.state.pending_check_in_event = Some(
                    CheckInEvent { step_index, config, blocking: false },
                );
                self.advance_from_index(step_index, overflow, now)
            },
            CheckInMode::Gate => {
                self.state.pending_check_in = Some(
                    PendingCheckIn {
                        mode: CheckInMode::Gate,
                        step_index,
                        requested_at: now,
                        timeout,
                    },
                );
                self.state.pending_check_in_event = Some(
                    CheckInEvent { step_index, config, blocking: true },
                );
                AdvanceResult::NoChange
            },
        }
    }

    fn expire_prompt_if_needed(&mut self, now: u64)
        requires
            old(self)@.wf(),
        ensures
            final(self)@.wf(),
            final(self)@ == old(self)@.prompt_expired(now),
    {
        match self.state.pending_check_in {
            Some(p) => {
                if p.mode == CheckInMode::Prompt {
                    match p.timeout {
                        Some(timeout) => {
                            if sub_sat(now, p.requested_at) >= timeout {
                                self.state.pending_check_in = None;
                                self.state.pending_check_in_timeout = Some(p.step_index);
                                self.state.last_check_in = Some(timed_out_check_in());
                            }
                        },
                        None => {},
                    }
                }
            },
            None => {},
        }
    }

    /// The heartbeat at clock reading `now`: expires an overdue prompt, ends a routine whose
    /// repeat duration is spent, and completes the current step once its time is up.
    pub fn advance_if_needed_at(&mut self, now: u64) -> (r: Result<AdvanceResult, TimerError>)
        requires
            old(self)@.wf(),
        ensures
            final(self)@.wf(),
            !old(self)@.is_running() ==> r == Err::<AdvanceResult, TimerError>(
                TimerError::NotRunning,
            ) && final(self)@ == old(self)@,
            old(self)@.is_running() ==> r == Ok::<AdvanceResult, TimerError>(
                old(self)@.ticked(now).1,
            ) && final(self)@ == old(self)@.ticked(now).0,
    {
        if !self.is_running() {
            return Err(TimerError::NotRunning);
        }
        if self.is_paused() {
            return Ok(AdvanceResult::NoChange);
        }
        self.expire_prompt_if_needed(now);
        match self.state.pending_check_in {
            Some(p) => if p.mode == CheckInMode::Gate {
                return Ok(AdvanceResult::NoChange);
            },
            None => {},
        }
        if self.duration_limit_reached(now) {
            self.state = idle_state();
            return Ok(AdvanceResult::RoutineCompleted);
        }
        let elapsed = self.elapsed_in_step_at(now);
        let routine = self.state.routine.as_ref().unwrap();
        let step_duration = duration_for_step(&routine.steps[self.state.current_step_index]);
        if elapsed < step_duration {
            return Ok(AdvanceResult::NoChange);
        }
        let index = self.state.current_step_index;
        Ok(self.handle_step_completion(index, elapsed - step_duration, now))
    }

    pub fn advance_if_needed(&mut self) -> (r: Result<AdvanceResult, TimerError>)
        requires
            old(self)@.wf(),
        ensures
            final(self)@.wf(),
            !old(self)@.is_running() ==> r == Err::<AdvanceResult, TimerError>(
                TimerError::NotRunning,
            ) && final(self)@ == old(self)@,
            old(self)@.is_running() ==> exists|now: u64|
                r == Ok::<AdvanceResult, TimerError>(old(self)@.ticked(now).1) && final(self)@
                    == old(self)@.ticked(now).0,
    {
        let now = self.clock.now();
        self.advance_if_needed_at(now)
    }

    /// Answers the pending check-in at clock reading `now`. A blocking check-in then lets
    /// its step complete; a prompt only records the answer.
    pub fn respond_to_check_in_at(&mut self, choice: CheckInChoice, now: u64) -> (r: Result<
        AdvanceResult,
        TimerError,
    >)
        requires
            old(self)@.wf(),
        ensures
            final(self)@.wf(),
            !old(self)@.is_running() ==> r == Err::<AdvanceResult, TimerError>(
                TimerError::NotRunning,
            ) && final(self)@ == old(self)@,
            old(self)@.is_running() && old(self)@.pending_check_in is None ==> is_invalid_routine(
                r,
                "no check-in awaiting response"@,
            ) && final(self)@ == old(self)@,
            old(self)@.is_running() && old(self)@.pending_check_in is Some ==> r == Ok::<
                AdvanceResult,
                TimerError,
            >(old(self)@.answered(choice, now).1) && final(self)@ == old(self)@.answered(
                choice,
                now,
            ).0,
    {
        if !self.is_running() {
            return Err(TimerError::NotRunning);
        }
        let pending = match self.state.pending_check_in {
            Some(p) => p,
            None => {
                return Err(TimerError::InvalidRoutine(owned("no check-in awaiting response")));
            },
        };
        self.state.pending_check_in = None;
        let response_time_ms = sub_sat(now, pending.requested_at) / NANOS_PER_MILLI;
        self.state.last_check_in = Some(
            CheckInResult {
                mode: pending.mode,
                responded_at: None,
                choice: Some(choice),
                response_time_ms: Some(response_time_ms),
                timed_out: false,
            },
        );
        self.state.pending_check_in_event = None;
        self.state.pending_check_in_timeout = None;
        match pending.mode {
            CheckInMode::Gate => Ok(self.advance_from_index(pending.step_index, 0, now)),
            _ => Ok(AdvanceResult::NoChange),
        }
    }

    pub fn respond_to_check_in(&mut self, choice: CheckInChoice) -> (r: Result<
        AdvanceResult,
        TimerError,
    >)
        requires
            old(self)@.wf(),
        ensures
            final(self)@.wf(),
            !old(self)@.is_running() ==> r == Err::<AdvanceResult, TimerError>(
                TimerError::NotRunning,
            ) && final(self)@ == old(self)@,
            old(self)@.is_running() && old(self)@.pending_check_in is None ==> is_invalid_routine(
                r,
                "no check-in awaiting response"@,
            ) && final(self)@ == old(self)@,
            old(self)@.is_running() && old(self)@.pending_check_in is Some ==> exists|now: u64|
                r == Ok::<AdvanceResult, TimerError>(old(self)@.answered(choice, now).1)
                    && final(self)@ == old(self)@.answered(choice, now).0,
    {
        let now = self.clock.now();
        self.respond_to_check_in_at(choice, now)
    }

    /// Skips the current step at clock reading `now`: answers a blocking check-in of this
    /// step with `Skip`, or else completes the step as if its time were up (opening its
    /// check-in, if it has one), keeping a pause in force.
    pub fn skip_current_step_at(&mut self, now: u64) -> (r: Result<AdvanceResult, TimerError>)
        requires
            old(self)@.wf(),
        ensures
            final(self)@.wf(),
            !old(self)@.is_running() ==> r == Err::<AdvanceResult, TimerError>(
                TimerError::NotRunning,
            ) && final(self)@ == old(self)@,
            old(self)@.is_running() ==> r == Ok::<AdvanceResult, TimerError>(
                old(self)@.skipped(now).1,
            ) && final(self)@ == old(self)@.skipped(now).0,
    {
        if !self.is_running() {
            return Err(TimerError::NotRunning);
        }
        match self.state.pending_check_in {
            Some(p) => if p.mode == CheckInMode::Gate && p.step_index
                == self.state.current_step_index {
                return self.respond_to_check_in_at(CheckInChoice::Skip, now);
            },
            None => {},
        }
        let paused_at = self.state.paused_at;
        let at = self.effective_now(now);
        let index = self.state.current_step_index;
        let result = self.handle_step_completion(index, 0, at);
        if paused_at.is_some() && self.is_running() {
            self.state.paused_at = paused_at;
        }
        Ok(result)
    }

    pub fn skip_current_step(&mut self) -> (r: Result<AdvanceResult, TimerError>)
        requires
            old(self)@.wf(),
        ensures
            final(self)@.wf(),
            !old(self)@.is_running() ==> r == Err::<AdvanceResult, TimerError>(
                TimerError::NotRunning,
            ) && final(self)@ == old(self)@,
            old(self)@.is_running() ==> exists|now: u64|
                r == Ok::<AdvanceResult, TimerError>(old(self)@.skipped(now).1) && final(self)@
                    == old(self)@.skipped(now).0,
    {
        let now = self.clock.now();
        self.skip_current_step_at(now)
    }

    pub fn last_check_in_result(&self) -> (r: Option<&CheckInResult>)
        ensures
            r is Some <==> self@.last_check_in is Some,
            r matches Some(x) ==> *x == self@.last_check_in->0,
    {
        self.state.last_check_in.as_ref()
    }

    /// Hands out the pending check-in notice once.
    pub fn take_check_in_event(&mut self) -> (r: Option<CheckInEvent>)
        requires
            old(self)@.wf(),
        ensures
            final(self)@.wf(),
            r == old(self)@.pending_check_in_event,
            final(self)@ == (EngineState { pending_check_in_event: None, ..old(self)@ }),
    {
        self.state.pending_check_in_event.take()
    }

    /// Hands out, once, the step index of a prompt that timed out.
    pub fn take_check_in_timeout(&mut self) -> (r: Option<usize>)
        requires
            old(self)@.wf(),
        ensures
            final(self)@.wf(),
            r == old(self)@.pending_check_in_timeout,
            final(self)@ == (EngineState { pending_check_in_timeout: None, ..old(self)@ }),
    {
        self.state.pending_check_in_timeout.take()
    }
}

} // verus!
