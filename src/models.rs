use vstd::prelude::*;

use crate::text::copy_opt_string;

verus! {

/// A user-defined, ordered set of timed steps with a repeat policy.
#[derive(Debug, Clone)]
pub struct Routine {
    pub id: String,
    pub name: String,
    pub steps: Vec<Step>,
    pub repeat_mode: RepeatMode,
    pub auto_advance: bool,
    pub notifications: bool,
    pub sound_default: SoundSetting,
    pub sound_scheme: SoundScheme,
}

/// One timed phase of a routine.
#[derive(Debug, Clone)]
pub struct Step {
    pub id: String,
    pub order: u32,
    pub label: String,
    pub duration_seconds: u32,
    pub instruction: String,
    pub sound_override: SoundOverride,
    pub count_as_break: bool,
    pub check_in: CheckInConfig,
}

/// How a step asks for acknowledgement once its time is up.
#[derive(Debug, Clone)]
pub struct CheckInConfig {
    pub mode: CheckInMode,
    pub prompt_title: Option<String>,
    pub prompt_body: Option<String>,
    pub prompt_timeout_seconds: Option<u32>,
}

/// The recorded history of one run of a routine.
#[derive(Debug, Clone)]
pub struct Session {
    pub id: String,
    pub routine_id: String,
    pub started_at: String,
    pub ended_at: Option<String>,
    pub step_runs: Vec<StepRun>,
    pub totals: SessionTotals,
    pub muted_during_session: bool,
}

/// What happened to one step while it was current.
#[derive(Debug, Clone)]
pub struct StepRun {
    pub step_id: String,
    pub planned_duration_seconds: u32,
    pub actual_duration_seconds: u32,
    pub started_at: String,
    pub ended_at: Option<String>,
    pub result: StepRunResult,
    pub check_in_result: Option<CheckInResult>,
    pub sound_played: bool,
}

/// The answer (or the lack of one) to a check-in.
#[derive(Debug, Clone)]
pub struct CheckInResult {
    pub mode: CheckInMode,
    pub responded_at: Option<String>,
    pub choice: Option<CheckInChoice>,
    pub response_time_ms: Option<u64>,
    pub timed_out: bool,
}

/// A check-in answer as it arrives from the user interface.
#[derive(Debug, Clone)]
pub struct CheckInResponse {
    pub step_id: String,
    pub choice: CheckInChoice,
    pub responded_at: Option<String>,
    pub response_time_ms: Option<u64>,
}

/// Aggregate figures of a finished session.
#[derive(Debug, Clone, Copy, PartialEq, Eq, Structural)]
pub struct SessionTotals {
    pub total_seconds: u32,
    pub work_seconds: u32,
    pub break_seconds: u32,
    pub cycles_count: u32,
    pub check_in_done_count: u32,
    pub check_in_skip_count: u32,
}

/// What the user interface shows of the engine.
#[derive(Debug, Clone)]
pub struct TimerState {
    pub is_running: bool,
    pub is_paused: bool,
    pub current_session: Option<Session>,
    pub current_step_index: u32,
    pub remaining_seconds: u32,
    pub awaiting_check_in: Option<CheckInConfig>,
    pub awaiting_check_in_step: Option<Step>,
}

/// User preferences that outlive a session.
#[derive(Debug, Clone, Copy, PartialEq, Eq, Structural)]
pub struct AppSettings {
    pub notifications_enabled: bool,
    pub sound_default: SoundSetting,
}

/// When the engine stops a routine that would wrap back to its first step.
#[derive(Debug, Clone, Copy, PartialEq, Eq, Structural)]
pub enum RepeatMode {
    Infinite,
    Count { value: u32 },
    Duration { total_seconds: u32 },
}

#[derive(Debug, Clone, Copy, PartialEq, Eq, Structural)]
pub enum SoundSetting {
    On,
    Off,
}

#[derive(Debug, Clone, Copy, PartialEq, Eq, Structural)]
pub enum SoundOverride {
    Inherit,
    On,
    Off,
}

#[derive(Debug, Clone, Copy, PartialEq, Eq, Structural)]
pub enum SoundScheme {
    Default,
    EndDifferent,
}

#[derive(Debug, Clone, Copy, PartialEq, Eq, Structural)]
pub enum CheckInMode {
    Off,
    Prompt,
    Gate,
}

#[derive(Debug, Clone, Copy, PartialEq, Eq, Structural)]
pub enum CheckInChoice {
    Done,
    Skip,
}

#[derive(Debug, Clone, Copy, PartialEq, Eq, Structural)]
pub enum StepRunResult {
    Completed,
    Skipped,
    Aborted,
}

impl Default for AppSettings {
    fn default() -> (r: Self)
        ensures
            r.notifications_enabled,
            r.sound_default == SoundSetting::On,
    {
        AppSettings { notifications_enabled: true, sound_default: SoundSetting::On }
    }
}

impl CheckInConfig {
    /// A field-by-field copy.
    pub fn duplicate(&self) -> (r: CheckInConfig)
        ensures
            r == *self,
    {
        CheckInConfig {
            mode: self.mode,
            prompt_title: copy_opt_string(&self.prompt_title),
            prompt_body: copy_opt_string(&self.prompt_body),
            prompt_timeout_seconds: self.prompt_timeout_seconds,
        }
    }
}

impl Step {
    /// A field-by-field copy.
    pub fn duplicate(&self) -> (r: Step)
        ensures
            r == *self,
    {
        Step {
            id: self.id.clone(),
            order: self.order,
            label: self.label.clone(),
            duration_seconds: self.duration_seconds,
            instruction: self.instruction.clone(),
            sound_override: self.sound_override,
            count_as_break: self.count_as_break,
            check_in: self.check_in.duplicate(),
        }
    }
}

/// A copy of a list of steps, element for element.
pub fn duplicate_steps(steps: &Vec<Step>) -> (r: Vec<Step>)
    ensures
        r@ == steps@,
{
    let mut out: Vec<Step> = Vec::new();
    let mut i: usize = 0;
    while i < steps.len()
        invariant
            i <= steps@.len(),
            out@ == steps@.subrange(0, i as int),
        decreases steps@.len() - i,
    {
        out.push(steps[i].duplicate());
        i = i + 1;
    }
    assert(out@ =~= steps@);
    out
}

} // verus!
