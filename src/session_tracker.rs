//! The session tracker: turns the engine's transitions into a session record with
//! per-step runs and aggregate totals.

use vstd::prelude::*;

use crate::clock::now_rfc3339;
use crate::models::{
    duplicate_steps, CheckInChoice, CheckInMode, CheckInResult, Routine, Session, SessionTotals,
    Step, StepRun, StepRunResult,
};
use crate::text::{owned, text_eq};

verus! {

/// The step that is open in the tracker.
#[derive(Debug, Clone)]
pub struct CurrentStep {
    pub step_id: String,
    pub started_at: String,
    pub sound_played: bool,
}

/// A session that has started and not yet finished.
#[derive(Debug, Clone)]
pub struct ActiveSession {
    pub id: String,
    pub routine_id: String,
    pub steps: Vec<Step>,
    pub last_step_id: String,
    pub started_at: String,
    pub current_step: Option<CurrentStep>,
    pub step_runs: Vec<StepRun>,
    pub muted_during_session: bool,
}

/// An open session as a mathematical value.
pub struct SessionModel {
    pub id: String,
    pub routine_id: String,
    pub steps: Seq<Step>,
    pub last_step_id: String,
    pub started_at: String,
    pub current_step: Option<CurrentStep>,
    pub step_runs: Seq<StepRun>,
    pub muted_during_session: bool,
}

/// The first step of `steps`, from position `i` on, whose id is `id`.
pub open spec fn find_step_from(steps: Seq<Step>, id: Seq<char>, i: int) -> Option<Step>
    decreases steps.len() - i,
{
    if i < 0 || i >= steps.len() {
        None
    } else if steps[i].id@ == id {
        Some(steps[i])
    } else {
        find_step_from(steps, id, i + 1)
    }
}

/// The first step of `steps` whose id is `id`.
pub open spec fn find_step(steps: Seq<Step>, id: Seq<char>) -> Option<Step> {
    find_step_from(steps, id, 0)
}

/// The position of the last run among the first `n` whose step id is `id`.
pub open spec fn latest_run_from(runs: Seq<StepRun>, id: Seq<char>, n: int) -> Option<int>
    decreases n,
{
    if n <= 0 || n > runs.len() {
        None
    } else if runs[n - 1].step_id@ == id {
        Some(n - 1)
    } else {
        latest_run_from(runs, id, n - 1)
    }
}

/// The position of the most recent run of step `id`.
pub open spec fn latest_run(runs: Seq<StepRun>, id: Seq<char>) -> Option<int> {
    latest_run_from(runs, id, runs.len() as int)
}

pub open spec fn awaiting_answer(mode: CheckInMode) -> CheckInResult {
    CheckInResult {
        mode,
        responded_at: None,
        choice: None,
        response_time_ms: None,
        timed_out: false,
    }
}

/// The check-in entry a run starts with: an unanswered one when the step completed and
/// asks for a check-in.
pub open spec fn initial_check_in(result: StepRunResult, meta: Option<Step>) -> Option<
    CheckInResult,
> {
    if result != StepRunResult::Completed {
        None
    } else {
        match meta {
            Some(s) => if s.check_in.mode == CheckInMode::Off {
                None
            } else {
                Some(awaiting_answer(s.check_in.mode))
            },
            None => None,
        }
    }
}

pub open spec fn add_u32(a: u32, b: u32) -> u32 {
    if a + b <= u32::MAX {
        (a + b) as u32
    } else {
        u32::MAX
    }
}

pub open spec fn zero_totals() -> SessionTotals {
    SessionTotals {
        total_seconds: 0,
        work_seconds: 0,
        break_seconds: 0,
        cycles_count: 0,
        check_in_done_count: 0,
        check_in_skip_count: 0,
    }
}

pub open spec fn counts_as_break(steps: Seq<Step>, id: Seq<char>) -> bool {
    find_step(steps, id) matches Some(s) && s.count_as_break
}

pub open spec fn check_in_done(run: StepRun) -> bool {
    run.check_in_result matches Some(c) && c.choice == Some(CheckInChoice::Done)
}

/// An explicit `Skip`, or a timeout without an answer.
pub open spec fn check_in_skipped(run: StepRun) -> bool {
    run.check_in_result matches Some(c) && (c.choice == Some(CheckInChoice::Skip) || (c.choice is None
        && c.timed_out))
}

/// `t` with one more run counted in.
pub open spec fn with_run(t: SessionTotals, run: StepRun, steps: Seq<Step>, last_id: Seq<char>) -> SessionTotals {
    let brk = counts_as_break(steps, run.step_id@);
    let a = run.actual_duration_seconds;
    SessionTotals {
        total_seconds: add_u32(t.total_seconds, a),
        work_seconds: if brk {
            t.work_seconds
        } else {
            add_u32(t.work_seconds, a)
        },
        break_seconds: if brk {
            add_u32(t.break_seconds, a)
        } else {
            t.break_seconds
        },
        cycles_count: if run.step_id@ == last_id && run.result != StepRunResult::Aborted {
            add_u32(t.cycles_count, 1)
        } else {
            t.cycles_count
        },
        check_in_done_count: if check_in_done(run) {
            add_u32(t.check_in_done_count, 1)
        } else {
            t.check_in_done_count
        },
        check_in_skip_count: if check_in_skipped(run) {
            add_u32(t.check_in_skip_count, 1)
        } else {
            t.check_in_skip_count
        },
    }
}

/// The totals of a list of runs: seconds summed and split into work and break by each
/// step's break flag, cycles counted at non-aborted runs of the last step, and check-in
/// answers counted as done or skipped. Each count saturates at `u32::MAX`.
pub open spec fn totals_of(runs: Seq<StepRun>, steps: Seq<Step>, last_id: Seq<char>) -> SessionTotals
    decreases runs.len(),
{
    if runs.len() == 0 {
        zero_totals()
    } else {
        with_run(totals_of(runs.drop_last(), steps, last_id), runs.last(), steps, last_id)
    }
}

/// The first step of `steps` with id `id`.
pub fn step_with_id<'a>(steps: &'a Vec<Step>, id: &str) -> (r: Option<&'a Step>)
    ensures
        r is Some <==> find_step(steps@, id@) is Some,
        r matches Some(x) ==> *x == find_step(steps@, id@)->0,
{
    let mut i: usize = 0;
    while i < steps.len()
        invariant
            i <= steps@.len(),
            find_step(steps@, id@) == find_step_from(steps@, id@, i as int),
        decreases steps@.len() - i,
    {
        if text_eq(steps[i].id.as_str(), id) {
            return Some(&steps[i]);
        }
        i = i + 1;
    }
    None
}

impl ActiveSession {
    pub open spec fn model(&self) -> SessionModel {
        SessionModel {
            id: self.id,
            routine_id: self.routine_id,
            steps: self.steps@,
            last_step_id: self.last_step_id,
            started_at: self.started_at,
            current_step: self.current_step,
            step_runs: self.step_runs@,
            muted_during_session: self.muted_during_session,
        }
    }

    /// The first step of the routine with id `step_id`.
    pub fn step_by_id(&self, step_id: &str) -> (r: Option<&Step>)
        ensures
            r is Some <==> find_step(self.steps@, step_id@) is Some,
            r matches Some(s) ==> *s == find_step(self.steps@, step_id@)->0,
    {
        step_with_id(&self.steps, step_id)
    }

    /// The position of the most recent run of step `step_id`.
    pub fn find_latest_step_run_index(&self, step_id: &str) -> (r: Option<usize>)
        ensures
            r matches Some(i) ==> latest_run(self.step_runs@, step_id@) == Some(i as int),
            r is None ==> latest_run(self.step_runs@, step_id@) is None,
    {
        let mut n: usize = self.step_runs.len();
        while n > 0
            invariant
                n <= self.step_runs@.len(),
                latest_run(self.step_runs@, step_id@) == latest_run_from(
                    self.step_runs@,
                    step_id@,
                    n as int,
                ),
            decreases n,
        {
            if text_eq(self.step_runs[n - 1].step_id.as_str(), step_id) {
                return Some(n - 1);
            }
            n = n - 1;
        }
        None
    }
}

impl SessionModel {
    pub open spec fn opened(
        routine: Routine,
        step: Step,
        muted: bool,
        id: String,
        started_at: String,
    ) -> SessionModel {
        SessionModel {
            id,
            routine_id: routine.id,
            steps: routine.steps@,
            last_step_id: if routine.steps@.len() > 0 {
                routine.steps@.last().id
            } else {
                step.id
            },
            started_at,
            current_step: Some(CurrentStep { step_id: step.id, started_at, sound_played: false }),
            step_runs: Seq::empty(),
            muted_during_session: muted,
        }
    }

    pub open spec fn step_started(self, step: Step, sound_played: bool, started_at: String) -> SessionModel {
        SessionModel {
            current_step: Some(CurrentStep { step_id: step.id, started_at, sound_played }),
            ..self
        }
    }

    /// Closing the open step, if it is `step_id`, into a run appended to the list.
    pub open spec fn finalized(
        self,
        step_id: Seq<char>,
        result: StepRunResult,
        actual: u32,
        ended_at: String,
    ) -> SessionModel {
        match self.current_step {
            Some(c) => if c.step_id@ == step_id {
                let meta = find_step(self.steps, c.step_id@);
                let run = StepRun {
                    step_id: c.step_id,
                    planned_duration_seconds: match meta {
                        Some(s) => s.duration_seconds,
                        None => 0,
                    },
                    actual_duration_seconds: actual,
                    started_at: c.started_at,
                    ended_at: Some(ended_at),
                    result,
                    check_in_result: initial_check_in(result, meta),
                    sound_played: c.sound_played,
                };
                SessionModel { current_step: None, step_runs: self.step_runs.push(run), ..self }
            } else {
                self
            },
            None => self,
        }
    }

    /// The run to which a check-in answer for `step_id` goes, and the step's mode: the most
    /// recent run of a step that asks for check-ins.
    pub open spec fn answer_target(self, step_id: Seq<char>) -> Option<(int, CheckInMode)> {
        match find_step(self.steps, step_id) {
            Some(s) => if s.check_in.mode == CheckInMode::Off {
                None
            } else {
                match latest_run(self.step_runs, step_id) {
                    Some(i) => Some((i, s.check_in.mode)),
                    None => None,
                }
            },
            None => None,
        }
    }

    pub open spec fn with_check_in(self, i: int, c: CheckInResult) -> SessionModel {
        SessionModel {
            step_runs: self.step_runs.update(
                i,
                StepRun { check_in_result: Some(c), ..self.step_runs[i] },
            ),
            ..self
        }
    }

    pub open spec fn responded(
        self,
        step_id: Seq<char>,
        choice: CheckInChoice,
        responded_at: Option<String>,
        response_time_ms: Option<u64>,
    ) -> SessionModel {
        match self.answer_target(step_id) {
            Some((i, mode)) => self.with_check_in(
                i,
                CheckInResult {
                    mode,
                    responded_at,
                    choice: Some(choice),
                    response_time_ms,
                    timed_out: false,
                },
            ),
            None => self,
        }
    }

    pub open spec fn timed_out(self, step_id: Seq<char>) -> SessionModel {
        match self.answer_target(step_id) {
            Some((i, mode)) => if self.step_runs[i].check_in_result matches Some(c) && c.choice is Some {
                self
            } else {
                self.with_check_in(
                    i,
                    CheckInResult {
                        mode,
                        responded_at: None,
                        choice: None,
                        response_time_ms: None,
                        timed_out: true,
                    },
                )
            },
            None => self,
        }
    }

    pub open spec fn totals(self) -> SessionTotals {
        totals_of(self.step_runs, self.steps, self.last_step_id@)
    }
}

fn saturating_add_u32(a: u32, b: u32) -> (r: u32)
    ensures
        r == add_u32(a, b),
{
    if a <= u32::MAX - b {
        a + b
    } else {
        u32::MAX
    }
}

/// The check-in entry a finished run starts with.
pub fn initial_check_in_result(result: StepRunResult, step_meta: Option<&Step>) -> (r: Option<
    CheckInResult,
>)
    ensures
        r == initial_check_in(
            result,
            match step_meta {
                Some(s) => Some(*s),
                None => None,
            },
        ),
{
    if result != StepRunResult::Completed {
        return None;
    }
    match step_meta {
        Some(step) => match step.check_in.mode {
            CheckInMode::Off => None,
            mode => Some(
                CheckInResult {
                    mode,
                    responded_at: None,
                    choice: None,
                    response_time_ms: None,
                    timed_out: false,
                },
            ),
        },
        None => None,
    }
}

/// The totals of an open session's runs.
pub fn build_totals(active: &ActiveSession) -> (r: SessionTotals)
    ensures
        r == active.model().totals(),
{
    let mut totals = SessionTotals {
        total_seconds: 0,
        work_seconds: 0,
        break_seconds: 0,
        cycles_count: 0,
        check_in_done_count: 0,
        check_in_skip_count: 0,
    };
    let ghost steps = active.steps@;
    let ghost last_id = active.last_step_id@;
    let mut i: usize = 0;
    while i < active.step_runs.len()
        invariant
            i <= active.step_runs@.len(),
            totals == totals_of(active.step_runs@.subrange(0, i as int), steps, last_id),
            steps == active.steps@,
            last_id == active.last_step_id@,
        decreases active.step_runs@.len() - i,
    {
        let run = &active.step_runs[i];
        let a = run.actual_duration_seconds;
        totals.total_seconds = saturating_add_u32(totals.total_seconds, a);
        let count_as_break = match active.step_by_id(run.step_id.as_str()) {
            Some(step) => step.count_as_break,
            None => false,
        };
        if count_as_break {
            totals.break_seconds = saturating_add_u32(totals.break_seconds, a);
        } else {
            totals.work_seconds = saturating_add_u32(totals.work_seconds, a);
        }
        if run.step_id == active.last_step_id && run.result != StepRunResult::Aborted {
            totals.cycles_count = saturating_add_u32(totals.cycles_count, 1);
        }
        match &run.check_in_result {
            Some(check_in) => match check_in.choice {
                Some(CheckInChoice::Done) => {
                    totals.check_in_done_count = saturating_add_u32(totals.check_in_done_count, 1);
                },
                Some(CheckInChoice::Skip) => {
                    totals.check_in_skip_count = saturating_add_u32(totals.check_in_skip_count, 1);
                },
                None => {
                    if check_in.timed_out {
                        totals.check_in_skip_count = saturating_add_u32(
                            totals.check_in_skip_count,
                            1,
                        );
                    }
                },
            },
            None => {},
        }
        proof {
            let prefix = active.step_runs@.subrange(0, i + 1);
            assert(prefix.drop_last() =~= active.step_runs@.subrange(0, i as int));
            assert(prefix.last() == active.step_runs@[i as int]);
        }
        i = i + 1;
    }
    assert(active.step_runs@.subrange(0, active.step_runs@.len() as int) =~= active.step_runs@);
    totals
}

/// Keeps at most one open session and records what happens in it.
pub struct SessionTracker {
    active: Option<ActiveSession>,
}

impl View for SessionTracker {
    type V = Option<SessionModel>;

    closed spec fn view(&self) -> Option<SessionModel> {
        match self.active {
            Some(a) => Some(a.model()),
            None => None,
        }
    }
}

impl SessionTracker {
    pub fn new() -> (r: Self)
        ensures
            r@ is None,
    {
        SessionTracker { active: None }
    }

    /// Opens a session with id `id` started at `started_at`, with `step` as its open step.
    /// Returns the id.
    pub fn start_session_at(
        &mut self,
        routine: &Routine,
        step: &Step,
        muted: bool,
        id: String,
        started_at: String,
    ) -> (r: String)
        ensures
            r == id,
            final(self)@ == Some(SessionModel::opened(*routine, *step, muted, id, started_at)),
    {
        let last_step_id = if routine.steps.len() > 0 {
            routine.steps[routine.steps.len() - 1].id.clone()
        } else {
            step.id.clone()
        };
        let current_step = Some(
            CurrentStep { step_id: step.id.clone(), started_at: started_at.clone(), sound_played: false },
        );
        let steps = duplicate_steps(&routine.steps);
        self.active = Some(
            ActiveSession {
                id: id.clone(),
                routine_id: routine.id.clone(),
                steps,
                last_step_id,
                started_at,
                current_step,
                step_runs: Vec::new(),
                muted_during_session: muted,
            },
        );
        proof {
            let m = self.active->0.model();
            assert(m.step_runs =~= Seq::<StepRun>::empty());
        }
        id
    }

    /// Opens a session stamped with the wall clock; its id is derived from that instant.
    pub fn start_session(&mut self, routine: &Routine, step: &Step, muted: bool) -> (r: String)
        ensures
            exists|started_at: String|
                final(self)@ == Some(SessionModel::opened(*routine, *step, muted, r, started_at)),
    {
        let started_at = now_rfc3339();
        let id = owned("session-").concat(started_at.as_str());
        self.start_session_at(routine, step, muted, id, started_at)
    }

    /// Opens `step` as the current step of the open session, if there is one.
    pub fn start_step_at(&mut self, step: &Step, sound_played: bool, started_at: String)
        ensures
            final(self)@ == (match old(self)@ {
                Some(m) => Some(m.step_started(*step, sound_played, started_at)),
                None => None,
            }),
    {
        match &mut self.active {
            Some(active) => {
                active.current_step = Some(
                    CurrentStep { step_id: step.id.clone(), started_at, sound_played },
                );
            },
            None => {},
        }
    }

    pub fn start_step(&mut self, step: &Step, sound_played: bool)
        ensures
            old(self)@ is None ==> final(self)@ is None,
            old(self)@ matches Some(m) ==> exists|started_at: String|
                final(self)@ == Some(#[trigger] m.step_started(*step, sound_played, started_at)),
    {
        let started_at = now_rfc3339();
        self.start_step_at(step, sound_played, started_at)
    }

    /// Closes the open step into a run, if it is `step_id`; a late call for another step
    /// changes nothing.
    pub fn finalize_current_step(
        &mut self,
        step_id: &str,
        result: StepRunResult,
        actual_duration_seconds: u32,
        ended_at: String,
    )
        ensures
            final(self)@ == (match old(self)@ {
                Some(m) => Some(m.finalized(step_id@, result, actual_duration_seconds, ended_at)),
                None => None,
            }),
    {
        let active = match &mut self.active {
            Some(a) => a,
            None => {
                return ;
            },
        };
        let ghost a0 = active.model();
        let should_finalize = match &active.current_step {
            Some(c) => text_eq(c.step_id.as_str(), step_id),
            None => false,
        };
        if !should_finalize {
            return ;
        }
        let current = active.current_step.take().unwrap();
        let step_meta = active.step_by_id(current.step_id.as_str());
        let planned_duration_seconds = match step_meta {
            Some(s) => s.duration_seconds,
            None => 0,
        };
        let check_in_result = initial_check_in_result(result, step_meta);
        let run = StepRun {
            step_id: current.step_id,
            planned_duration_seconds,
            actual_duration_seconds,
            started_at: current.started_at,
            ended_at: Some(ended_at),
            result,
            check_in_result,
            sound_played: current.sound_played,
        };
        active.step_runs.push(run);
        proof {
            assert(active.model() == a0.finalized(step_id@, result, actual_duration_seconds, ended_at));
        }
    }

    fn answer_target(active: &ActiveSession, step_id: &str) -> (r: Option<(usize, CheckInMode)>)
        ensures
            r matches Some((i, mode)) ==> active.model().answer_target(step_id@) == Some(
                (i as int, mode),
            ) && i < active.step_runs@.len(),
            r is None ==> active.model().answer_target(step_id@) is None,
    {
        let mode = match active.step_by_id(step_id) {
            Some(step) => step.check_in.mode,
            None => {
                return None;
            },
        };
        if mode == CheckInMode::Off {
            return None;
        }
        match active.find_latest_step_run_index(step_id) {
            Some(i) => {
                proof {
                    let n = active.step_runs@.len() as int;
                    lemma_latest_run_from_in_range(active.step_runs@, step_id@, n);
                }
                Some((i, mode))
            },
            None => None,
        }
    }

    /// Fills in the answer to a check-in on the most recent run of `step_id`.
    pub fn record_check_in_response(
        &mut self,
        step_id: &str,
        choice: CheckInChoice,
        responded_at: Option<String>,
        response_time_ms: Option<u64>,
    )
        ensures
            final(self)@ == (match old(self)@ {
                Some(m) => Some(m.responded(step_id@, choice, responded_at, response_time_ms)),
                None => None,
            }),
    {
        let active = match &mut self.active {
            Some(a) => a,
            None => {
                return ;
            },
        };
        let ghost a0 = active.model();
        match Self::answer_target(active, step_id) {
            Some((index, mode)) => {
                active.step_runs[index].check_in_result = Some(
                    CheckInResult {
                        mode,
                        responded_at,
                        choice: Some(choice),
                        response_time_ms,
                        timed_out: false,
                    },
                );
                proof {
                    assert(active.model().step_runs =~= a0.responded(
                        step_id@,
                        choice,
                        responded_at,
                        response_time_ms,
                    ).step_runs);
                }
            },
            None => {},
        }
    }

    /// Records that the check-in of the most recent run of `step_id` timed out, unless it
    /// was already answered.
    pub fn record_check_in_timeout(&mut self, step_id: &str)
        ensures
            final(self)@ == (match old(self)@ {
                Some(m) => Some(m.timed_out(step_id@)),
                None => None,
            }),
    {
        let active = match &mut self.active {
            Some(a) => a,
            None => {
                return ;
            },
        };
        let ghost a0 = active.model();
        match Self::answer_target(active, step_id) {
            Some((index, mode)) => {
                let answered = match &active.step_runs[index].check_in_result {
                    Some(c) => c.choice.is_some(),
                    None => false,
                };
                if answered {
                    return ;
                }
                active.step_runs[index].check_in_result = Some(
                    CheckInResult {
                        mode,
                        responded_at: None,
                        choice: None,
                        response_time_ms: None,
                        timed_out: true,
                    },
                );
                proof {
                    assert(active.model().step_runs =~= a0.timed_out(step_id@).step_runs);
                }
            },
            None => {},
        }
    }

    pub fn mark_muted(&mut self)
        ensures
            final(self)@ == (match old(self)@ {
                Some(m) => Some(SessionModel { muted_during_session: true, ..m }),
                None => None,
            }),
    {
        match &mut self.active {
            Some(active) => {
                active.muted_during_session = true;
            },
            None => {},
        }
    }

    /// Closes the open session and hands it out with its totals.
    pub fn finish_session(&mut self, ended_at: String) -> (r: Option<Session>)
        ensures
            final(self)@ is None,
            old(self)@ is None ==> r is None,
            old(self)@ matches Some(m) ==> (r matches Some(s) && s.id == m.id && s.routine_id
                == m.routine_id && s.started_at == m.started_at && s.ended_at == Some(ended_at)
                && s.step_runs@ == m.step_runs && s.totals == m.totals() && s.muted_during_session
                == m.muted_during_session),
    {
        let active = match self.active.take() {
            Some(a) => a,
            None => {
                return None;
            },
        };
        let totals = build_totals(&active);
        Some(
            Session {
                id: active.id,
                routine_id: active.routine_id,
                started_at: active.started_at,
                ended_at: Some(ended_at),
                step_runs: active.step_runs,
                totals,
                muted_during_session: active.muted_during_session,
            },
        )
    }
}

/// An answer to a check-in lands on the most recent run of its step and carries the
/// choice given.
pub proof fn answer_carries_choice(
    m: SessionModel,
    step_id: Seq<char>,
    choice: CheckInChoice,
    responded_at: Option<String>,
    response_time_ms: Option<u64>,
)
    requires
        m.answer_target(step_id) is Some,
    ensures
        ({
            let (i, mode) = m.answer_target(step_id)->0;
            let after = m.responded(step_id, choice, responded_at, response_time_ms);
            &&& after.step_runs.len() == m.step_runs.len()
            &&& after.step_runs[i].check_in_result matches Some(c) && c.choice == Some(choice)
                && !c.timed_out && c.mode == mode
            &&& forall|j: int| 0 <= j < m.step_runs.len() && j != i ==> after.step_runs[j]
                == m.step_runs[j]
        }),
{
    lemma_latest_run_from_in_range(m.step_runs, step_id, m.step_runs.len() as int);
}

/// A timeout on an unanswered check-in records it as timed out, without a choice; an
/// answered one stays as it was.
pub proof fn timeout_marks_unanswered(m: SessionModel, step_id: Seq<char>)
    requires
        m.answer_target(step_id) is Some,
    ensures
        ({
            let (i, _) = m.answer_target(step_id)->0;
            let after = m.timed_out(step_id);
            &&& (m.step_runs[i].check_in_result matches Some(c) && c.choice is Some) ==> after == m
            &&& !(m.step_runs[i].check_in_result matches Some(c) && c.choice is Some) ==> (
            after.step_runs[i].check_in_result matches Some(c) && c.timed_out && c.choice is None)
        }),
{
    lemma_latest_run_from_in_range(m.step_runs, step_id, m.step_runs.len() as int);
}

proof fn lemma_latest_run_from_in_range(runs: Seq<StepRun>, id: Seq<char>, n: int)
    ensures
        latest_run_from(runs, id, n) matches Some(i) ==> 0 <= i < n && i < runs.len(),
    decreases n,
{
    if n > 0 && n <= runs.len() && runs[n - 1].step_id@ != id {
        lemma_latest_run_from_in_range(runs, id, n - 1);
    }
}

} // verus!
