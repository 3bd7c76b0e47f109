//! The crash-recovery snapshot: a small durable record of what is running, kept up to
//! date on every transition, from which a session is rebuilt after a crash.
//!
//! The functions here compute the snapshot to write (or `None` when nothing changes) and
//! the session to save; reading and writing them is the caller's part.

use vstd::prelude::*;

use crate::clock::{duration_seconds_between, now_rfc3339, rfc3339_instant, seconds_between};
use crate::models::{Routine, Session, SessionTotals, Step, StepRun, StepRunResult};
use crate::session_tracker::{find_step, step_with_id};
use crate::text::{owned, text_eq};

verus! {

/// What is running, as far as a later process needs to know.
#[derive(Debug, Clone)]
pub struct ActiveSessionSnapshot {
    pub session_id: String,
    pub routine_id: String,
    pub started_at: String,
    pub current_step_id: String,
    pub current_step_started_at: String,
    pub current_step_sound_played: bool,
    pub paused_at: Option<String>,
    pub muted_during_session: bool,
}

impl ActiveSessionSnapshot {
    pub fn mark_paused(&mut self, paused_at: String)
        ensures
            *final(self) == (ActiveSessionSnapshot { paused_at: Some(paused_at), ..*old(self) }),
    {
        self.paused_at = Some(paused_at);
    }

    pub fn clear_pause(&mut self)
        ensures
            *final(self) == (ActiveSessionSnapshot { paused_at: None, ..*old(self) }),
    {
        self.paused_at = None;
    }

    pub fn mark_muted(&mut self)
        ensures
            *final(self) == (ActiveSessionSnapshot { muted_during_session: true, ..*old(self) }),
    {
        self.muted_during_session = true;
    }
}

/// Whole seconds between two RFC 3339 texts, zero when either does not parse.
pub open spec fn seconds_or_zero(start: Seq<char>, end: Seq<char>) -> u32 {
    match (rfc3339_instant(start), rfc3339_instant(end)) {
        (Some(a), Some(b)) => seconds_between(a, b),
        _ => 0,
    }
}

/// The first routine of `routines` with id `id`, from position `i` on.
pub open spec fn find_routine_from(routines: Seq<Routine>, id: Seq<char>, i: int) -> Option<Routine>
    decreases routines.len() - i,
{
    if i < 0 || i >= routines.len() {
        None
    } else if routines[i].id@ == id {
        Some(routines[i])
    } else {
        find_routine_from(routines, id, i + 1)
    }
}

/// The step a snapshot names, looked up in the routine it names; `None` when either is
/// gone.
pub open spec fn snapshot_step(s: ActiveSessionSnapshot, routines: Seq<Routine>) -> Option<Step> {
    match find_routine_from(routines, s.routine_id@, 0) {
        Some(r) => find_step(r.steps@, s.current_step_id@),
        None => None,
    }
}

/// When a crashed session is taken to have ended: at its pause, or else `now`.
pub open spec fn recovery_end(s: ActiveSessionSnapshot, now: String) -> String {
    match s.paused_at {
        Some(p) => p,
        None => now,
    }
}

pub open spec fn recovered_total(s: ActiveSessionSnapshot, now: String) -> u32 {
    seconds_or_zero(s.started_at@, recovery_end(s, now)@)
}

/// Seconds in the last step: since it started, but no more than since the session started.
pub open spec fn recovered_step_seconds(s: ActiveSessionSnapshot, now: String) -> u32 {
    let step = seconds_or_zero(s.current_step_started_at@, recovery_end(s, now)@);
    let total = recovered_total(s, now);
    if step <= total {
        step
    } else {
        total
    }
}

pub open spec fn recovered_totals(s: ActiveSessionSnapshot, routines: Seq<Routine>, now: String) -> SessionTotals {
    let total = recovered_total(s, now);
    let step = recovered_step_seconds(s, now);
    let brk = snapshot_step(s, routines) matches Some(st) && st.count_as_break;
    SessionTotals {
        total_seconds: total,
        work_seconds: if brk {
            (total - step) as u32
        } else {
            total
        },
        break_seconds: if brk {
            step
        } else {
            0
        },
        cycles_count: 0,
        check_in_done_count: 0,
        check_in_skip_count: 0,
    }
}

pub open spec fn recovered_run(s: ActiveSessionSnapshot, routines: Seq<Routine>, now: String) -> StepRun {
    StepRun {
        step_id: s.current_step_id,
        planned_duration_seconds: match snapshot_step(s, routines) {
            Some(st) => st.duration_seconds,
            None => 0,
        },
        actual_duration_seconds: recovered_step_seconds(s, now),
        started_at: s.current_step_started_at,
        ended_at: Some(recovery_end(s, now)),
        result: StepRunResult::Aborted,
        check_in_result: None,
        sound_played: s.current_step_sound_played,
    }
}

/// The run rebuilt from a snapshot is aborted, and its length is the time since its step
/// started, clamped to the time since the session started.
pub proof fn recovered_run_is_aborted_and_clamped(
    s: ActiveSessionSnapshot,
    routines: Seq<Routine>,
    now: String,
)
    ensures
        recovered_run(s, routines, now).result == StepRunResult::Aborted,
        recovered_run(s, routines, now).actual_duration_seconds == (if seconds_or_zero(
            s.current_step_started_at@,
            recovery_end(s, now)@,
        ) <= seconds_or_zero(s.started_at@, recovery_end(s, now)@) {
            seconds_or_zero(s.current_step_started_at@, recovery_end(s, now)@)
        } else {
            seconds_or_zero(s.started_at@, recovery_end(s, now)@)
        }),
        recovered_totals(s, routines, now).work_seconds + recovered_totals(
            s,
            routines,
            now,
        ).break_seconds == recovered_totals(s, routines, now).total_seconds,
{
}

fn find_routine<'a>(routines: &'a Vec<Routine>, id: &str) -> (r: Option<&'a Routine>)
    ensures
        r is Some <==> find_routine_from(routines@, id@, 0) is Some,
        r matches Some(x) ==> *x == find_routine_from(routines@, id@, 0)->0,
{
    let mut i: usize = 0;
    while i < routines.len()
        invariant
            i <= routines@.len(),
            find_routine_from(routines@, id@, 0) == find_routine_from(routines@, id@, i as int),
        decreases routines@.len() - i,
    {
        if text_eq(routines[i].id.as_str(), id) {
            return Some(&routines[i]);
        }
        i = i + 1;
    }
    None
}

/// The snapshot written when a routine starts: session and step both start at `now`.
pub fn start_active_session_at(
    routine_id: &str,
    step: &Step,
    muted: bool,
    session_id: String,
    now: String,
) -> (r: ActiveSessionSnapshot)
    ensures
        r.session_id == session_id,
        r.routine_id@ == routine_id@,
        r.started_at == now,
        r.current_step_id == step.id,
        r.current_step_started_at == now,
        !r.current_step_sound_played,
        r.paused_at is None,
        r.muted_during_session == muted,
{
    ActiveSessionSnapshot {
        session_id,
        routine_id: owned(routine_id),
        started_at: now.clone(),
        current_step_id: step.id.clone(),
        current_step_started_at: now,
        current_step_sound_played: false,
        paused_at: None,
        muted_during_session: muted,
    }
}

/// The snapshot written when a routine starts, stamped with the wall clock.
pub fn start_active_session(routine_id: &str, step: &Step, muted: bool) -> (r: ActiveSessionSnapshot)
    ensures
        r.routine_id@ == routine_id@,
        r.started_at == r.current_step_started_at,
        r.current_step_id == step.id,
        !r.current_step_sound_played,
        r.paused_at is None,
        r.muted_during_session == muted,
{
    let now = now_rfc3339();
    let session_id = owned("session-").concat(now.as_str());
    start_active_session_at(routine_id, step, muted, session_id, now)
}

/// The snapshot to write on a step transition: the new step, its start, whether its
/// sound played, and no pause. `None` when no snapshot exists.
pub fn update_active_step_at(
    snapshot: Option<ActiveSessionSnapshot>,
    step: &Step,
    sound_played: bool,
    now: String,
) -> (r: Option<ActiveSessionSnapshot>)
    ensures
        r == (match snapshot {
            Some(s) => Some(
                ActiveSessionSnapshot {
                    current_step_id: step.id,
                    current_step_started_at: now,
                    current_step_sound_played: sound_played,
                    paused_at: None,
                    ..s
                },
            ),
            None => None,
        }),
{
    match snapshot {
        Some(mut s) => {
            s.current_step_id = step.id.clone();
            s.current_step_started_at = now;
            s.current_step_sound_played = sound_played;
            s.paused_at = None;
            Some(s)
        },
        None => None,
    }
}

pub fn update_active_step(
    snapshot: Option<ActiveSessionSnapshot>,
    step: &Step,
    sound_played: bool,
) -> (r: Option<ActiveSessionSnapshot>)
    ensures
        snapshot is None ==> r is None,
        snapshot matches Some(s) ==> (r matches Some(t) && t == (ActiveSessionSnapshot {
            current_step_id: step.id,
            current_step_started_at: t.current_step_started_at,
            current_step_sound_played: sound_played,
            paused_at: None,
            ..s
        })),
{
    let now = now_rfc3339();
    update_active_step_at(snapshot, step, sound_played, now)
}

/// The snapshot to write when the routine pauses at `now`; `None` when there is no
/// snapshot or it already records a pause.
pub fn mark_paused_at(snapshot: Option<ActiveSessionSnapshot>, now: String) -> (r: Option<
    ActiveSessionSnapshot,
>)
    ensures
        r == (match snapshot {
            Some(s) => if s.paused_at is None {
                Some(ActiveSessionSnapshot { paused_at: Some(now), ..s })
            } else {
                None
            },
            None => None,
        }),
{
    match snapshot {
        Some(mut s) => {
            if s.paused_at.is_none() {
                s.mark_paused(now);
                Some(s)
            } else {
                None
            }
        },
        None => None,
    }
}

pub fn mark_paused(snapshot: Option<ActiveSessionSnapshot>) -> (r: Option<ActiveSessionSnapshot>)
    ensures
        r is Some <==> (snapshot matches Some(s) && s.paused_at is None),
        r matches Some(t) ==> t == (ActiveSessionSnapshot {
            paused_at: t.paused_at,
            ..snapshot->0
        }) && t.paused_at is Some,
{
    let now = now_rfc3339();
    mark_paused_at(snapshot, now)
}

/// The snapshot to write when the routine resumes; `None` when there is no snapshot or
/// it records no pause.
pub fn mark_resumed(snapshot: Option<ActiveSessionSnapshot>) -> (r: Option<ActiveSessionSnapshot>)
    ensures
        r == (match snapshot {
            Some(s) => if s.paused_at is Some {
                Some(ActiveSessionSnapshot { paused_at: None, ..s })
            } else {
                None
            },
            None => None,
        }),
{
    match snapshot {
        Some(mut s) => {
            if s.paused_at.is_some() {
                s.clear_pause();
                Some(s)
            } else {
                None
            }
        },
        None => None,
    }
}

/// The snapshot to write when sound is muted during the session; `None` when there is no
/// snapshot or it already records a mute.
pub fn mark_muted(snapshot: Option<ActiveSessionSnapshot>) -> (r: Option<ActiveSessionSnapshot>)
    ensures
        r == (match snapshot {
            Some(s) => if !s.muted_during_session {
                Some(ActiveSessionSnapshot { muted_during_session: true, ..s })
            } else {
                None
            },
            None => None,
        }),
{
    match snapshot {
        Some(mut s) => {
            if !s.muted_during_session {
                s.mark_muted();
                Some(s)
            } else {
                None
            }
        },
        None => None,
    }
}

fn seconds_between_or_zero(start: &str, end: &str) -> (r: u32)
    ensures
        r == seconds_or_zero(start@, end@),
{
    match duration_seconds_between(start, end) {
        Some(s) => s,
        None => 0,
    }
}

/// Rebuilds the session a crashed process left behind from its snapshot: one `Aborted`
/// run for the step that was current, ending at the pause if there was one and else at
/// `now`. `None` when there is no snapshot. The caller saves the session and then
/// deletes the snapshot.
pub fn recover_aborted_session_at(
    snapshot: Option<ActiveSessionSnapshot>,
    routines: &Vec<Routine>,
    now: String,
) -> (r: Option<Session>)
    ensures
        snapshot is None ==> r is None,
        snapshot matches Some(s) ==> (r matches Some(session) && session.id == s.session_id
            && session.routine_id == s.routine_id && session.started_at == s.started_at
            && session.ended_at == Some(recovery_end(s, now)) && session.step_runs@ == seq![
            recovered_run(s, routines@, now)] && session.totals == recovered_totals(
            s,
            routines@,
            now,
        ) && session.muted_during_session == s.muted_during_session),
{
    let s = match snapshot {
        Some(s) => s,
        None => {
            return None;
        },
    };
    let ended_at = match &s.paused_at {
        Some(p) => p.clone(),
        None => now,
    };
    let total_seconds = seconds_between_or_zero(s.started_at.as_str(), ended_at.as_str());
    let since_step = seconds_between_or_zero(s.current_step_started_at.as_str(), ended_at.as_str());
    let step_seconds = if since_step <= total_seconds {
        since_step
    } else {
        total_seconds
    };
    let mut planned_duration_seconds: u32 = 0;
    let mut count_as_break = false;
    match find_routine(routines, s.routine_id.as_str()) {
        Some(routine) => match step_with_id(&routine.steps, s.current_step_id.as_str()) {
            Some(step) => {
                planned_duration_seconds = step.duration_seconds;
                count_as_break = step.count_as_break;
            },
            None => {},
        },
        None => {},
    }
    let (mut work_seconds, break_seconds) = if count_as_break {
        (0u32, step_seconds)
    } else {
        (step_seconds, 0u32)
    };
    if total_seconds > work_seconds + break_seconds {
        work_seconds = total_seconds - break_seconds;
    }
    let totals = SessionTotals {
        total_seconds,
        work_seconds,
        break_seconds,
        cycles_count: 0,
        check_in_done_count: 0,
        check_in_skip_count: 0,
    };
    let step_run = StepRun {
        step_id: s.current_step_id.clone(),
        planned_duration_seconds,
        actual_duration_seconds: step_seconds,
        started_at: s.current_step_started_at.clone(),
        ended_at: Some(ended_at.clone()),
        result: StepRunResult::Aborted,
        check_in_result: None,
        sound_played: s.current_step_sound_played,
    };
    let session = Session {
        id: s.session_id.clone(),
        routine_id: s.routine_id.clone(),
        started_at: s.started_at.clone(),
        ended_at: Some(ended_at),
        step_runs: vec![step_run],
        totals,
        muted_during_session: s.muted_during_session,
    };
    proof {
        assert(session.step_runs@ =~= seq![recovered_run(s, routines@, now)]);
    }
    Some(session)
}

/// Rebuilds a crashed session as above, ending it at the wall clock's present when it was
/// not paused.
pub fn recover_aborted_session(snapshot: Option<ActiveSessionSnapshot>, routines: &Vec<Routine>) -> (r:
    Option<Session>)
    ensures
        snapshot is None ==> r is None,
        snapshot matches Some(s) ==> exists|now: String|
            (r matches Some(session) && session.id == s.session_id && session.step_runs@ == seq![
                #[trigger] recovered_run(s, routines@, now)] && session.totals == recovered_totals(
                s,
                routines@,
                now,
            ) && session.ended_at == Some(recovery_end(s, now))),
{
    let now = now_rfc3339();
    recover_aborted_session_at(snapshot, routines, now)
}

} // verus!
