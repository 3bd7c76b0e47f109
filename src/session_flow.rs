//! How each engine outcome is written into the session record: which step run closes,
//! with what result and duration, which opens, where a check-in answer goes, and when the
//! session is handed out.

use vstd::prelude::*;

use crate::models::{CheckInChoice, Session, Step, StepRunResult};
use crate::session_tracker::{SessionModel, SessionTracker};
use crate::transitions::{final_step_result, seconds_spent};

verus! {

pub open spec fn finalize_opt(
    m: Option<SessionModel>,
    step_id: Seq<char>,
    result: StepRunResult,
    actual: u32,
    ended_at: String,
) -> Option<SessionModel> {
    match m {
        Some(x) => Some(x.finalized(step_id, result, actual, ended_at)),
        None => None,
    }
}

pub open spec fn respond_opt(
    m: Option<SessionModel>,
    step_id: Seq<char>,
    choice: CheckInChoice,
    responded_at: Option<String>,
    response_time_ms: Option<u64>,
) -> Option<SessionModel> {
    match m {
        Some(x) => Some(x.responded(step_id, choice, responded_at, response_time_ms)),
        None => None,
    }
}

pub open spec fn timeout_opt(m: Option<SessionModel>, step_id: Seq<char>) -> Option<SessionModel> {
    match m {
        Some(x) => Some(x.timed_out(step_id)),
        None => None,
    }
}

/// `r` is the session `m` closes into when it ends at `ended_at`.
pub open spec fn finished_from(r: Option<Session>, m: Option<SessionModel>, ended_at: String) -> bool {
    match m {
        None => r is None,
        Some(x) => r matches Some(s) && s.id == x.id && s.routine_id == x.routine_id && s.started_at
            == x.started_at && s.ended_at == Some(ended_at) && s.step_runs@ == x.step_runs && s.totals
            == x.totals() && s.muted_during_session == x.muted_during_session,
    }
}

/// Seconds spent in a step cut short with `remaining` seconds left.
pub open spec fn spent(planned: u32, remaining: u32) -> u32 {
    if planned >= remaining {
        (planned - remaining) as u32
    } else {
        0
    }
}

/// The tracker after opening `step` at `now`.
pub open spec fn opened_step(m: Option<SessionModel>, step: Step, sound_played: bool, now: String) -> Option<
    SessionModel,
> {
    match m {
        Some(x) => Some(x.step_started(step, sound_played, now)),
        None => None,
    }
}

/// What a heartbeat tick did to the record, before the session may close.
pub open spec fn tick_recorded(
    m: Option<SessionModel>,
    previous: Option<Step>,
    previous_remaining: Option<u32>,
    gate_step: Option<Step>,
    entered: Option<Step>,
    sound_played: bool,
    timed_out_step: Option<Seq<char>>,
    completed: bool,
    now: String,
) -> Option<SessionModel> {
    let m1 = match gate_step {
        Some(g) => finalize_opt(m, g.id@, StepRunResult::Completed, g.duration_seconds, now),
        None => m,
    };
    let m2 = match entered {
        Some(e) => {
            let closed = match previous {
                Some(p) => finalize_opt(m1, p.id@, StepRunResult::Completed, p.duration_seconds, now),
                None => m1,
            };
            opened_step(closed, e, sound_played, now)
        },
        None => m1,
    };
    let m3 = match timed_out_step {
        Some(id) => timeout_opt(m2, id),
        None => m2,
    };
    if completed {
        match previous {
            Some(p) => {
                let remaining = match previous_remaining {
                    Some(r) => r,
                    None => 0,
                };
                finalize_opt(
                    m3,
                    p.id@,
                    if remaining > 0 {
                        StepRunResult::Aborted
                    } else {
                        StepRunResult::Completed
                    },
                    spent(p.duration_seconds, remaining),
                    now,
                )
            },
            None => m3,
        }
    } else {
        m3
    }
}

/// Writes a heartbeat tick into the record: a step held by a blocking check-in closes as
/// completed; on a step change the previous step closes as completed and the entered one
/// opens; a timed-out prompt is recorded; and when the routine completed, the step that
/// was current closes (aborted if time was left in it) and the session is handed out.
pub fn record_tick(
    tracker: &mut SessionTracker,
    previous: Option<&Step>,
    previous_remaining: Option<u32>,
    gate_step: Option<&Step>,
    entered: Option<&Step>,
    sound_played: bool,
    timed_out_step: Option<&str>,
    completed: bool,
    now: String,
) -> (r: Option<Session>)
    ensures
        ({
            let m = tick_recorded(
                old(tracker)@,
                match previous {
                    Some(p) => Some(*p),
                    None => None,
                },
                previous_remaining,
                match gate_step {
                    Some(g) => Some(*g),
                    None => None,
                },
                match entered {
                    Some(e) => Some(*e),
                    None => None,
                },
                sound_played,
                match timed_out_step {
                    Some(t) => Some(t@),
                    None => None,
                },
                completed,
                now,
            );
            &&& completed ==> final(tracker)@ is None && finished_from(r, m, now)
            &&& !completed ==> final(tracker)@ == m && r is None
        }),
{
    match gate_step {
        Some(g) => tracker.finalize_current_step(
            g.id.as_str(),
            StepRunResult::Completed,
            g.duration_seconds,
            now.clone(),
        ),
        None => {},
    }
    match entered {
        Some(e) => {
            match previous {
                Some(p) => tracker.finalize_current_step(
                    p.id.as_str(),
                    StepRunResult::Completed,
                    p.duration_seconds,
                    now.clone(),
                ),
                None => {},
            }
            tracker.start_step_at(e, sound_played, now.clone());
        },
        None => {},
    }
    match timed_out_step {
        Some(id) => tracker.record_check_in_timeout(id),
        None => {},
    }
    if completed {
        match previous {
            Some(p) => {
                let remaining = match previous_remaining {
                    Some(r) => r,
                    None => 0,
                };
                tracker.finalize_current_step(
                    p.id.as_str(),
                    final_step_result(remaining),
                    seconds_spent(p.duration_seconds, remaining),
                    now.clone(),
                );
            },
            None => {},
        }
        tracker.finish_session(now)
    } else {
        None
    }
}

/// What a skip did to the record, before the session may close.
pub open spec fn skip_recorded(
    m: Option<SessionModel>,
    current: Option<Step>,
    current_remaining: u32,
    pending_gate: bool,
    gate_step: Option<Step>,
    entered: Option<Step>,
    sound_played: bool,
    now: String,
) -> Option<SessionModel> {
    let m1 = match current {
        Some(c) => if pending_gate {
            respond_opt(m, c.id@, CheckInChoice::Skip, Some(now), None)
        } else if gate_step is Some {
            finalize_opt(
                m,
                gate_step->0.id@,
                StepRunResult::Completed,
                gate_step->0.duration_seconds,
                now,
            )
        } else {
            finalize_opt(
                m,
                c.id@,
                StepRunResult::Skipped,
                spent(c.duration_seconds, current_remaining),
                now,
            )
        },
        None => m,
    };
    match entered {
        Some(e) => opened_step(m1, e, sound_played, now),
        None => m1,
    }
}

/// Writes a skip into the record: a blocking check-in of the current step is answered
/// with `Skip`; a skip that opened a blocking check-in (`gate_step`) closes that step as
/// completed, as a tick does; otherwise the current step closes as skipped with the time
/// spent in it. The entered step opens, and when the routine completed, the session is
/// handed out.
pub fn record_skip(
    tracker: &mut SessionTracker,
    current: Option<&Step>,
    current_remaining: u32,
    pending_gate: bool,
    gate_step: Option<&Step>,
    entered: Option<&Step>,
    sound_played: bool,
    completed: bool,
    now: String,
) -> (r: Option<Session>)
    ensures
        ({
            let m = skip_recorded(
                old(tracker)@,
                match current {
                    Some(c) => Some(*c),
                    None => None,
                },
                current_remaining,
                pending_gate,
                match gate_step {
                    Some(g) => Some(*g),
                    None => None,
                },
                match entered {
                    Some(e) => Some(*e),
                    None => None,
                },
                sound_played,
                now,
            );
            &&& completed ==> final(tracker)@ is None && finished_from(r, m, now)
            &&& !completed ==> final(tracker)@ == m && r is None
        }),
{
    match current {
        Some(c) => {
            if pending_gate {
                tracker.record_check_in_response(
                    c.id.as_str(),
                    CheckInChoice::Skip,
                    Some(now.clone()),
                    None,
                );
            } else if let Some(g) = gate_step {
                tracker.finalize_current_step(
                    g.id.as_str(),
                    StepRunResult::Completed,
                    g.duration_seconds,
                    now.clone(),
                );
            } else {
                tracker.finalize_current_step(
                    c.id.as_str(),
                    StepRunResult::Skipped,
                    seconds_spent(c.duration_seconds, current_remaining),
                    now.clone(),
                );
            }
        },
        None => {},
    }
    match entered {
        Some(e) => tracker.start_step_at(e, sound_played, now.clone()),
        None => {},
    }
    if completed {
        tracker.finish_session(now)
    } else {
        None
    }
}

/// Writes a check-in answer into the record: it goes to the most recent run of the step;
/// the entered step opens; and when the routine completed, the session is handed out.
pub fn record_response(
    tracker: &mut SessionTracker,
    step_id: &str,
    choice: CheckInChoice,
    responded_at: Option<String>,
    response_time_ms: Option<u64>,
    entered: Option<&Step>,
    sound_played: bool,
    completed: bool,
    now: String,
) -> (r: Option<Session>)
    ensures
        ({
            let m1 = respond_opt(old(tracker)@, step_id@, choice, responded_at, response_time_ms);
            let m = match entered {
                Some(e) => opened_step(m1, *e, sound_played, now),
                None => m1,
            };
            &&& completed ==> final(tracker)@ is None && finished_from(r, m, now)
            &&& !completed ==> final(tracker)@ == m && r is None
        }),
{
    tracker.record_check_in_response(step_id, choice, responded_at, response_time_ms);
    match entered {
        Some(e) => tracker.start_step_at(e, sound_played, now.clone()),
        None => {},
    }
    if completed {
        tracker.finish_session(now)
    } else {
        None
    }
}

/// Writes a stop into the record: the current step closes as aborted with the time spent
/// in it, and the session is handed out.
pub fn record_stop(
    tracker: &mut SessionTracker,
    current: Option<&Step>,
    current_remaining: u32,
    now: String,
) -> (r: Option<Session>)
    ensures
        final(tracker)@ is None,
        finished_from(
            r,
            match current {
                Some(c) => finalize_opt(
                    old(tracker)@,
                    c.id@,
                    StepRunResult::Aborted,
                    spent(c.duration_seconds, current_remaining),
                    now,
                ),
                None => old(tracker)@,
            },
            now,
        ),
{
    match current {
        Some(c) => tracker.finalize_current_step(
            c.id.as_str(),
            StepRunResult::Aborted,
            seconds_spent(c.duration_seconds, current_remaining),
            now.clone(),
        ),
        None => {},
    }
    tracker.finish_session(now)
}

} // verus!
