//! Operations on stored lists of routines and sessions: replacing a record by id, and
//! selecting sessions by start time.

use vstd::prelude::*;

use crate::clock::{nanos_between, rfc3339_instant, rfc3339_within};
use crate::models::{Routine, Session};
use crate::text::text_eq;

verus! {

/// The position of the first routine with id `id`, from position `i` on.
pub open spec fn routine_position(routines: Seq<Routine>, id: Seq<char>, i: int) -> Option<int>
    decreases routines.len() - i,
{
    if i < 0 || i >= routines.len() {
        None
    } else if routines[i].id@ == id {
        Some(i)
    } else {
        routine_position(routines, id, i + 1)
    }
}

/// The position of the first session with id `id`, from position `i` on.
pub open spec fn session_position(sessions: Seq<Session>, id: Seq<char>, i: int) -> Option<int>
    decreases sessions.len() - i,
{
    if i < 0 || i >= sessions.len() {
        None
    } else if sessions[i].id@ == id {
        Some(i)
    } else {
        session_position(sessions, id, i + 1)
    }
}

proof fn lemma_routine_position_bounds(routines: Seq<Routine>, id: Seq<char>, i: int)
    ensures
        routine_position(routines, id, i) matches Some(p) ==> 0 <= p < routines.len(),
    decreases routines.len() - i,
{
    if 0 <= i < routines.len() && routines[i].id@ != id {
        lemma_routine_position_bounds(routines, id, i + 1);
    }
}

proof fn lemma_session_position_bounds(sessions: Seq<Session>, id: Seq<char>, i: int)
    ensures
        session_position(sessions, id, i) matches Some(p) ==> 0 <= p < sessions.len(),
    decreases sessions.len() - i,
{
    if 0 <= i < sessions.len() && sessions[i].id@ != id {
        lemma_session_position_bounds(sessions, id, i + 1);
    }
}

/// Replaces the first routine with the same id, or appends the routine.
pub fn upsert_routine(routines: &mut Vec<Routine>, routine: Routine)
    ensures
        final(routines)@ == (match routine_position(old(routines)@, routine.id@, 0) {
            Some(p) => old(routines)@.update(p, routine),
            None => old(routines)@.push(routine),
        }),
{
    let mut i: usize = 0;
    while i < routines.len()
        invariant
            i <= routines@.len(),
            routines@ == old(routines)@,
            routine_position(old(routines)@, routine.id@, 0) == routine_position(
                old(routines)@,
                routine.id@,
                i as int,
            ),
        decreases routines@.len() - i,
    {
        if text_eq(routines[i].id.as_str(), routine.id.as_str()) {
            routines.set(i, routine);
            return ;
        }
        i = i + 1;
    }
    routines.push(routine);
}

/// Replaces the first session with the same id, or appends the session.
pub fn upsert_session(sessions: &mut Vec<Session>, session: Session)
    ensures
        final(sessions)@ == (match session_position(old(sessions)@, session.id@, 0) {
            Some(p) => old(sessions)@.update(p, session),
            None => old(sessions)@.push(session),
        }),
{
    let mut i: usize = 0;
    while i < sessions.len()
        invariant
            i <= sessions@.len(),
            sessions@ == old(sessions)@,
            session_position(old(sessions)@, session.id@, 0) == session_position(
                old(sessions)@,
                session.id@,
                i as int,
            ),
        decreases sessions@.len() - i,
    {
        if text_eq(sessions[i].id.as_str(), session.id.as_str()) {
            sessions.set(i, session);
            return ;
        }
        i = i + 1;
    }
    sessions.push(session);
}

/// The routine a start without an explicit choice runs: the one started last if it
/// still exists, else the first.
pub fn routine_to_start(routines: &Vec<Routine>, last_id: Option<&str>) -> (r: Option<usize>)
    ensures
        (last_id matches Some(id) && routine_position(routines@, id@, 0) is Some) ==> (r matches Some(
            k,
        ) && Some(k as int) == routine_position(routines@, last_id->0@, 0)),
        !(last_id matches Some(id) && routine_position(routines@, id@, 0) is Some) ==> r == (if routines@.len()
            > 0 {
            Some(0usize)
        } else {
            None
        }),
{
    match last_id {
        Some(id) => {
            let mut i: usize = 0;
            while i < routines.len()
                invariant
                    i <= routines@.len(),
                    last_id == Some(id),
                    routine_position(routines@, id@, 0) == routine_position(routines@, id@, i as int),
                decreases routines@.len() - i,
            {
                if text_eq(routines[i].id.as_str(), id) {
                    assert(routine_position(routines@, id@, i as int) == Some(i as int));
                    return Some(i);
                }
                i = i + 1;
            }
        },
        None => {},
    }
    if routines.len() > 0 {
        Some(0)
    } else {
        None
    }
}

/// Whether RFC 3339 text `s` denotes an instant in `[f, t]`.
pub open spec fn starts_within(s: Seq<char>, f: (i64, u32), t: (i64, u32)) -> bool {
    rfc3339_instant(s) matches Some(v) && nanos_between(f, v) >= 0 && nanos_between(v, t) >= 0
}

/// The sessions, in order, whose start lies in `[f, t]`.
pub open spec fn sessions_within(sessions: Seq<Session>, f: (i64, u32), t: (i64, u32)) -> Seq<Session>
    decreases sessions.len(),
{
    if sessions.len() == 0 {
        Seq::empty()
    } else {
        let rest = sessions_within(sessions.drop_last(), f, t);
        if starts_within(sessions.last().started_at@, f, t) {
            rest.push(sessions.last())
        } else {
            rest
        }
    }
}

pub open spec fn all_starts_parse(sessions: Seq<Session>) -> bool {
    forall|i: int| 0 <= i < sessions.len() ==> (#[trigger] rfc3339_instant(sessions[i].started_at@)) is Some
}

/// The sessions whose start lies between `from` and `to`, both included. Fails with the
/// first text, of `from`, `to` and the sessions' starts in that order, that is not
/// RFC 3339.
pub fn sessions_in_range(sessions: Vec<Session>, from: &str, to: &str) -> (r: Result<Vec<Session>, String>)
    ensures
        r is Ok <==> rfc3339_instant(from@) is Some && rfc3339_instant(to@) is Some && all_starts_parse(
            sessions@,
        ),
        r matches Ok(v) ==> v@ == sessions_within(
            sessions@,
            rfc3339_instant(from@)->0,
            rfc3339_instant(to@)->0,
        ),
{
    match rfc3339_within(from, from, to) {
        None => {
            return Err(String::from_str("invalid range bound"));
        },
        Some(_) => {},
    }
    let ghost f = rfc3339_instant(from@)->0;
    let ghost t = rfc3339_instant(to@)->0;
    let ghost all = sessions@;
    let n = sessions.len();
    let mut rest = sessions;
    let mut kept: Vec<Session> = Vec::new();
    let mut i: usize = 0;
    while rest.len() > 0
        invariant
            n == all.len(),
            all == sessions@,
            i + rest@.len() == all.len(),
            rest@ == all.subrange(i as int, all.len() as int),
            rfc3339_instant(from@) == Some(f),
            rfc3339_instant(to@) == Some(t),
            kept@ == sessions_within(all.subrange(0, i as int), f, t),
            forall|j: int| 0 <= j < i ==> (#[trigger] rfc3339_instant(all[j].started_at@)) is Some,
        decreases rest@.len(),
    {
        let session = rest.remove(0);
        assert(session == all[i as int]);
        assert(rest@ =~= all.subrange(i + 1, all.len() as int));
        match rfc3339_within(session.started_at.as_str(), from, to) {
            None => {
                assert(rfc3339_instant(all[i as int].started_at@) is None);
                assert(!all_starts_parse(all));
                return Err(session.started_at);
            },
            Some(inside) => {
                proof {
                    let prefix = all.subrange(0, i + 1);
                    assert(prefix.drop_last() =~= all.subrange(0, i as int));
                    assert(prefix.last() == all[i as int]);
                }
                if inside {
                    kept.push(session);
                }
            },
        }
        i = i + 1;
    }
    assert(all.subrange(0, all.len() as int) =~= all);
    Ok(kept)
}

} // verus!
