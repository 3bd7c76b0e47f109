//! Aggregate counts over saved sessions.

use vstd::prelude::*;

use crate::models::Session;
use crate::session_tracker::add_u32;

verus! {

/// Sums over a list of sessions, each saturating at `u32::MAX`.
#[derive(Debug, Clone, Copy, PartialEq, Eq, Structural)]
pub struct SessionCounts {
    pub sessions_count: u32,
    pub cycles_count: u32,
    pub total_seconds: u32,
    pub work_seconds: u32,
    pub break_seconds: u32,
    pub check_in_done_count: u32,
    pub check_in_skip_count: u32,
    pub muted_sessions: u32,
}

pub open spec fn no_counts() -> SessionCounts {
    SessionCounts {
        sessions_count: 0,
        cycles_count: 0,
        total_seconds: 0,
        work_seconds: 0,
        break_seconds: 0,
        check_in_done_count: 0,
        check_in_skip_count: 0,
        muted_sessions: 0,
    }
}

/// The counts of a list of sessions: how many there are and how many were muted, and
/// the sums of their seconds and check-in answers. Cycle counts are not summed.
pub open spec fn counts_of(sessions: Seq<Session>) -> SessionCounts
    decreases sessions.len(),
{
    if sessions.len() == 0 {
        no_counts()
    } else {
        let c = counts_of(sessions.drop_last());
        let t = sessions.last().totals;
        SessionCounts {
            sessions_count: add_u32(c.sessions_count, 1),
            cycles_count: c.cycles_count,
            total_seconds: add_u32(c.total_seconds, t.total_seconds),
            work_seconds: add_u32(c.work_seconds, t.work_seconds),
            break_seconds: add_u32(c.break_seconds, t.break_seconds),
            check_in_done_count: add_u32(c.check_in_done_count, t.check_in_done_count),
            check_in_skip_count: add_u32(c.check_in_skip_count, t.check_in_skip_count),
            muted_sessions: if sessions.last().muted_during_session {
                add_u32(c.muted_sessions, 1)
            } else {
                c.muted_sessions
            },
        }
    }
}

fn plus(a: u32, b: u32) -> (r: u32)
    ensures
        r == add_u32(a, b),
{
    if a <= u32::MAX - b {
        a + b
    } else {
        u32::MAX
    }
}

/// The counts of a list of sessions.
pub fn count_sessions(sessions: &Vec<Session>) -> (r: SessionCounts)
    ensures
        r == counts_of(sessions@),
{
    let mut c = SessionCounts {
        sessions_count: 0,
        cycles_count: 0,
        total_seconds: 0,
        work_seconds: 0,
        break_seconds: 0,
        check_in_done_count: 0,
        check_in_skip_count: 0,
        muted_sessions: 0,
    };
    let mut i: usize = 0;
    while i < sessions.len()
        invariant
            i <= sessions@.len(),
            c == counts_of(sessions@.subrange(0, i as int)),
        decreases sessions@.len() - i,
    {
        let t = sessions[i].totals;
        c.sessions_count = plus(c.sessions_count, 1);
        c.total_seconds = plus(c.total_seconds, t.total_seconds);
        c.work_seconds = plus(c.work_seconds, t.work_seconds);
        c.break_seconds = plus(c.break_seconds, t.break_seconds);
        c.check_in_done_count = plus(c.check_in_done_count, t.check_in_done_count);
        c.check_in_skip_count = plus(c.check_in_skip_count, t.check_in_skip_count);
        if sessions[i].muted_during_session {
            c.muted_sessions = plus(c.muted_sessions, 1);
        }
        proof {
            let prefix = sessions@.subrange(0, i + 1);
            assert(prefix.drop_last() =~= sessions@.subrange(0, i as int));
            assert(prefix.last() == sessions@[i as int]);
        }
        i = i + 1;
    }
    assert(sessions@.subrange(0, sessions@.len() as int) =~= sessions@);
    c
}

} // verus!
