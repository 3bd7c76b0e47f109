use mccall::models::{Session, SessionTotals};
use mccall::session_stats::count_sessions;

fn sample_totals(
    total_seconds: u32,
    work_seconds: u32,
    break_seconds: u32,
    check_in_done_count: u32,
    check_in_skip_count: u32,
) -> SessionTotals {
    SessionTotals {
        total_seconds,
        work_seconds,
        break_seconds,
        cycles_count: 0,
        check_in_done_count,
        check_in_skip_count,
    }
}

fn sample_session(id: &str, totals: SessionTotals, muted: bool) -> Session {
    Session {
        id: id.to_string(),
        routine_id: "routine-1".to_string(),
        started_at: "2025-01-01T00:00:00Z".to_string(),
        ended_at: None,
        step_runs: Vec::new(),
        totals,
        muted_during_session: muted,
    }
}

#[test]
fn calculates_empty_stats() {
    let counts = count_sessions(&Vec::new());
    assert_eq!(counts.sessions_count, 0);
    assert_eq!(counts.total_seconds, 0);
    assert_eq!(counts.work_seconds, 0);
    assert_eq!(counts.break_seconds, 0);
    assert_eq!(counts.check_in_done_count, 0);
    assert_eq!(counts.check_in_skip_count, 0);
    assert_eq!(counts.muted_sessions, 0);
}

#[test]
fn aggregates_session_totals() {
    let sessions = vec![
        sample_session("s1", sample_totals(600, 500, 100, 3, 1), false),
        sample_session("s2", sample_totals(300, 200, 100, 1, 2), true),
    ];
    let counts = count_sessions(&sessions);
    assert_eq!(counts.sessions_count, 2);
    assert_eq!(counts.total_seconds, 900);
    assert_eq!(counts.work_seconds, 700);
    assert_eq!(counts.break_seconds, 200);
    assert_eq!(counts.check_in_done_count, 4);
    assert_eq!(counts.check_in_skip_count, 3);
    let mute_rate = counts.muted_sessions as f32 / counts.sessions_count as f32;
    assert!((mute_rate - 0.5).abs() < f32::EPSILON);
}
