use mccall::models::{Session, SessionTotals};
use mccall::records::{sessions_in_range, upsert_session};

fn sample_totals() -> SessionTotals {
    SessionTotals {
        total_seconds: 0,
        work_seconds: 0,
        break_seconds: 0,
        cycles_count: 0,
        check_in_done_count: 0,
        check_in_skip_count: 0,
    }
}

fn sample_session(id: &str, started_at: &str) -> Session {
    Session {
        id: id.to_string(),
        routine_id: "routine-1".to_string(),
        started_at: started_at.to_string(),
        ended_at: None,
        step_runs: Vec::new(),
        totals: sample_totals(),
        muted_during_session: false,
    }
}

#[test]
fn load_sessions_in_range_filters_by_start() {
    let sessions = vec![
        sample_session("session-1", "2025-01-01T00:00:00Z"),
        sample_session("session-2", "2025-01-10T12:00:00Z"),
        sample_session("session-3", "2025-02-01T00:00:00Z"),
    ];
    let result = sessions_in_range(sessions, "2025-01-05T00:00:00Z", "2025-01-31T23:59:59Z")
        .expect("load in range");
    assert_eq!(result.len(), 1);
    assert_eq!(result[0].id, "session-2");
}

#[test]
fn load_sessions_in_range_returns_error_on_invalid_date() {
    let sessions = vec![sample_session("session-1", "not-a-date")];
    let result = sessions_in_range(sessions, "2025-01-01T00:00:00Z", "2025-01-31T23:59:59Z");
    assert_eq!(result.err().as_deref(), Some("not-a-date"));
}

#[test]
fn range_bounds_are_inclusive_and_must_parse() {
    let sessions = vec![
        sample_session("a", "2025-01-05T00:00:00Z"),
        sample_session("b", "2025-01-31T23:59:59Z"),
    ];
    let result = sessions_in_range(sessions.clone(), "2025-01-05T00:00:00Z", "2025-01-31T23:59:59Z")
        .expect("range");
    assert_eq!(result.len(), 2);
    assert!(sessions_in_range(sessions, "bad", "2025-01-31T23:59:59Z").is_err());
}

#[test]
fn upsert_replaces_by_id_or_appends() {
    let mut sessions = vec![sample_session("a", "x"), sample_session("b", "y")];
    upsert_session(&mut sessions, sample_session("b", "z"));
    assert_eq!(sessions.len(), 2);
    assert_eq!(sessions[1].started_at, "z");
    upsert_session(&mut sessions, sample_session("c", "w"));
    assert_eq!(sessions.len(), 3);
    assert_eq!(sessions[2].id, "c");
}
