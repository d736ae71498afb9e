use std::time::Duration;
use worktimer::clock::{parse_rfc3339, TimeSpan, UtcTime};
use worktimer::database::{
    active_time, has_open_interval, parse_event_rows, schema_statements_for, session_elapsed, Database, DbError, DbSession,
};
use worktimer::timer::{Timer, TimerState};

#[test]
fn test_session_elapsed_time() {
    let mut db = Database::in_memory().unwrap();
    let session_id = db.create_session(UtcTime::now().unwrap()).unwrap();

    let start_time = UtcTime::now().unwrap();
    db.log_event(session_id, "START", start_time).unwrap();

    // Simulate 10 seconds of active work
    let pause_time = UtcTime { secs: start_time.secs + 10, nanos: start_time.nanos };
    db.log_event(session_id, "PAUSE", pause_time).unwrap();

    // Simulated inactive time (5 seconds)
    let resume_time = UtcTime { secs: pause_time.secs + 5, nanos: pause_time.nanos };
    db.log_event(session_id, "RESUME", resume_time).unwrap();

    // Simulate 15 more seconds of active work
    let stop_time = UtcTime { secs: resume_time.secs + 15, nanos: resume_time.nanos };
    db.log_event(session_id, "STOP", stop_time).unwrap();
    db.end_session(session_id, stop_time).unwrap();

    let elapsed = db.get_session_elapsed_time(session_id).unwrap();
    assert_eq!(Duration::new(elapsed.secs, elapsed.nanos), Duration::from_secs(25)); // 10s + 15s
}

fn t(secs: i64) -> UtcTime {
    UtcTime { secs, nanos: 0 }
}

#[test]
fn active_time_counts_open_interval_up_to_now() {
    let events = vec![("START".to_string(), t(100)), ("PAUSE".to_string(), t(130)), ("RESUME".to_string(), t(200))];
    let span = active_time(&events, t(260)).unwrap();
    assert_eq!(span, TimeSpan { secs: 90, nanos: 0 });
}

#[test]
fn active_time_ignores_unknown_events_and_backwards_intervals() {
    let events = vec![
        ("START".to_string(), t(100)),
        ("NOTE".to_string(), t(150)),
        ("STOP".to_string(), t(90)),
        ("RESUME".to_string(), UtcTime { secs: 300, nanos: 250_000_000 }),
        ("AUTO_PAUSE".to_string(), UtcTime { secs: 301, nanos: 0 }),
    ];
    let span = active_time(&events, t(1000)).unwrap();
    assert_eq!(span, TimeSpan { secs: 0, nanos: 750_000_000 });
}

#[test]
fn active_time_of_no_events_is_zero() {
    assert_eq!(active_time(&Vec::new(), t(5)).unwrap(), TimeSpan { secs: 0, nanos: 0 });
}

#[test]
fn active_time_overflow_gives_none() {
    let events = vec![
        ("START".to_string(), t(i64::MIN)),
        ("STOP".to_string(), t(i64::MAX)),
        ("START".to_string(), t(i64::MIN)),
        ("STOP".to_string(), t(i64::MAX)),
    ];
    assert_eq!(active_time(&events, t(0)), None);
    let rows = vec![
        ("START".to_string(), "1970-01-01T00:00:00+00:00".to_string()),
    ];
    let far = UtcTime { secs: i64::MAX, nanos: 0 };
    assert!(session_elapsed(&rows, far).is_ok());
}

#[test]
fn session_elapsed_from_rows() {
    let rows = vec![
        ("START".to_string(), "2024-01-01T10:00:00+00:00".to_string()),
        ("PAUSE".to_string(), "2024-01-01T10:00:30.5+00:00".to_string()),
    ];
    let now = parse_rfc3339("2024-01-01T12:00:00Z").unwrap();
    assert_eq!(session_elapsed(&rows, now).unwrap(), TimeSpan { secs: 30, nanos: 500_000_000 });
}

#[test]
fn session_elapsed_bad_timestamp() {
    let rows = vec![
        ("START".to_string(), "2024-01-01T10:00:00+00:00".to_string()),
        ("PAUSE".to_string(), "yesterday".to_string()),
    ];
    assert_eq!(session_elapsed(&rows, t(0)), Err(DbError::BadTimestamp("yesterday".to_string())));
    assert_eq!(parse_event_rows(&rows), Err(DbError::BadTimestamp("yesterday".to_string())));
}

#[test]
fn parse_rfc3339_reads_offsets_and_leap_seconds() {
    assert_eq!(parse_rfc3339("1970-01-01T01:00:00+01:00"), Some(t(0)));
    assert_eq!(parse_rfc3339("2024-01-01T00:00:00.000000007Z"), Some(UtcTime { secs: 1_704_067_200, nanos: 7 }));
    assert_eq!(parse_rfc3339("2016-12-31T23:59:60Z"), Some(UtcTime { secs: 1_483_228_799, nanos: 1_000_000_000 }));
    assert_eq!(parse_rfc3339("1970-01-01T00:00:60.5Z"), Some(UtcTime { secs: 59, nanos: 1_500_000_000 }));
    assert_eq!(parse_rfc3339("not a time"), None);
}

#[test]
fn session_from_row() {
    let s = DbSession::from_row(7, "2024-01-01T00:00:00Z", &None).unwrap();
    assert_eq!(s, DbSession { id: 7, started_at: t(1_704_067_200), ended_at: None });
    let e = DbSession::from_row(7, "2024-01-01T00:00:00Z", &Some("later".to_string()));
    assert_eq!(e, Err(DbError::BadTimestamp("later".to_string())));
    let e = DbSession::from_row(7, "soon", &Some("later".to_string()));
    assert_eq!(e, Err(DbError::BadTimestamp("soon".to_string())));
}

#[test]
fn sessions_read_back_with_their_times() {
    let mut db = Database::in_memory().unwrap();
    assert_eq!(db.get_last_session().unwrap(), None);
    let start = UtcTime { secs: 1_700_000_000, nanos: 123_456_789 };
    let id = db.create_session(start).unwrap();
    let s = db.get_last_session().unwrap().unwrap();
    assert_eq!(s, DbSession { id, started_at: start, ended_at: None });
    let end = UtcTime { secs: 1_700_000_100, nanos: 0 };
    db.end_session(id, end).unwrap();
    assert_eq!(db.get_last_session().unwrap().unwrap().ended_at, Some(end));
    assert_eq!(db.get_last_event_type(id).unwrap(), None);
}

#[test]
fn event_for_unknown_session_is_refused() {
    let mut db = Database::in_memory().unwrap();
    assert!(matches!(db.log_event(42, "START", t(0)), Err(DbError::Write(_))));
}

#[test]
fn time_out_of_range_is_refused() {
    let mut db = Database::in_memory().unwrap();
    assert_eq!(db.create_session(t(i64::MAX)), Err(DbError::TimeOutOfRange));
}

#[test]
fn recovery_follows_a_stopped_then_restarted_store() {
    let mut db = Database::in_memory().unwrap();
    let mut timer = Timer::new(&mut db).unwrap();
    timer.start(&mut db).unwrap();
    timer.pause(&mut db, false).unwrap();
    let again = Timer::new(&mut db).unwrap();
    assert_eq!((again.state(), again.current_session_id()), (timer.state(), timer.current_session_id()));
    timer.stop(&mut db).unwrap();
    let again = Timer::new(&mut db).unwrap();
    assert_eq!((again.state(), again.current_session_id()), (TimerState::Stopped, None));
}

#[test]
fn open_by_path() {
    let mut db = Database::new(":memory:").unwrap();
    assert_eq!(db.get_last_session().unwrap(), None);
    assert!(matches!(Database::new("/nonexistent-directory-for-worktimer/x.db"), Err(DbError::Open(_))));
}

#[test]
fn paused_session_time_does_not_grow() {
    let rows = vec![
        ("START".to_string(), "2024-01-01T10:00:00Z".to_string()),
        ("PAUSE".to_string(), "2024-01-01T10:01:00Z".to_string()),
    ];
    let a = session_elapsed(&rows, t(1_704_103_260)).unwrap();
    let b = session_elapsed(&rows, t(1_804_103_260)).unwrap();
    assert_eq!(a, TimeSpan { secs: 60, nanos: 0 });
    assert_eq!(a, b);
}

#[test]
fn running_session_time_grows_with_now() {
    let rows = vec![("START".to_string(), "2024-01-01T10:00:00Z".to_string())];
    let start = 1_704_103_200;
    assert_eq!(session_elapsed(&rows, t(start - 5)).unwrap(), TimeSpan { secs: 0, nanos: 0 });
    assert_eq!(session_elapsed(&rows, t(start + 5)).unwrap(), TimeSpan { secs: 5, nanos: 0 });
    assert_eq!(session_elapsed(&rows, t(start + 50)).unwrap(), TimeSpan { secs: 50, nanos: 0 });
}

#[test]
fn first_bad_time_is_reported() {
    let rows = vec![
        ("START".to_string(), "noon".to_string()),
        ("PAUSE".to_string(), "midnight".to_string()),
    ];
    assert_eq!(session_elapsed(&rows, t(0)), Err(DbError::BadTimestamp("noon".to_string())));
}

#[test]
fn write_errors_by_kind() {
    let mut db = Database::in_memory().unwrap();
    let late = UtcTime { secs: 8_210_266_876_800, nanos: 0 };
    assert_eq!(db.create_session(late), Err(DbError::TimeOutOfRange));
    let id = db.create_session(t(0)).unwrap();
    assert_eq!(db.end_session(id, late), Err(DbError::TimeOutOfRange));
    assert_eq!(db.log_event(id, "START", late), Err(DbError::TimeOutOfRange));
    assert!(matches!(db.log_event(id + 1, "START", t(1)), Err(DbError::Write(_))));
    assert_eq!(db.log_event(id, "START", t(1)), Ok(()));
    assert_eq!(db.end_session(id, t(2)), Ok(()));
}

fn at(secs: i64) -> UtcTime {
    UtcTime { secs: 1_700_000_000 + secs, nanos: 0 }
}

fn history(times: &[(&str, i64)]) -> Vec<(String, UtcTime)> {
    times.iter().map(|(t, s)| (t.to_string(), at(*s))).collect()
}

#[test]
fn closed_session_time_is_sum_of_opened_intervals() {
    // START..PAUSE counts 10 s; the STOP after a PAUSE closes nothing; RESUME..STOP counts 5 s;
    // an event of another type is ignored.
    let events = history(&[("START", 0), ("PAUSE", 10), ("STOP", 12), ("RESUME", 20), ("NOTE", 21), ("STOP", 25)]);
    assert_eq!(active_time(&events, at(1_000)), Some(TimeSpan { secs: 15, nanos: 0 }));
    assert_eq!(active_time(&events, at(5)), Some(TimeSpan { secs: 15, nanos: 0 }));
}

#[test]
fn longer_pause_does_not_change_active_time() {
    let short = history(&[("START", 0), ("PAUSE", 10), ("RESUME", 15), ("STOP", 30)]);
    let long = history(&[("START", 0), ("PAUSE", 10), ("RESUME", 615), ("STOP", 630)]);
    assert_eq!(active_time(&short, at(40)), Some(TimeSpan { secs: 25, nanos: 0 }));
    assert_eq!(active_time(&long, at(4_000)), active_time(&short, at(40)));
}

#[test]
fn sessions_and_events_with_leap_seconds_are_read() {
    let s = DbSession::from_row(3, "2016-12-31T23:59:60.5Z", &Some("2017-01-01T00:00:01Z".to_string())).unwrap();
    assert_eq!(s.started_at, UtcTime { secs: 1_483_228_799, nanos: 1_500_000_000 });
    assert_eq!(s.ended_at, Some(UtcTime { secs: 1_483_228_801, nanos: 0 }));
    // Across midnight chrono counts 0.5 s from 23:59:60.5 to 00:00:01.
    let rows = vec![
        ("START".to_string(), "2016-12-31T23:59:60.5Z".to_string()),
        ("STOP".to_string(), "2017-01-01T00:00:01Z".to_string()),
    ];
    assert_eq!(session_elapsed(&rows, t(0)), Ok(TimeSpan { secs: 0, nanos: 500_000_000 }));
    // Within a day the rest of the leap second counts: 00:00:60.5 to 00:01:02 is 2.5 s.
    let rows = vec![
        ("START".to_string(), "1970-01-01T00:00:60.5Z".to_string()),
        ("PAUSE".to_string(), "1970-01-01T00:01:02Z".to_string()),
    ];
    assert_eq!(session_elapsed(&rows, t(0)), Ok(TimeSpan { secs: 2, nanos: 500_000_000 }));
}

#[test]
fn leap_second_written_is_read_back() {
    let mut db = Database::in_memory().unwrap();
    let leap = UtcTime { secs: 1_483_228_799, nanos: 1_250_000_000 };
    let id = db.create_session(leap).unwrap();
    db.log_event(id, "START", leap).unwrap();
    db.log_event(id, "STOP", UtcTime { secs: 1_483_228_802, nanos: 0 }).unwrap();
    assert_eq!(db.get_last_session().unwrap().unwrap().started_at, leap);
    let span = db.get_session_elapsed_time(id).unwrap();
    assert_eq!(span, TimeSpan { secs: 1, nanos: 750_000_000 });
}

#[test]
fn open_interval_and_schema_plan() {
    let closed = history(&[("START", 0), ("PAUSE", 10)]);
    let open = history(&[("START", 0), ("PAUSE", 10), ("RESUME", 12), ("NOTE", 13)]);
    assert!(!has_open_interval(&closed));
    assert!(has_open_interval(&open));
    assert!(!has_open_interval(&Vec::new()));
    assert_eq!(schema_statements_for(0).len(), 3);
    assert_eq!(schema_statements_for(-4).len(), 3);
    assert!(schema_statements_for(0)[0].starts_with("CREATE TABLE IF NOT EXISTS sessions"));
    assert!(schema_statements_for(0)[1].starts_with("CREATE TABLE IF NOT EXISTS events"));
    assert_eq!(schema_statements_for(0)[2], "PRAGMA user_version = 1;");
    assert!(schema_statements_for(1).is_empty());
    assert!(schema_statements_for(7).is_empty());
}
