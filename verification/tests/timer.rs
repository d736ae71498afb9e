use worktimer::database::Database;
use worktimer::timer::{Timer, TimerError, TimerOp, TimerState};

#[test]
fn test_timer_transitions_and_db() {
    let mut db = Database::in_memory().unwrap();
    let mut timer = Timer::new(&mut db).unwrap();

    // 1. Initial state
    assert_eq!(timer.state(), TimerState::Idle);
    assert_eq!(timer.current_session_id(), None);

    // 2. Start
    timer.start(&mut db).unwrap();
    assert_eq!(timer.state(), TimerState::Running);
    let session_id = timer.current_session_id().unwrap();

    // Check DB has an active session
    let last_session = db.get_last_session().unwrap().unwrap();
    assert_eq!(last_session.id, session_id);
    assert!(last_session.ended_at.is_none());
    assert_eq!(db.get_last_event_type(session_id).unwrap().unwrap(), "START");

    // 3. Pause
    timer.pause(&mut db, false).unwrap();
    assert_eq!(timer.state(), TimerState::Paused);
    assert_eq!(db.get_last_event_type(session_id).unwrap().unwrap(), "PAUSE");

    // 4. Resume
    timer.resume(&mut db).unwrap();
    assert_eq!(timer.state(), TimerState::Running);
    assert_eq!(db.get_last_event_type(session_id).unwrap().unwrap(), "RESUME");

    // 5. Stop
    timer.stop(&mut db).unwrap();
    assert_eq!(timer.state(), TimerState::Stopped);
    assert_eq!(timer.current_session_id(), None);

    // Check DB session is ended
    let last_session = db.get_last_session().unwrap().unwrap();
    assert!(last_session.ended_at.is_some());
    assert_eq!(db.get_last_event_type(session_id).unwrap().unwrap(), "STOP");
}

#[test]
fn test_invalid_transitions() {
    let mut db = Database::in_memory().unwrap();
    let mut timer = Timer::new(&mut db).unwrap();

    // Cannot pause from Idle
    assert!(timer.pause(&mut db, false).is_err());
    // Cannot resume from Idle
    assert!(timer.resume(&mut db).is_err());
    // Cannot stop from Idle
    assert!(timer.stop(&mut db).is_err());

    timer.start(&mut db).unwrap();
    // Cannot start again while running
    assert!(timer.start(&mut db).is_err());
    // Cannot resume while running
    assert!(timer.resume(&mut db).is_err());

    timer.pause(&mut db, false).unwrap();
    // Cannot pause again while paused
    assert!(timer.pause(&mut db, false).is_err());
    // Cannot start while paused
    assert!(timer.start(&mut db).is_err());
}

#[test]
fn test_state_recovery() {
    let mut db = Database::in_memory().unwrap();

    // Start and pause a session
    {
        let mut timer = Timer::new(&mut db).unwrap();
        timer.start(&mut db).unwrap();
        timer.pause(&mut db, true).unwrap(); // Auto pause
    }

    // Recover state - should be Paused
    {
        let timer = Timer::new(&mut db).unwrap();
        assert_eq!(timer.state(), TimerState::Paused);
        assert!(timer.current_session_id().is_some());
    }

    // Resume and leave running (e.g. application closed unexpectedly)
    {
        let mut timer = Timer::new(&mut db).unwrap();
        timer.resume(&mut db).unwrap();
    }

    // Recover state - should be Running
    {
        let timer = Timer::new(&mut db).unwrap();
        assert_eq!(timer.state(), TimerState::Running);
    }

    // Stop session
    {
        let mut timer = Timer::new(&mut db).unwrap();
        timer.stop(&mut db).unwrap();
    }

    // Recover state - should be Stopped
    {
        let timer = Timer::new(&mut db).unwrap();
        assert_eq!(timer.state(), TimerState::Stopped);
        assert!(timer.current_session_id().is_none());
    }
}

#[test]
fn invalid_transition_names_operation_and_state() {
    let mut db = Database::in_memory().unwrap();
    let mut timer = Timer::new(&mut db).unwrap();
    assert_eq!(
        timer.resume(&mut db),
        Err(TimerError::InvalidTransition { op: TimerOp::Resume, from: TimerState::Idle })
    );
    timer.start(&mut db).unwrap();
    assert_eq!(
        timer.start(&mut db),
        Err(TimerError::InvalidTransition { op: TimerOp::Start, from: TimerState::Running })
    );
    assert_eq!(timer.state(), TimerState::Running);
}

#[test]
fn restart_after_stop_opens_a_new_session() {
    let mut db = Database::in_memory().unwrap();
    let mut timer = Timer::new(&mut db).unwrap();
    timer.start(&mut db).unwrap();
    let first = timer.current_session_id().unwrap();
    timer.stop(&mut db).unwrap();
    timer.start(&mut db).unwrap();
    let second = timer.current_session_id().unwrap();
    assert!(second > first);
    let recovered = Timer::new(&mut db).unwrap();
    assert_eq!(recovered.state(), TimerState::Running);
    assert_eq!(recovered.current_session_id(), Some(second));
}

#[test]
fn manual_pause_records_pause_and_auto_pause_records_auto_pause() {
    let mut db = Database::in_memory().unwrap();
    let mut timer = Timer::new(&mut db).unwrap();
    timer.start(&mut db).unwrap();
    let id = timer.current_session_id().unwrap();
    timer.pause(&mut db, true).unwrap();
    assert_eq!(db.get_last_event_type(id).unwrap().unwrap(), "AUTO_PAUSE");
    timer.resume(&mut db).unwrap();
    timer.pause(&mut db, false).unwrap();
    assert_eq!(db.get_last_event_type(id).unwrap().unwrap(), "PAUSE");
}

#[test]
fn event_types_of_operations() {
    assert_eq!(TimerOp::Start.event_type(), "START");
    assert_eq!(TimerOp::Pause { auto: false }.event_type(), "PAUSE");
    assert_eq!(TimerOp::Pause { auto: true }.event_type(), "AUTO_PAUSE");
    assert_eq!(TimerOp::Resume.event_type(), "RESUME");
    assert_eq!(TimerOp::Stop.event_type(), "STOP");
}
