use worktimer::config::Config;
use worktimer::database::Database;
use worktimer::idle::IdleState;
use worktimer::notifications::{IdleWarningResult, Notice, ResumePromptResult};
use worktimer::state::{AppCore, AppEvent, Effect, TrayEvent};
use worktimer::timer::{Timer, TimerError, TimerOp, TimerState};

fn setup() -> (Database, AppCore, Config) {
    let mut db = Database::in_memory().unwrap();
    let timer = Timer::new(&mut db).unwrap();
    (db, AppCore::new(timer), Config::default())
}

#[test]
fn new_core_starts_stopped_for_idle_timer() {
    let (_db, core, _cfg) = setup();
    assert_eq!(core.idle_state(), IdleState::Stopped);
    assert_eq!(core.peak_idle_ms(), 0);
}

#[test]
fn new_core_follows_recovered_state() {
    let mut db = Database::in_memory().unwrap();
    let mut t = Timer::new(&mut db).unwrap();
    t.start(&mut db).unwrap();
    assert_eq!(AppCore::new(Timer::new(&mut db).unwrap()).idle_state(), IdleState::Monitoring);
    t.pause(&mut db, false).unwrap();
    assert_eq!(AppCore::new(Timer::new(&mut db).unwrap()).idle_state(), IdleState::ManualPaused);
}

#[test]
fn tray_start_then_pause_then_stop() {
    let (mut db, mut core, cfg) = setup();
    let r = core.handle(&mut db, AppEvent::Tray(TrayEvent::Start), &cfg);
    assert_eq!(r.effects, vec![Effect::Notify(Notice::TimerStarted), Effect::SyncTray]);
    assert_eq!(r.timer_result, Some(Ok(())));
    assert_eq!(core.idle_state(), IdleState::Monitoring);
    assert_eq!(core.timer().state(), TimerState::Running);

    let r = core.handle(&mut db, AppEvent::Tray(TrayEvent::Pause), &cfg);
    assert_eq!(r.effects, vec![Effect::Notify(Notice::TimerPaused), Effect::SyncTray]);
    assert_eq!(core.idle_state(), IdleState::ManualPaused);

    let r = core.handle(&mut db, AppEvent::Tray(TrayEvent::Stop), &cfg);
    assert_eq!(r.effects, vec![Effect::Notify(Notice::TimerStopped), Effect::SyncTray]);
    assert_eq!(core.idle_state(), IdleState::Stopped);
    assert_eq!(core.timer().state(), TimerState::Stopped);
}

#[test]
fn rejected_tray_action_only_syncs() {
    let (mut db, mut core, cfg) = setup();
    let r = core.handle(&mut db, AppEvent::Tray(TrayEvent::Resume), &cfg);
    assert_eq!(r.effects, vec![Effect::SyncTray]);
    assert_eq!(
        r.timer_result,
        Some(Err(TimerError::InvalidTransition { op: TimerOp::Resume, from: TimerState::Idle }))
    );
    assert_eq!(core.idle_state(), IdleState::Stopped);
}

#[test]
fn tick_syncs_only_while_running() {
    let (mut db, mut core, cfg) = setup();
    assert!(core.handle(&mut db, AppEvent::Tick, &cfg).effects.is_empty());
    core.handle(&mut db, AppEvent::Tray(TrayEvent::Start), &cfg);
    assert_eq!(core.handle(&mut db, AppEvent::Tick, &cfg).effects, vec![Effect::SyncTray]);
}

#[test]
fn idle_warning_after_timeout_then_activity_returns_to_monitoring() {
    let (mut db, mut core, cfg) = setup();
    core.handle(&mut db, AppEvent::Tray(TrayEvent::Start), &cfg);
    let r = core.handle(&mut db, AppEvent::IdleTime(299_999), &cfg);
    assert!(r.effects.is_empty());
    assert_eq!(core.peak_idle_ms(), 299_999);
    let r = core.handle(&mut db, AppEvent::IdleTime(300_000), &cfg);
    assert_eq!(r.effects, vec![Effect::ShowIdleWarning { idle_secs: 300, timeout_ms: 30_000 }]);
    assert_eq!(core.idle_state(), IdleState::WarningSent);
    // A second reading does not warn again.
    assert!(core.handle(&mut db, AppEvent::IdleTime(310_000), &cfg).effects.is_empty());
    assert_eq!(core.peak_idle_ms(), 310_000);
    core.handle(&mut db, AppEvent::IdleTime(4_999), &cfg);
    assert_eq!(core.idle_state(), IdleState::Monitoring);
    assert_eq!(core.peak_idle_ms(), 0);
}

#[test]
fn ignored_warning_pauses_automatically_and_activity_prompts_resume() {
    let (mut db, mut core, cfg) = setup();
    core.handle(&mut db, AppEvent::Tray(TrayEvent::Start), &cfg);
    core.handle(&mut db, AppEvent::IdleTime(300_000), &cfg);
    let r = core.handle(&mut db, AppEvent::IdleWarning(IdleWarningResult::Ignore), &cfg);
    assert_eq!(r.effects, vec![Effect::SyncTray, Effect::Notify(Notice::PausedAutomatically)]);
    assert_eq!(core.idle_state(), IdleState::AutoPaused);
    assert_eq!(core.timer().state(), TimerState::Paused);
    let id = core.timer().current_session_id().unwrap();
    assert_eq!(db.get_last_event_type(id).unwrap().unwrap(), "AUTO_PAUSE");

    // Still idle: nothing happens.
    assert!(core.handle(&mut db, AppEvent::IdleTime(400_000), &cfg).effects.is_empty());
    let r = core.handle(&mut db, AppEvent::IdleTime(1_000), &cfg);
    assert_eq!(r.effects, vec![Effect::ShowResumePrompt { inactive_secs: 400 }]);
    assert_eq!(core.idle_state(), IdleState::ResumePrompted);
    assert_eq!(core.peak_idle_ms(), 0);

    let r = core.handle(&mut db, AppEvent::ResumePrompt(ResumePromptResult::Resume), &cfg);
    assert_eq!(r.effects, vec![Effect::SyncTray, Effect::Notify(Notice::TimerResumed)]);
    assert_eq!(core.idle_state(), IdleState::Monitoring);
    assert_eq!(core.timer().state(), TimerState::Running);
}

#[test]
fn warning_answers() {
    let (mut db, mut core, cfg) = setup();
    core.handle(&mut db, AppEvent::Tray(TrayEvent::Start), &cfg);
    core.handle(&mut db, AppEvent::IdleTime(300_000), &cfg);
    let r = core.handle(&mut db, AppEvent::IdleWarning(IdleWarningResult::Continue), &cfg);
    assert!(r.effects.is_empty());
    assert_eq!(r.timer_result, None);
    assert_eq!(core.idle_state(), IdleState::Monitoring);

    core.handle(&mut db, AppEvent::IdleTime(300_000), &cfg);
    let r = core.handle(&mut db, AppEvent::IdleWarning(IdleWarningResult::Pause), &cfg);
    assert_eq!(r.effects, vec![Effect::SyncTray]);
    assert_eq!(core.idle_state(), IdleState::ManualPaused);
    assert_eq!(core.timer().state(), TimerState::Paused);

    // An answer that comes when no warning shows changes nothing.
    let r = core.handle(&mut db, AppEvent::IdleWarning(IdleWarningResult::Ignore), &cfg);
    assert!(r.effects.is_empty());
    assert_eq!(r.timer_result, None);
    assert_eq!(core.idle_state(), IdleState::ManualPaused);
}

#[test]
fn remain_paused_after_prompt() {
    let (mut db, mut core, cfg) = setup();
    core.handle(&mut db, AppEvent::Tray(TrayEvent::Start), &cfg);
    core.handle(&mut db, AppEvent::IdleTime(300_000), &cfg);
    core.handle(&mut db, AppEvent::IdleWarning(IdleWarningResult::Ignore), &cfg);
    core.handle(&mut db, AppEvent::IdleTime(0), &cfg);
    let r = core.handle(&mut db, AppEvent::ResumePrompt(ResumePromptResult::RemainPaused), &cfg);
    assert!(r.effects.is_empty());
    assert_eq!(core.idle_state(), IdleState::ManualPaused);
    assert_eq!(core.timer().state(), TimerState::Paused);
}

#[test]
fn exit_stops_a_running_timer_and_shuts_down() {
    let (mut db, mut core, cfg) = setup();
    core.handle(&mut db, AppEvent::Tray(TrayEvent::Start), &cfg);
    let r = core.handle(&mut db, AppEvent::Tray(TrayEvent::Exit), &cfg);
    assert_eq!(r.effects, vec![Effect::Shutdown]);
    assert_eq!(r.timer_result, Some(Ok(())));
    assert_eq!(core.timer().state(), TimerState::Stopped);
    let r = core.handle(&mut db, AppEvent::Tray(TrayEvent::Exit), &cfg);
    assert_eq!(r.timer_result, None);
}

#[test]
fn idle_readings_while_paused_do_not_raise_peak() {
    let (mut db, mut core, cfg) = setup();
    core.handle(&mut db, AppEvent::Tray(TrayEvent::Start), &cfg);
    core.handle(&mut db, AppEvent::Tray(TrayEvent::Pause), &cfg);
    core.handle(&mut db, AppEvent::IdleTime(900_000), &cfg);
    assert_eq!(core.peak_idle_ms(), 0);
}

#[test]
fn idle_readings_while_auto_paused_count_toward_inactive_time() {
    let (mut db, mut core, cfg) = setup();
    core.handle(&mut db, AppEvent::Tray(TrayEvent::Start), &cfg);
    core.handle(&mut db, AppEvent::IdleTime(300_000), &cfg);
    core.handle(&mut db, AppEvent::IdleWarning(IdleWarningResult::Ignore), &cfg);
    core.handle(&mut db, AppEvent::IdleTime(600_000), &cfg);
    assert_eq!(core.peak_idle_ms(), 600_000);
    core.handle(&mut db, AppEvent::IdleTime(500_000), &cfg);
    assert_eq!(core.peak_idle_ms(), 600_000);
    let r = core.handle(&mut db, AppEvent::IdleTime(2_000), &cfg);
    assert_eq!(r.effects, vec![Effect::ShowResumePrompt { inactive_secs: 600 }]);
}

fn agrees(timer: TimerState, idle: IdleState) -> bool {
    match idle {
        IdleState::Monitoring | IdleState::WarningSent => timer == TimerState::Running,
        IdleState::AutoPaused | IdleState::ResumePrompted | IdleState::ManualPaused => timer == TimerState::Paused,
        IdleState::Stopped => timer == TimerState::Idle || timer == TimerState::Stopped,
    }
}

#[test]
fn idle_state_keeps_agreeing_with_timer() {
    let (mut db, mut core, cfg) = setup();
    let events = [
        AppEvent::Tray(TrayEvent::Pause),
        AppEvent::Tray(TrayEvent::Start),
        AppEvent::IdleTime(400_000),
        AppEvent::Tray(TrayEvent::Pause),
        AppEvent::IdleWarning(IdleWarningResult::Ignore),
        AppEvent::Tray(TrayEvent::Resume),
        AppEvent::IdleTime(400_000),
        AppEvent::IdleWarning(IdleWarningResult::Ignore),
        AppEvent::IdleTime(10),
        AppEvent::Tray(TrayEvent::Stop),
        AppEvent::ResumePrompt(ResumePromptResult::Resume),
        AppEvent::Tick,
        AppEvent::Tray(TrayEvent::Start),
    ];
    assert!(agrees(core.timer().state(), core.idle_state()));
    for ev in events {
        core.handle(&mut db, ev, &cfg);
        assert!(agrees(core.timer().state(), core.idle_state()), "after {:?}", ev);
    }
    assert_eq!(core.timer().state(), TimerState::Running);
}
