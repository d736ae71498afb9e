//! The application's decisions: how each tray action, tick, idle reading and notification
//! answer moves the timer and the idle monitor, and what the application shows in answer.
//!
//! The event loop itself (channels, threads, the tray, the notifications) runs outside the
//! library; it hands each event to `AppCore::handle` and carries out the effects returned.

use vstd::prelude::*;
use crate::config::Config;
use crate::database::Database;
use crate::idle::IdleState;
use crate::notifications::{notice_summary, IdleWarningResult, Notice, ResumePromptResult};
use crate::timer::{allowed, outcome, target, Timer, TimerError, TimerModel, TimerOp, TimerState};

verus! {

/// The actions of the tray menu.
#[derive(Debug, Clone, Copy, PartialEq, Eq, Structural)]
pub enum TrayEvent {
    Start,
    Pause,
    Resume,
    Stop,
    Exit,
}

/// The events that the application's loop handles.
#[derive(Debug, Clone, Copy, PartialEq, Eq, Structural)]
pub enum AppEvent {
    /// An action chosen in the tray menu.
    Tray(TrayEvent),
    /// The time since the last user input, in milliseconds.
    IdleTime(u64),
    /// The answer to the idle warning.
    IdleWarning(IdleWarningResult),
    /// The answer to the resume prompt.
    ResumePrompt(ResumePromptResult),
    /// One second has passed.
    Tick,
}

/// What the application shows or does in answer to an event.
#[derive(Debug, Clone, Copy, PartialEq, Eq, Structural)]
pub enum Effect {
    /// Show a simple notification.
    Notify(Notice),
    /// Show the idle warning for an idle time of `idle_secs` seconds, expiring after
    /// `timeout_ms` milliseconds.
    ShowIdleWarning { idle_secs: u64, timeout_ms: u32 },
    /// Show the resume prompt for an inactive time of `inactive_secs` seconds.
    ShowResumePrompt { inactive_secs: u64 },
    /// Bring the tray's display up to date with the timer.
    SyncTray,
    /// Close the tray and leave the loop.
    Shutdown,
}

/// The answer to one event: the effects, in order, and the result of the timer operation that
/// the event asked for, if it asked for one.
pub struct Reaction {
    pub effects: Vec<Effect>,
    pub timer_result: Option<Result<(), TimerError>>,
}

/// The state of the application's decisions: the timer, the idle monitor, and the longest
/// idle time seen while the timer ran (in milliseconds).
pub struct AppCore {
    timer: Timer,
    idle_state: IdleState,
    peak_idle_ms: u64,
}

/// What the application's decisions are about.
pub struct CoreModel {
    pub timer: TimerModel,
    pub idle: IdleState,
    pub peak_ms: u64,
}

impl View for AppCore {
    type V = CoreModel;

    closed spec fn view(&self) -> CoreModel {
        CoreModel { timer: self.timer@, idle: self.idle_state, peak_ms: self.peak_idle_ms }
    }
}

/// Below this idle time (in milliseconds) the user counts as active again.
pub open spec fn active_again_ms() -> int {
    5000
}

/// The idle state that goes with a timer state when the application starts: Monitoring while
/// it runs, ManualPaused while it is paused, else Stopped.
pub open spec fn initial_idle(s: TimerState) -> IdleState {
    match s {
        TimerState::Running => IdleState::Monitoring,
        TimerState::Paused => IdleState::ManualPaused,
        _ => IdleState::Stopped,
    }
}

/// The timer operation that an event asks for: each tray action its own (Exit asks to stop
/// only while a session is being timed); the idle warning's "pause" a pause, and its being
/// ignored an automatic pause, while the warning is showing; the resume prompt's "resume" a
/// resume while the prompt is showing; nothing else.
pub open spec fn requested_op(c: CoreModel, ev: AppEvent) -> Option<TimerOp> {
    match ev {
        AppEvent::Tray(t) => match t {
            TrayEvent::Start => Some(TimerOp::Start),
            TrayEvent::Pause => Some(TimerOp::Pause { auto: false }),
            TrayEvent::Resume => Some(TimerOp::Resume),
            TrayEvent::Stop => Some(TimerOp::Stop),
            TrayEvent::Exit => if c.timer.state is Running || c.timer.state is Paused {
                Some(TimerOp::Stop)
            } else {
                None
            },
        },
        AppEvent::IdleWarning(res) => if c.idle is WarningSent {
            match res {
                IdleWarningResult::Pause => Some(TimerOp::Pause { auto: false }),
                IdleWarningResult::Ignore => Some(TimerOp::Pause { auto: true }),
                IdleWarningResult::Continue => None,
            }
        } else {
            None
        },
        AppEvent::ResumePrompt(res) => if c.idle is ResumePrompted && res is Resume {
            Some(TimerOp::Resume)
        } else {
            None
        },
        _ => None,
    }
}

/// The idle state, the peak idle time and the effects after event `ev`, where `ok` tells
/// whether the timer operation it asked for succeeded.
///
/// A tray action that succeeds moves the idle state with the timer (Start and Resume to
/// Monitoring, Pause to ManualPaused, Stop to Stopped) and announces itself; every tray action
/// but Exit then brings the tray up to date; Exit shuts down. A tick brings the tray up to date
/// while the timer runs. An idle reading while the timer runs, or while it is paused
/// automatically, first raises the peak (so the peak covers the whole inactive period); while
/// monitoring, reaching the idle timeout shows the idle warning; while the warning shows,
/// activity (under 5 s idle) returns to monitoring and clears the peak; after an automatic
/// pause, activity shows the resume prompt with the peak and clears it. (The idle timeout is the
/// minutes times 60 and the warning's timeout the seconds, taken as a `u32`, times 1000, both
/// wrapping around as in a release build.) The idle warning's
/// answers: continue returns to monitoring; a pause that succeeds goes to ManualPaused and
/// brings the tray up to date; an automatic pause that succeeds goes to AutoPaused, brings the
/// tray up to date and announces itself. The resume prompt's answers: a resume that succeeds
/// goes to Monitoring, brings the tray up to date and announces itself; remaining paused goes
/// to ManualPaused. Answers that come while their notification is not showing change nothing.
pub open spec fn react(c: CoreModel, ev: AppEvent, cfg: Config, ok: bool) -> (IdleState, u64, Seq<Effect>) {
    match ev {
        AppEvent::Tray(t) => match t {
            TrayEvent::Exit => (c.idle, c.peak_ms, seq![Effect::Shutdown]),
            _ => {
                let (idle, notice) = match t {
                    TrayEvent::Start => (IdleState::Monitoring, Notice::TimerStarted),
                    TrayEvent::Pause => (IdleState::ManualPaused, Notice::TimerPaused),
                    TrayEvent::Resume => (IdleState::Monitoring, Notice::TimerResumed),
                    _ => (IdleState::Stopped, Notice::TimerStopped),
                };
                if ok {
                    (idle, c.peak_ms, seq![Effect::Notify(notice), Effect::SyncTray])
                } else {
                    (c.idle, c.peak_ms, seq![Effect::SyncTray])
                }
            },
        },
        AppEvent::Tick => (c.idle, c.peak_ms, if c.timer.state is Running { seq![Effect::SyncTray] } else { seq![] }),
        AppEvent::IdleTime(ms) => {
            let running = c.timer.state is Running;
            let away = c.timer.state is Paused && c.idle is AutoPaused;
            let peak = if (running || away) && ms > c.peak_ms { ms } else { c.peak_ms };
            let threshold_secs = (cfg.idle_timeout_minutes * 60) % 18_446_744_073_709_551_616;
            if running && c.idle is Monitoring {
                if ms >= threshold_secs * 1000 {
                    (IdleState::WarningSent, peak, seq![Effect::ShowIdleWarning {
                        idle_secs: threshold_secs as u64,
                        timeout_ms: (((cfg.auto_pause_after_notification_seconds % 4_294_967_296) * 1000) % 4_294_967_296) as u32,
                    }])
                } else {
                    (IdleState::Monitoring, peak, seq![])
                }
            } else if running && c.idle is WarningSent {
                if ms < active_again_ms() {
                    (IdleState::Monitoring, 0, seq![])
                } else {
                    (IdleState::WarningSent, peak, seq![])
                }
            } else if c.timer.state is Paused && c.idle is AutoPaused {
                if ms < active_again_ms() {
                    (IdleState::ResumePrompted, 0, seq![Effect::ShowResumePrompt { inactive_secs: peak / 1000 }])
                } else {
                    (IdleState::AutoPaused, peak, seq![])
                }
            } else {
                (c.idle, peak, seq![])
            }
        },
        AppEvent::IdleWarning(res) => if c.idle is WarningSent {
            match res {
                IdleWarningResult::Continue => (IdleState::Monitoring, c.peak_ms, seq![]),
                IdleWarningResult::Pause => if ok {
                    (IdleState::ManualPaused, c.peak_ms, seq![Effect::SyncTray])
                } else {
                    (c.idle, c.peak_ms, seq![])
                },
                IdleWarningResult::Ignore => if ok {
                    (IdleState::AutoPaused, c.peak_ms, seq![Effect::SyncTray, Effect::Notify(Notice::PausedAutomatically)])
                } else {
                    (c.idle, c.peak_ms, seq![])
                },
            }
        } else {
            (c.idle, c.peak_ms, seq![])
        },
        AppEvent::ResumePrompt(res) => if c.idle is ResumePrompted {
            match res {
                ResumePromptResult::Resume => if ok {
                    (IdleState::Monitoring, c.peak_ms, seq![Effect::SyncTray, Effect::Notify(Notice::TimerResumed)])
                } else {
                    (c.idle, c.peak_ms, seq![])
                },
                ResumePromptResult::RemainPaused => (IdleState::ManualPaused, c.peak_ms, seq![]),
            }
        } else {
            (c.idle, c.peak_ms, seq![])
        },
    }
}

/// The idle state agrees with the timer: Monitoring or WarningSent while it runs; AutoPaused,
/// ResumePrompted or ManualPaused while it is paused; Stopped while it is idle or stopped.
pub open spec fn agrees(timer: TimerState, idle: IdleState) -> bool {
    match idle {
        IdleState::Monitoring | IdleState::WarningSent => timer is Running,
        IdleState::AutoPaused | IdleState::ResumePrompted | IdleState::ManualPaused => timer is Paused,
        IdleState::Stopped => timer is Idle || timer is Stopped,
    }
}

/// The idle state keeps agreeing with the timer: where they agree before an event other than
/// the tray's Exit, and the timer afterwards is what the event's operation gives (the target
/// state of an allowed operation that succeeded, else the timer unchanged), they agree after it.
/// (After Exit the loop ends; a stop that succeeds there leaves the idle state as it was.)
pub proof fn lemma_idle_agrees_with_timer(c: CoreModel, ev: AppEvent, cfg: Config, ok: bool, timer_after: TimerModel)
    requires
        agrees(c.timer.state, c.idle),
        ev != AppEvent::Tray(TrayEvent::Exit),
        match requested_op(c, ev) {
            Some(op) => if ok {
                allowed(op, c.timer.state) && timer_after.state == target(op)
            } else {
                timer_after == c.timer
            },
            None => timer_after == c.timer,
        },
    ensures
        agrees(timer_after.state, react(c, ev, cfg, ok).0),
{
}

/// While the timer runs and the idle monitor watches, an idle reading of `ms` milliseconds
/// shows the idle warning exactly when it reaches the configured idle timeout (the minutes times
/// 60 seconds), and the warning names that timeout in seconds and expires after the configured
/// seconds; below the timeout nothing is shown and monitoring goes on. Either way the peak idle
/// time becomes the larger of the old peak and `ms`. (Stated where the minutes in seconds and
/// the seconds in milliseconds fit their types.)
pub proof fn lemma_idle_warning_at_configured_timeout(c: CoreModel, ms: u64, cfg: Config, ok: bool)
    requires
        c.timer.state is Running,
        c.idle is Monitoring,
        cfg.idle_timeout_minutes * 60 <= 18_446_744_073_709_551_615,
        cfg.auto_pause_after_notification_seconds * 1000 <= 4_294_967_295,
    ensures
        ms >= cfg.idle_timeout_minutes * 60 * 1000 ==> react(c, AppEvent::IdleTime(ms), cfg, ok).0 is WarningSent
            && react(c, AppEvent::IdleTime(ms), cfg, ok).2 == seq![Effect::ShowIdleWarning {
                idle_secs: (cfg.idle_timeout_minutes * 60) as u64,
                timeout_ms: (cfg.auto_pause_after_notification_seconds * 1000) as u32,
            }],
        ms < cfg.idle_timeout_minutes * 60 * 1000 ==> react(c, AppEvent::IdleTime(ms), cfg, ok).0 is Monitoring
            && react(c, AppEvent::IdleTime(ms), cfg, ok).2.len() == 0,
        react(c, AppEvent::IdleTime(ms), cfg, ok).1 == if ms > c.peak_ms { ms } else { c.peak_ms },
{
}

/// A tray action other than Exit that succeeds announces its own operation, then brings the
/// tray up to date: Start with "Timer Started", Pause with "Timer Paused", Resume with "Timer
/// Resumed" and Stop with "Timer Stopped"; one that fails only brings the tray up to date.
pub proof fn lemma_tray_action_announces_its_operation(c: CoreModel, t: TrayEvent, cfg: Config)
    ensures
        t is Start ==> react(c, AppEvent::Tray(t), cfg, true).2 == seq![Effect::Notify(Notice::TimerStarted), Effect::SyncTray]
            && requested_op(c, AppEvent::Tray(t)) == Some(TimerOp::Start),
        t is Pause ==> react(c, AppEvent::Tray(t), cfg, true).2 == seq![Effect::Notify(Notice::TimerPaused), Effect::SyncTray]
            && requested_op(c, AppEvent::Tray(t)) == Some(TimerOp::Pause { auto: false }),
        t is Resume ==> react(c, AppEvent::Tray(t), cfg, true).2 == seq![Effect::Notify(Notice::TimerResumed), Effect::SyncTray]
            && requested_op(c, AppEvent::Tray(t)) == Some(TimerOp::Resume),
        t is Stop ==> react(c, AppEvent::Tray(t), cfg, true).2 == seq![Effect::Notify(Notice::TimerStopped), Effect::SyncTray]
            && requested_op(c, AppEvent::Tray(t)) == Some(TimerOp::Stop),
        !(t is Exit) ==> react(c, AppEvent::Tray(t), cfg, false).2 == seq![Effect::SyncTray],
        notice_summary(Notice::TimerStarted) == "Timer Started"@,
        notice_summary(Notice::TimerPaused) == "Timer Paused"@,
        notice_summary(Notice::TimerResumed) == "Timer Resumed"@,
        notice_summary(Notice::TimerStopped) == "Timer Stopped"@,
{
}

impl AppCore {
    /// The decisions' state for a recovered timer: the idle state that goes with its state,
    /// and no peak idle time.
    pub fn new(timer: Timer) -> (c: AppCore)
        ensures
            c@ == (CoreModel { timer: timer@, idle: initial_idle(timer@.state), peak_ms: 0 }),
            agrees(c@.timer.state, c@.idle),
    {
        let idle_state = match timer.state() {
            TimerState::Running => IdleState::Monitoring,
            TimerState::Paused => IdleState::ManualPaused,
            _ => IdleState::Stopped,
        };
        AppCore { timer, idle_state, peak_idle_ms: 0 }
    }

    /// The timer.
    pub fn timer(&self) -> (t: &Timer)
        ensures
            t@ == self@.timer,
    {
        &self.timer
    }

    /// The idle state.
    pub fn idle_state(&self) -> (s: IdleState)
        ensures
            s == self@.idle,
    {
        self.idle_state
    }

    /// The longest idle time seen while the timer ran, in milliseconds.
    pub fn peak_idle_ms(&self) -> (ms: u64)
        ensures
            ms == self@.peak_ms,
    {
        self.peak_idle_ms
    }

    /// Handles one event: runs the timer operation it asks for (`requested_op`) against the
    /// store, then moves the idle state and the peak idle time and gives the effects as `react`
    /// says, with whether that operation succeeded. Where the idle state agreed with the timer,
    /// it still agrees afterwards, unless the event was the tray's Exit.
    pub fn handle(&mut self, db: &mut Database, event: AppEvent, config: &Config) -> (r: Reaction)
        ensures
            r.timer_result is Some <==> requested_op(old(self)@, event) is Some,
            match requested_op(old(self)@, event) {
                Some(op) => outcome(
                    old(self)@.timer,
                    old(db).journal(),
                    op,
                    r.timer_result->0,
                    final(self)@.timer,
                    final(db).journal(),
                ),
                None => final(self)@.timer == old(self)@.timer && final(db).journal() == old(db).journal(),
            },
            (final(self)@.idle, final(self)@.peak_ms, r.effects@) == react(
                old(self)@,
                event,
                *config,
                r.timer_result matches Some(Ok(())),
            ),
            agrees(old(self)@.timer.state, old(self)@.idle) && event != AppEvent::Tray(TrayEvent::Exit)
                ==> agrees(final(self)@.timer.state, final(self)@.idle),
    {
        let ghost before = self@;
        let r = self.decide(db, event, config);
        proof {
            if agrees(before.timer.state, before.idle) && event != AppEvent::Tray(TrayEvent::Exit) {
                lemma_idle_agrees_with_timer(before, event, *config, r.timer_result matches Some(Ok(())), self@.timer);
            }
        }
        r
    }

    fn decide(&mut self, db: &mut Database, event: AppEvent, config: &Config) -> (r: Reaction)
        ensures
            r.timer_result is Some <==> requested_op(old(self)@, event) is Some,
            match requested_op(old(self)@, event) {
                Some(op) => outcome(
                    old(self)@.timer,
                    old(db).journal(),
                    op,
                    r.timer_result->0,
                    final(self)@.timer,
                    final(db).journal(),
                ),
                None => final(self)@.timer == old(self)@.timer && final(db).journal() == old(db).journal(),
            },
            (final(self)@.idle, final(self)@.peak_ms, r.effects@) == react(
                old(self)@,
                event,
                *config,
                r.timer_result matches Some(Ok(())),
            ),
    {
        let state = self.timer.state();
        match event {
            AppEvent::Tray(t) => {
                match t {
                    TrayEvent::Exit => {
                        let res = if state == TimerState::Running || state == TimerState::Paused {
                            Some(self.timer.stop(db))
                        } else {
                            None
                        };
                        Reaction { effects: vec![Effect::Shutdown], timer_result: res }
                    },
                    _ => {
                        let (res, idle, notice) = match t {
                            TrayEvent::Start => (self.timer.start(db), IdleState::Monitoring, Notice::TimerStarted),
                            TrayEvent::Pause => (self.timer.pause(db, false), IdleState::ManualPaused, Notice::TimerPaused),
                            TrayEvent::Resume => (self.timer.resume(db), IdleState::Monitoring, Notice::TimerResumed),
                            _ => (self.timer.stop(db), IdleState::Stopped, Notice::TimerStopped),
                        };
                        let mut effects: Vec<Effect> = Vec::new();
                        if res.is_ok() {
                            self.idle_state = idle;
                            effects.push(Effect::Notify(notice));
                        }
                        effects.push(Effect::SyncTray);
                        Reaction { effects, timer_result: Some(res) }
                    },
                }
            },
            AppEvent::Tick => {
                let effects = if state == TimerState::Running { vec![Effect::SyncTray] } else { Vec::new() };
                Reaction { effects, timer_result: None }
            },
            AppEvent::IdleTime(ms) => {
                let running = state == TimerState::Running;
                let away = state == TimerState::Paused && self.idle_state == IdleState::AutoPaused;
                if (running || away) && ms > self.peak_idle_ms {
                    self.peak_idle_ms = ms;
                }
                let mut effects: Vec<Effect> = Vec::new();
                if running && self.idle_state == IdleState::Monitoring {
                    let threshold_secs = config.idle_timeout_secs();
                    if (ms as u128) >= (threshold_secs as u128) * 1000 {
                        self.idle_state = IdleState::WarningSent;
                        effects.push(Effect::ShowIdleWarning {
                            idle_secs: threshold_secs,
                            timeout_ms: config.warning_timeout_ms(),
                        });
                    }
                } else if running && self.idle_state == IdleState::WarningSent {
                    if ms < 5000 {
                        self.idle_state = IdleState::Monitoring;
                        self.peak_idle_ms = 0;
                    }
                } else if state == TimerState::Paused && self.idle_state == IdleState::AutoPaused {
                    if ms < 5000 {
                        self.idle_state = IdleState::ResumePrompted;
                        let inactive_secs = self.peak_idle_ms / 1000;
                        self.peak_idle_ms = 0;
                        effects.push(Effect::ShowResumePrompt { inactive_secs });
                    }
                }
                Reaction { effects, timer_result: None }
            },
            AppEvent::IdleWarning(res) => {
                let mut effects: Vec<Effect> = Vec::new();
                let mut timer_result = None;
                if self.idle_state == IdleState::WarningSent {
                    match res {
                        IdleWarningResult::Continue => {
                            self.idle_state = IdleState::Monitoring;
                        },
                        IdleWarningResult::Pause => {
                            let r = self.timer.pause(db, false);
                            if r.is_ok() {
                                self.idle_state = IdleState::ManualPaused;
                                effects.push(Effect::SyncTray);
                            }
                            timer_result = Some(r);
                        },
                        IdleWarningResult::Ignore => {
                            let r = self.timer.pause(db, true);
                            if r.is_ok() {
                                self.idle_state = IdleState::AutoPaused;
                                effects.push(Effect::SyncTray);
                                effects.push(Effect::Notify(Notice::PausedAutomatically));
                            }
                            timer_result = Some(r);
                        },
                    }
                }
                Reaction { effects, timer_result }
            },
            AppEvent::ResumePrompt(res) => {
                let mut effects: Vec<Effect> = Vec::new();
                let mut timer_result = None;
                if self.idle_state == IdleState::ResumePrompted {
                    match res {
                        ResumePromptResult::Resume => {
                            let r = self.timer.resume(db);
                            if r.is_ok() {
                                self.idle_state = IdleState::Monitoring;
                                effects.push(Effect::SyncTray);
                                effects.push(Effect::Notify(Notice::TimerResumed));
                            }
                            timer_result = Some(r);
                        },
                        ResumePromptResult::RemainPaused => {
                            self.idle_state = IdleState::ManualPaused;
                        },
                    }
                }
                Reaction { effects, timer_result }
            },
        }
    }
}

} // verus!
