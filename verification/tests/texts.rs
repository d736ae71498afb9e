use worktimer::cli::CliCommand;
use worktimer::clock::{TimeSpan, UtcTime};
use worktimer::config::{desktop_entry, Config};
use worktimer::notifications::{
    format_duration_friendly, format_duration_spoken, idle_warning_body, resume_prompt_body, IdleWarningResult, Notice, ResumePromptResult,
};
use worktimer::text::{push_decimal, str_eq};
use worktimer::timer::TimerOp;

#[test]
fn friendly_durations() {
    assert_eq!(format_duration_friendly(0), "0s");
    assert_eq!(format_duration_friendly(45), "45s");
    assert_eq!(format_duration_friendly(60), "1m");
    assert_eq!(format_duration_friendly(200), "3m 20s");
    assert_eq!(format_duration_friendly(300), "5m");
    assert_eq!(format_duration_friendly(3600), "1h");
    assert_eq!(format_duration_friendly(3661), "1h 1m");
    assert_eq!(format_duration_friendly(7500), "2h 5m");
    assert_eq!(format_duration_friendly(u64::MAX), "5124095576030431h");
    assert_eq!(format_duration_friendly(3600 + 59), "1h");
}

#[test]
fn spoken_durations() {
    assert_eq!(format_duration_spoken(0), "0 seconds");
    assert_eq!(format_duration_spoken(1), "1 second");
    assert_eq!(format_duration_spoken(45), "45 seconds");
    assert_eq!(format_duration_spoken(61), "1 minute 1 second");
    assert_eq!(format_duration_spoken(200), "3 minutes 20 seconds");
    assert_eq!(format_duration_spoken(300), "5 minutes");
    assert_eq!(format_duration_spoken(3600), "1 hour");
    assert_eq!(format_duration_spoken(3661), "1 hour 1 minute");
    assert_eq!(format_duration_spoken(7500), "2 hours 5 minutes");
    assert_eq!(format_duration_spoken(7259), "2 hours");
}

#[test]
fn decimal_text() {
    let mut s = String::from("n=");
    push_decimal(&mut s, 1_234_567_890);
    assert_eq!(s, "n=1234567890");
    assert!(str_eq("abc", "abc"));
    assert!(!str_eq("abc", "abd"));
}

#[test]
fn notification_texts() {
    assert_eq!(Notice::TimerStarted.summary(), "Timer Started");
    assert_eq!(Notice::TimerStarted.body(), "The work session has started.");
    assert_eq!(Notice::TimerPaused.body(), "The work session has been paused.");
    assert_eq!(Notice::TimerResumed.summary(), "Timer Resumed");
    assert_eq!(Notice::TimerStopped.body(), "The work session has been stopped.");
    assert_eq!(Notice::PausedAutomatically.summary(), "Timer Paused Automatically");
    assert_eq!(Notice::PausedAutomatically.body(), "The timer was paused due to inactivity.");
    assert_eq!(idle_warning_body(300), "You have been idle for 5 minutes. Are you still working?");
    assert_eq!(idle_warning_body(60), "You have been idle for 1 minute. Are you still working?");
    assert_eq!(resume_prompt_body(754), "Resume timer? (You were inactive for 12 minutes 34 seconds)");
    assert_eq!(resume_prompt_body(600), "Resume timer? (You were inactive for 10 minutes)");
}

#[test]
fn notification_answers() {
    assert_eq!(IdleWarningResult::from_action(Some("continue")), IdleWarningResult::Continue);
    assert_eq!(IdleWarningResult::from_action(Some("pause")), IdleWarningResult::Pause);
    assert_eq!(IdleWarningResult::from_action(Some("default")), IdleWarningResult::Ignore);
    assert_eq!(IdleWarningResult::from_action(None), IdleWarningResult::Ignore);
    assert_eq!(ResumePromptResult::from_action(Some("resume")), ResumePromptResult::Resume);
    assert_eq!(ResumePromptResult::from_action(Some("remain")), ResumePromptResult::RemainPaused);
    assert_eq!(ResumePromptResult::from_action(None), ResumePromptResult::RemainPaused);
}

#[test]
fn config_defaults_and_limits() {
    let c = Config::default();
    assert_eq!(c, Config { idle_timeout_minutes: 5, auto_pause_after_notification_seconds: 30 });
    assert_eq!(c.idle_timeout_secs(), 300);
    assert_eq!(c.warning_timeout_ms(), 30_000);
    let huge = Config { idle_timeout_minutes: u64::MAX, auto_pause_after_notification_seconds: 4_294_968 };
    assert_eq!(huge.idle_timeout_secs(), u64::MAX.wrapping_mul(60));
    assert_eq!(huge.warning_timeout_ms(), 4_294_968u32.wrapping_mul(1000));
    let wrapped = Config { idle_timeout_minutes: 5, auto_pause_after_notification_seconds: 4_294_967_296 + 7 };
    assert_eq!(wrapped.warning_timeout_ms(), 7_000);
}

#[test]
fn desktop_entry_text() {
    assert_eq!(
        desktop_entry("/usr/bin/worktimer"),
        "[Desktop Entry]\nType=Application\nName=WorkTimer\nComment=Lightweight work timer\nExec=/usr/bin/worktimer\nIcon=media-playback-start\nTerminal=false\nCategories=Utility;\n"
    );
}

#[test]
fn cli_commands() {
    assert_eq!(CliCommand::parse("start"), Some(CliCommand::Start));
    assert_eq!(CliCommand::parse("auto-pause"), Some(CliCommand::AutoPause));
    assert_eq!(CliCommand::parse("status"), Some(CliCommand::Status));
    assert_eq!(CliCommand::parse("Start"), None);
    assert_eq!(CliCommand::AutoPause.timer_op(), Some(TimerOp::Pause { auto: true }));
    assert_eq!(CliCommand::Pause.timer_op(), Some(TimerOp::Pause { auto: false }));
    assert_eq!(CliCommand::Stop.timer_op(), Some(TimerOp::Stop));
    assert_eq!(CliCommand::Status.timer_op(), None);
}

#[test]
fn clock_values() {
    let now = UtcTime::now().unwrap();
    assert!(now.nanos < 1_000_000_000);
    assert!(now.secs > 1_600_000_000);
    assert_eq!(UtcTime { secs: -1, nanos: 5 }.as_nanos(), -999_999_995);
    assert_eq!(TimeSpan::from_nanos(3_000_000_007), TimeSpan { secs: 3, nanos: 7 });
    assert_eq!(UtcTime { secs: 0, nanos: 0 }.to_rfc3339().unwrap(), "1970-01-01T00:00:00+00:00");
}

#[test]
fn clock_readings_and_differences() {
    assert_eq!(UtcTime::from_unix_reading(5, 7), Some(UtcTime { secs: 5, nanos: 7 }));
    assert_eq!(UtcTime::from_unix_reading(8_210_266_876_799, 0), Some(UtcTime { secs: 8_210_266_876_799, nanos: 0 }));
    assert_eq!(UtcTime::from_unix_reading(8_210_266_876_800, 0), None);
    let a = UtcTime { secs: 100, nanos: 250 };
    let b = UtcTime { secs: 90, nanos: 500 };
    assert_eq!(a.nanos_since(&b), 9_999_999_750);
    assert_eq!(b.nanos_since(&a), -9_999_999_750);
    // From a leap second to later in its day, the rest of the leap second counts.
    let leap = UtcTime { secs: 59, nanos: 1_500_000_000 };
    assert_eq!(UtcTime { secs: 62, nanos: 0 }.nanos_since(&leap), 2_500_000_000);
    // From a leap second to the next day, it does not (as chrono counts).
    let late = UtcTime { secs: 86_399, nanos: 1_500_000_000 };
    assert_eq!(UtcTime { secs: 86_401, nanos: 0 }.nanos_since(&late), 500_000_000);
    // To a leap second from later in its day.
    assert_eq!(leap.nanos_since(&UtcTime { secs: 62, nanos: 0 }), -2_500_000_000);
}

#[test]
fn chrono_range_of_written_times() {
    let min = -8_334_601_228_800i64;
    let max = 8_210_266_876_799i64;
    assert!(UtcTime { secs: min, nanos: 0 }.to_rfc3339().is_some());
    assert!(UtcTime { secs: min - 1, nanos: 999_999_999 }.to_rfc3339().is_none());
    assert!(UtcTime { secs: max, nanos: 999_999_999 }.to_rfc3339().is_some());
    assert!(UtcTime { secs: max + 1, nanos: 0 }.to_rfc3339().is_none());
    assert!(UtcTime { secs: 59, nanos: 1_500_000_000 }.to_rfc3339().is_some());
    assert!(UtcTime { secs: 58, nanos: 1_500_000_000 }.to_rfc3339().is_none());
    assert!(UtcTime { secs: 59, nanos: 2_000_000_000 }.to_rfc3339().is_none());
    assert!(UtcTime { secs: -1, nanos: 1_000_000_000 }.to_rfc3339().is_some());
}
