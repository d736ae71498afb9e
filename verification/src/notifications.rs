//! What the desktop notifications say, and what their answers mean.

use vstd::prelude::*;
use crate::text::{decimal, push_decimal, str_eq};

verus! {

/// The answer to the idle warning.
#[derive(Debug, Clone, Copy, PartialEq, Eq, Structural)]
pub enum IdleWarningResult {
    Continue,
    Pause,
    /// Dismissed, timed out, or closed.
    Ignore,
}

/// The answer to the resume prompt.
#[derive(Debug, Clone, Copy, PartialEq, Eq, Structural)]
pub enum ResumePromptResult {
    Resume,
    RemainPaused,
}

/// The simple notifications, which ask for no answer.
#[derive(Debug, Clone, Copy, PartialEq, Eq, Structural)]
pub enum Notice {
    TimerStarted,
    TimerPaused,
    TimerResumed,
    TimerStopped,
    PausedAutomatically,
}

/// The answer to the idle warning that a chosen action gives: "continue" continues, "pause"
/// pauses; any other action, and no action at all (expired, closed, or not shown), ignores it.
pub open spec fn idle_warning_answer(action: Option<Seq<char>>) -> IdleWarningResult {
    match action {
        Some(k) => if k == "continue"@ {
            IdleWarningResult::Continue
        } else if k == "pause"@ {
            IdleWarningResult::Pause
        } else {
            IdleWarningResult::Ignore
        },
        None => IdleWarningResult::Ignore,
    }
}

/// The answer to the resume prompt that a chosen action gives: "resume" resumes; anything else,
/// and no action at all, remains paused.
pub open spec fn resume_prompt_answer(action: Option<Seq<char>>) -> ResumePromptResult {
    match action {
        Some(k) => if k == "resume"@ { ResumePromptResult::Resume } else { ResumePromptResult::RemainPaused },
        None => ResumePromptResult::RemainPaused,
    }
}

/// The title of a simple notification.
pub open spec fn notice_summary(n: Notice) -> Seq<char> {
    match n {
        Notice::TimerStarted => "Timer Started"@,
        Notice::TimerPaused => "Timer Paused"@,
        Notice::TimerResumed => "Timer Resumed"@,
        Notice::TimerStopped => "Timer Stopped"@,
        Notice::PausedAutomatically => "Timer Paused Automatically"@,
    }
}

/// The text of a simple notification.
pub open spec fn notice_body(n: Notice) -> Seq<char> {
    match n {
        Notice::TimerStarted => "The work session has started."@,
        Notice::TimerPaused => "The work session has been paused."@,
        Notice::TimerResumed => "The work session has resumed."@,
        Notice::TimerStopped => "The work session has been stopped."@,
        Notice::PausedAutomatically => "The timer was paused due to inactivity."@,
    }
}

/// A length of time in seconds, for people: "2h 5m", "2h", "3m 20s", "3m" or "45s" (the
/// seconds are left out once there are hours, zero minutes and zero seconds are left out).
pub open spec fn friendly_duration(secs: nat) -> Seq<char> {
    let h = secs / 3600;
    let m = (secs % 3600) / 60;
    let s = secs % 60;
    if h > 0 {
        if m > 0 {
            decimal(h) + seq!['h', ' '] + decimal(m) + seq!['m']
        } else {
            decimal(h) + seq!['h']
        }
    } else if m > 0 {
        if s > 0 {
            decimal(m) + seq!['m', ' '] + decimal(s) + seq!['s']
        } else {
            decimal(m) + seq!['m']
        }
    } else {
        decimal(s) + seq!['s']
    }
}

/// `n` followed by a unit, in the plural unless `n` is 1: "1 minute", "5 minutes".
pub open spec fn count_of(n: nat, unit: Seq<char>) -> Seq<char> {
    decimal(n) + seq![' '] + unit + (if n == 1 { Seq::<char>::empty() } else { seq!['s'] })
}

/// A length of time in seconds, in words: "2 hours 5 minutes", "2 hours", "3 minutes 20
/// seconds", "5 minutes" or "45 seconds" (the seconds are left out once there are hours, zero
/// minutes and zero seconds are left out).
pub open spec fn spoken_duration(secs: nat) -> Seq<char> {
    let h = secs / 3600;
    let m = (secs % 3600) / 60;
    let s = secs % 60;
    if h > 0 {
        if m > 0 {
            count_of(h, "hour"@) + seq![' '] + count_of(m, "minute"@)
        } else {
            count_of(h, "hour"@)
        }
    } else if m > 0 {
        if s > 0 {
            count_of(m, "minute"@) + seq![' '] + count_of(s, "second"@)
        } else {
            count_of(m, "minute"@)
        }
    } else {
        count_of(s, "second"@)
    }
}

/// The text of the idle warning, for an idle time written as `idle`: "You have been idle for 5
/// minutes. Are you still working?"
pub open spec fn idle_warning_text(idle: Seq<char>) -> Seq<char> {
    "You have been idle for "@ + idle + ". Are you still working?"@
}

/// The text of the resume prompt, for an inactive time written as `inactive`: "Resume timer?
/// (You were inactive for [duration])".
pub open spec fn resume_prompt_text(inactive: Seq<char>) -> Seq<char> {
    "Resume timer? (You were inactive for "@ + inactive + ")"@
}

impl IdleWarningResult {
    /// The answer that the action chosen on the idle warning gives (`None`: no action).
    pub fn from_action(action: Option<&str>) -> (r: IdleWarningResult)
        ensures
            r == idle_warning_answer(match action { Some(k) => Some(k@), None => None }),
    {
        match action {
            Some(k) => if str_eq(k, "continue") {
                IdleWarningResult::Continue
            } else if str_eq(k, "pause") {
                IdleWarningResult::Pause
            } else {
                IdleWarningResult::Ignore
            },
            None => IdleWarningResult::Ignore,
        }
    }
}

impl ResumePromptResult {
    /// The answer that the action chosen on the resume prompt gives (`None`: no action).
    pub fn from_action(action: Option<&str>) -> (r: ResumePromptResult)
        ensures
            r == resume_prompt_answer(match action { Some(k) => Some(k@), None => None }),
    {
        match action {
            Some(k) => if str_eq(k, "resume") { ResumePromptResult::Resume } else { ResumePromptResult::RemainPaused },
            None => ResumePromptResult::RemainPaused,
        }
    }
}

impl Notice {
    /// The title of the notification.
    pub fn summary(&self) -> (s: &'static str)
        ensures
            s@ == notice_summary(*self),
    {
        match self {
            Notice::TimerStarted => "Timer Started",
            Notice::TimerPaused => "Timer Paused",
            Notice::TimerResumed => "Timer Resumed",
            Notice::TimerStopped => "Timer Stopped",
            Notice::PausedAutomatically => "Timer Paused Automatically",
        }
    }

    /// The text of the notification.
    pub fn body(&self) -> (s: &'static str)
        ensures
            s@ == notice_body(*self),
    {
        match self {
            Notice::TimerStarted => "The work session has started.",
            Notice::TimerPaused => "The work session has been paused.",
            Notice::TimerResumed => "The work session has resumed.",
            Notice::TimerStopped => "The work session has been stopped.",
            Notice::PausedAutomatically => "The timer was paused due to inactivity.",
        }
    }
}

/// Writes a length of time given in seconds for people (see `friendly_duration`).
pub fn format_duration_friendly(secs: u64) -> (s: String)
    ensures
        s@ == friendly_duration(secs as nat),
{
    let hours = secs / 3600;
    let mins = (secs % 3600) / 60;
    let rem_secs = secs % 60;
    let mut s = String::new();
    proof {
        reveal_strlit("h ");
        reveal_strlit("h");
        reveal_strlit("m ");
        reveal_strlit("m");
        reveal_strlit("s");
    }
    if hours > 0 {
        push_decimal(&mut s, hours);
        if mins > 0 {
            s.append("h ");
            push_decimal(&mut s, mins);
            s.append("m");
        } else {
            s.append("h");
        }
    } else if mins > 0 {
        push_decimal(&mut s, mins);
        if rem_secs > 0 {
            s.append("m ");
            push_decimal(&mut s, rem_secs);
            s.append("s");
        } else {
            s.append("m");
        }
    } else {
        push_decimal(&mut s, rem_secs);
        s.append("s");
    }
    assert(s@ =~= friendly_duration(secs as nat));
    s
}

/// Appends `n` and a unit, in the plural unless `n` is 1 (see `count_of`).
fn push_count(out: &mut String, n: u64, unit: &str)
    ensures
        final(out)@ == old(out)@ + count_of(n as nat, unit@),
{
    proof {
        reveal_strlit(" ");
        reveal_strlit("s");
    }
    push_decimal(out, n);
    out.append(" ");
    out.append(unit);
    if n != 1 {
        out.append("s");
    }
    assert(out@ =~= old(out)@ + count_of(n as nat, unit@));
}

/// Writes a length of time given in seconds in words (see `spoken_duration`).
pub fn format_duration_spoken(secs: u64) -> (s: String)
    ensures
        s@ == spoken_duration(secs as nat),
{
    let hours = secs / 3600;
    let mins = (secs % 3600) / 60;
    let rem_secs = secs % 60;
    let mut s = String::new();
    proof {
        reveal_strlit(" ");
    }
    if hours > 0 {
        push_count(&mut s, hours, "hour");
        if mins > 0 {
            s.append(" ");
            push_count(&mut s, mins, "minute");
        }
    } else if mins > 0 {
        push_count(&mut s, mins, "minute");
        if rem_secs > 0 {
            s.append(" ");
            push_count(&mut s, rem_secs, "second");
        }
    } else {
        push_count(&mut s, rem_secs, "second");
    }
    assert(s@ =~= spoken_duration(secs as nat));
    s
}

/// The text of the idle warning for an idle time of `idle_secs` seconds.
pub fn idle_warning_body(idle_secs: u64) -> (s: String)
    ensures
        s@ == idle_warning_text(spoken_duration(idle_secs as nat)),
{
    let mut s = "You have been idle for ".to_owned();
    let d = format_duration_spoken(idle_secs);
    s.append(d.as_str());
    s.append(". Are you still working?");
    s
}

/// The text of the resume prompt for an inactive time of `inactive_secs` seconds.
pub fn resume_prompt_body(inactive_secs: u64) -> (s: String)
    ensures
        s@ == resume_prompt_text(spoken_duration(inactive_secs as nat)),
{
    let mut s = "Resume timer? (You were inactive for ".to_owned();
    let d = format_duration_spoken(inactive_secs);
    s.append(d.as_str());
    s.append(")");
    s
}

} // verus!
