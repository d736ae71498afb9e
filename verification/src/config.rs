//! The timer's settings, their defaults, and the desktop launcher entry.

use vstd::prelude::*;

verus! {

/// The application's settings.
#[derive(Debug, Clone, Copy, PartialEq, Eq, Structural)]
pub struct Config {
    pub idle_timeout_minutes: u64,
    pub auto_pause_after_notification_seconds: u64,
}

impl Default for Config {
    /// An idle timeout of 5 minutes, and an automatic pause 30 seconds after the idle warning.
    fn default() -> (c: Self)
        ensures
            c == (Config { idle_timeout_minutes: 5, auto_pause_after_notification_seconds: 30 }),
    {
        Config { idle_timeout_minutes: 5, auto_pause_after_notification_seconds: 30 }
    }
}

impl Config {
    /// The idle timeout in seconds: the minutes times 60, wrapping around at `u64::MAX + 1` as
    /// the unchecked multiplication does in a release build.
    pub fn idle_timeout_secs(&self) -> (secs: u64)
        ensures
            secs == (self.idle_timeout_minutes * 60) % 18_446_744_073_709_551_616,
    {
        self.idle_timeout_minutes.wrapping_mul(60)
    }

    /// How long the idle warning waits, in milliseconds: the configured seconds taken as a `u32`,
    /// times 1000, wrapping around at `u32::MAX + 1` as the unchecked multiplication does in a
    /// release build.
    pub fn warning_timeout_ms(&self) -> (ms: u32)
        ensures
            ms == ((self.auto_pause_after_notification_seconds % 4_294_967_296) * 1000) % 4_294_967_296,
    {
        let s = self.auto_pause_after_notification_seconds;
        #[verifier::truncate]
        let secs: u32 = s as u32;
        assert(secs == s % 4_294_967_296) by (bit_vector)
            requires secs == s as u32;
        secs.wrapping_mul(1000)
    }
}

/// The desktop launcher entry for the executable at `exe`.
pub open spec fn desktop_entry_text(exe: Seq<char>) -> Seq<char> {
    "[Desktop Entry]\nType=Application\nName=WorkTimer\nComment=Lightweight work timer\nExec="@ + exe
        + "\nIcon=media-playback-start\nTerminal=false\nCategories=Utility;\n"@
}

/// The text of the desktop launcher entry (`worktimer.desktop`) that starts the executable at
/// `exe_path` from the applications menu.
pub fn desktop_entry(exe_path: &str) -> (s: String)
    ensures
        s@ == desktop_entry_text(exe_path@),
{
    let mut s = "[Desktop Entry]\nType=Application\nName=WorkTimer\nComment=Lightweight work timer\nExec=".to_owned();
    s.append(exe_path);
    s.append("\nIcon=media-playback-start\nTerminal=false\nCategories=Utility;\n");
    s
}

} // verus!
