//! The states of the idle monitor.

use vstd::prelude::*;

verus! {

/// The state of idle detection.
#[derive(Debug, Clone, Copy, PartialEq, Eq, Structural)]
pub enum IdleState {
    /// The timer runs and idle time is being watched.
    Monitoring,
    /// The idle warning is showing.
    WarningSent,
    /// The timer was paused because the idle warning went unanswered.
    AutoPaused,
    /// Activity came back after an automatic pause; the resume prompt is showing.
    ResumePrompted,
    /// The timer was paused by the user.
    ManualPaused,
    /// The timer is not timing a session.
    Stopped,
}

} // verus!
