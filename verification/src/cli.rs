//! The command-line commands.

use vstd::prelude::*;
use crate::text::str_eq;
use crate::timer::{op_event, TimerOp};

verus! {

/// A command given on the command line.
#[derive(Debug, Clone, Copy, PartialEq, Eq, Structural)]
pub enum CliCommand {
    Start,
    Pause,
    AutoPause,
    Resume,
    Stop,
    Status,
}

/// The command that an argument names: "start", "pause", "auto-pause", "resume", "stop" or
/// "status"; any other argument names none.
pub open spec fn cli_command(arg: Seq<char>) -> Option<CliCommand> {
    if arg == "start"@ {
        Some(CliCommand::Start)
    } else if arg == "pause"@ {
        Some(CliCommand::Pause)
    } else if arg == "auto-pause"@ {
        Some(CliCommand::AutoPause)
    } else if arg == "resume"@ {
        Some(CliCommand::Resume)
    } else if arg == "stop"@ {
        Some(CliCommand::Stop)
    } else if arg == "status"@ {
        Some(CliCommand::Status)
    } else {
        None
    }
}

/// The timer operation a command runs: a pause for "pause", an automatic pause for
/// "auto-pause", and the operation of the same name for the others; "status" runs none.
pub open spec fn command_op(c: CliCommand) -> Option<TimerOp> {
    match c {
        CliCommand::Start => Some(TimerOp::Start),
        CliCommand::Pause => Some(TimerOp::Pause { auto: false }),
        CliCommand::AutoPause => Some(TimerOp::Pause { auto: true }),
        CliCommand::Resume => Some(TimerOp::Resume),
        CliCommand::Stop => Some(TimerOp::Stop),
        CliCommand::Status => None,
    }
}

impl CliCommand {
    /// The command that `arg` names, if any.
    pub fn parse(arg: &str) -> (c: Option<CliCommand>)
        ensures
            c == cli_command(arg@),
    {
        if str_eq(arg, "start") {
            Some(CliCommand::Start)
        } else if str_eq(arg, "pause") {
            Some(CliCommand::Pause)
        } else if str_eq(arg, "auto-pause") {
            Some(CliCommand::AutoPause)
        } else if str_eq(arg, "resume") {
            Some(CliCommand::Resume)
        } else if str_eq(arg, "stop") {
            Some(CliCommand::Stop)
        } else if str_eq(arg, "status") {
            Some(CliCommand::Status)
        } else {
            None
        }
    }

    /// The timer operation the command runs, if any.
    pub fn timer_op(&self) -> (op: Option<TimerOp>)
        ensures
            op == command_op(*self),
    {
        match self {
            CliCommand::Start => Some(TimerOp::Start),
            CliCommand::Pause => Some(TimerOp::Pause { auto: false }),
            CliCommand::AutoPause => Some(TimerOp::Pause { auto: true }),
            CliCommand::Resume => Some(TimerOp::Resume),
            CliCommand::Stop => Some(TimerOp::Stop),
            CliCommand::Status => None,
        }
    }
}

/// `event` is the name `arg` written in capitals, with `_` for `-`: "auto-pause" names
/// "AUTO_PAUSE".
pub open spec fn names_event(arg: Seq<char>, event: Seq<char>) -> bool {
    &&& arg.len() == event.len()
    &&& forall|i: int| 0 <= i < arg.len() ==> {
        ||| 'a' <= #[trigger] arg[i] <= 'z' && (event[i] as int) == (arg[i] as int) - 32
        ||| arg[i] == '-' && event[i] == '_'
    }
}

/// Every command a name gives runs the timer operation that records the event of that name
/// ("stop" stops and records STOP, "auto-pause" pauses automatically and records AUTO_PAUSE),
/// except "status", which runs none; and each of the six names gives a command.
pub proof fn lemma_command_names_its_operation(arg: Seq<char>)
    ensures
        cli_command(arg) matches Some(c) ==> match command_op(c) {
            Some(op) => names_event(arg, op_event(op)),
            None => arg == "status"@,
        },
        (arg == "start"@ || arg == "pause"@ || arg == "auto-pause"@ || arg == "resume"@ || arg == "stop"@
            || arg == "status"@) ==> cli_command(arg) is Some,
{
    reveal_strlit("start");
    reveal_strlit("START");
    reveal_strlit("pause");
    reveal_strlit("PAUSE");
    reveal_strlit("auto-pause");
    reveal_strlit("AUTO_PAUSE");
    reveal_strlit("resume");
    reveal_strlit("RESUME");
    reveal_strlit("stop");
    reveal_strlit("STOP");
    reveal_strlit("status");
}

} // verus!
