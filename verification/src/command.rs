//! Outbound commands and sequences of them.

use vstd::prelude::*;

verus! {

/// A command issued to the platform runtime.
#[derive(Clone, Copy, Debug, PartialEq, Eq, Structural)]
pub enum Command {
    /// Make the window visible.
    Show,
    /// Make the window invisible.
    Hide,
    /// Give the window input focus.
    Focus,
    /// Terminate the process with the given exit code.
    Exit { code: i32 },
}

/// How often `c` occurs in `cmds`.
pub open spec fn occurrences(cmds: Seq<Command>, c: Command) -> nat
    decreases cmds.len(),
{
    if cmds.len() == 0 {
        0
    } else {
        let rest: nat = occurrences(cmds.drop_last(), c);
        if cmds.last() == c {
            rest + 1
        } else {
            rest
        }
    }
}

/// How many process-exit requests `cmds` holds, whatever their code.
pub open spec fn exit_requests(cmds: Seq<Command>) -> nat
    decreases cmds.len(),
{
    if cmds.len() == 0 {
        0
    } else {
        let rest: nat = exit_requests(cmds.drop_last());
        if cmds.last() is Exit {
            rest + 1
        } else {
            rest
        }
    }
}

impl Command {
    /// Whether this command addresses the window (as opposed to the process).
    pub open spec fn spec_targets_window(self) -> bool {
        self is Show || self is Hide || self is Focus
    }

    /// Whether this command addresses the window (as opposed to the process).
    pub fn targets_window(&self) -> (r: bool)
        ensures
            r == self.spec_targets_window(),
    {
        match self {
            Command::Show => true,
            Command::Hide => true,
            Command::Focus => true,
            Command::Exit { .. } => false,
        }
    }

    /// The exit code carried by a process-exit request, if this is one.
    pub fn exit_code(&self) -> (r: Option<i32>)
        ensures
            r == (match *self {
                Command::Exit { code } => Some(code),
                _ => None::<i32>,
            }),
    {
        match self {
            Command::Exit { code } => Some(*code),
            _ => None,
        }
    }
}

} // verus!
