//! The window as the shell sees it: a visibility reading that may fail, and
//! a model of how commands change what the next reading returns.

use vstd::prelude::*;
use crate::command::Command;

verus! {

/// The visibility that a reading stands for: a failed reading (`None`) counts
/// as hidden.
pub open spec fn spec_is_visible(reading: Option<bool>) -> bool {
    match reading {
        Some(v) => v,
        None => false,
    }
}

/// Interprets a visibility reading, taking a failed one for "hidden".
pub fn is_visible(reading: Option<bool>) -> (r: bool)
    ensures
        r == spec_is_visible(reading),
{
    match reading {
        Some(v) => v,
        None => false,
    }
}

/// Visibility of a window after it has carried out `c`.
pub open spec fn visible_after(visible: bool, c: Command) -> bool {
    match c {
        Command::Show => true,
        Command::Hide => false,
        Command::Focus => visible,
        Command::Exit { .. } => visible,
    }
}

/// Visibility of a window after it has carried out `cmds` in order.
pub open spec fn visible_after_all(visible: bool, cmds: Seq<Command>) -> bool
    decreases cmds.len(),
{
    if cmds.len() == 0 {
        visible
    } else {
        visible_after(visible_after_all(visible, cmds.drop_last()), cmds.last())
    }
}

/// A window on which every command succeeds. It stands in for the platform
/// wherever a run of the shell is replayed without one.
#[derive(Clone, Copy, Debug, PartialEq, Eq, Structural)]
pub struct WindowModel {
    pub visible: bool,
}

impl WindowModel {
    /// The window as it is at startup: hidden.
    pub fn new() -> (w: WindowModel)
        ensures
            !w.visible,
    {
        WindowModel { visible: false }
    }

    /// A reading of this window's visibility; it never fails.
    pub fn reading(&self) -> (r: Option<bool>)
        ensures
            r == Some(self.visible),
    {
        Some(self.visible)
    }

    /// Carries out one command.
    pub fn apply(&mut self, c: Command)
        ensures
            final(self).visible == visible_after(old(self).visible, c),
    {
        match c {
            Command::Show => {
                self.visible = true;
            },
            Command::Hide => {
                self.visible = false;
            },
            Command::Focus => {},
            Command::Exit { .. } => {},
        }
    }

    /// Carries out a sequence of commands in order.
    pub fn apply_all(&mut self, cmds: &Vec<Command>)
        ensures
            final(self).visible == visible_after_all(old(self).visible, cmds@),
    {
        let ghost start: bool = self.visible;
        let mut i: usize = 0;
        while i < cmds.len()
            invariant
                i <= cmds.len(),
                self.visible == visible_after_all(start, cmds@.take(i as int)),
            decreases cmds.len() - i,
        {
            proof {
                let next = cmds@.take(i + 1);
                assert(next.drop_last() =~= cmds@.take(i as int));
                assert(next.last() == cmds@[i as int]);
            }
            self.apply(cmds[i]);
            i = i + 1;
        }
        proof {
            assert(cmds@.take(i as int) =~= cmds@);
        }
    }
}

} // verus!
