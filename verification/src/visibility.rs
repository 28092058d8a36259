//! The visibility state machine. Its state, shown or hidden, is never
//! stored: each transition is decided from a fresh reading of the window.

use vstd::prelude::*;
use crate::command::Command;
use crate::window::{is_visible, spec_is_visible};

verus! {

/// Commands of a toggle request on a window whose visibility is `visible`.
pub open spec fn spec_toggle(visible: bool) -> Seq<Command> {
    if visible {
        seq![Command::Hide]
    } else {
        seq![Command::Show, Command::Focus]
    }
}

/// Commands of a change of the window's input focus.
pub open spec fn spec_focus_changed(focused: bool) -> Seq<Command> {
    if focused {
        Seq::<Command>::empty()
    } else {
        seq![Command::Hide]
    }
}

/// Decides a toggle request from a visibility reading: a visible window is
/// hidden; a hidden one, or one whose reading failed, is shown and then
/// focused.
pub fn toggle(reading: Option<bool>) -> (cmds: Vec<Command>)
    ensures
        cmds@ == spec_toggle(spec_is_visible(reading)),
{
    let mut cmds: Vec<Command> = Vec::new();
    if is_visible(reading) {
        cmds.push(Command::Hide);
        assert(cmds@ =~= seq![Command::Hide]);
    } else {
        cmds.push(Command::Show);
        cmds.push(Command::Focus);
        assert(cmds@ =~= seq![Command::Show, Command::Focus]);
    }
    cmds
}

/// Decides a focus change: losing focus hides the window, whatever its
/// visibility; gaining focus does nothing.
pub fn focus_changed(focused: bool) -> (cmds: Vec<Command>)
    ensures
        cmds@ == spec_focus_changed(focused),
{
    let mut cmds: Vec<Command> = Vec::new();
    if !focused {
        cmds.push(Command::Hide);
        assert(cmds@ =~= seq![Command::Hide]);
    } else {
        assert(cmds@ =~= Seq::<Command>::empty());
    }
    cmds
}

} // verus!
