//! Inbound events delivered by the platform runtime.

use vstd::prelude::*;

verus! {

/// A mouse button reported with a tray interaction.
#[derive(Clone, Copy, Debug, PartialEq, Eq, Structural)]
pub enum MouseButton {
    Left,
    Right,
    Middle,
}

/// Whether the button went down or came back up.
#[derive(Clone, Copy, Debug, PartialEq, Eq, Structural)]
pub enum MouseButtonState {
    Up,
    Down,
}

/// An interaction with the tray icon.
#[derive(Clone, Copy, Debug, PartialEq, Eq, Structural)]
pub enum TrayIconEvent {
    /// A button was pressed or released over the icon.
    Click { button: MouseButton, button_state: MouseButtonState },
    /// A button was double-clicked over the icon.
    DoubleClick { button: MouseButton },
    /// The pointer entered the icon's area.
    Enter,
    /// The pointer moved within the icon's area.
    Move,
    /// The pointer left the icon's area.
    Leave,
}

/// An inbound event. Events are transient: each is consumed as it arrives.
#[derive(Clone, Debug, PartialEq, Eq)]
pub enum Event {
    /// An item of the tray menu was selected.
    MenuActivated { id: String },
    /// A button was pressed or released over the tray icon.
    TrayClicked { button: MouseButton, button_state: MouseButtonState },
    /// The window gained (`true`) or lost (`false`) input focus.
    WindowFocusChanged { focused: bool },
}

/// What an event asks the shell to do.
#[derive(Clone, Copy, Debug, PartialEq, Eq, Structural)]
pub enum Transition {
    /// Show the window if it is hidden, hide it if it is shown.
    ToggleRequested,
    /// The window lost input focus.
    FocusLost,
    /// Terminate the process.
    Quit,
    /// Nothing to do.
    Ignored,
}

impl Transition {
    /// Whether deciding this transition's commands takes a fresh visibility
    /// reading of the window.
    pub open spec fn spec_reads_visibility(self) -> bool {
        self is ToggleRequested
    }

    /// Whether deciding this transition's commands takes a fresh visibility
    /// reading of the window.
    pub fn reads_visibility(&self) -> (r: bool)
        ensures
            r == self.spec_reads_visibility(),
    {
        match self {
            Transition::ToggleRequested => true,
            _ => false,
        }
    }
}

} // verus!
