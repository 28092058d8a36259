//! The tray icon controller: what the icon is built from, and how its two
//! kinds of event are routed.

use vstd::prelude::*;
use crate::command::Command;
use crate::event::{MouseButton, MouseButtonState, Transition, TrayIconEvent};
use crate::menu::{dispatch, spec_dispatch, spec_quit_id, spec_quit_label, MenuItem};

verus! {

/// What the tray icon is built from, besides its image.
#[derive(Clone, Debug, PartialEq, Eq)]
pub struct TrayConfig {
    /// Render the icon as a template that the platform adapts to its theme.
    pub icon_as_template: bool,
    /// Open the menu on a plain left click.
    pub show_menu_on_left_click: bool,
    /// The entries of the context menu, in display order.
    pub menu: Vec<MenuItem>,
}

impl TrayConfig {
    /// The configuration of this shell's tray icon: a template icon, the left
    /// click kept free for toggling the window, and a menu of one item that
    /// quits the application.
    pub fn standard() -> (config: TrayConfig)
        ensures
            config.icon_as_template,
            !config.show_menu_on_left_click,
            config.menu@.len() == 1,
            config.menu@[0].spec_id() == spec_quit_id(),
            config.menu@[0].spec_label() == spec_quit_label(),
    {
        let mut menu: Vec<MenuItem> = Vec::new();
        menu.push(MenuItem::quit());
        TrayConfig { icon_as_template: true, show_menu_on_left_click: false, menu }
    }
}

/// Whether a click is the release of the primary button.
pub open spec fn spec_is_toggle_click(button: MouseButton, button_state: MouseButtonState) -> bool {
    button == MouseButton::Left && button_state == MouseButtonState::Up
}

/// Whether a click is the release of the primary button, the one click that
/// toggles the window.
pub fn is_toggle_click(button: MouseButton, button_state: MouseButtonState) -> (r: bool)
    ensures
        r == spec_is_toggle_click(button, button_state),
{
    match (button, button_state) {
        (MouseButton::Left, MouseButtonState::Up) => true,
        _ => false,
    }
}

/// The transition that a tray interaction triggers.
pub open spec fn spec_on_tray_icon_event(event: TrayIconEvent) -> Transition {
    match event {
        TrayIconEvent::Click { button, button_state } => {
            if spec_is_toggle_click(button, button_state) {
                Transition::ToggleRequested
            } else {
                Transition::Ignored
            }
        },
        _ => Transition::Ignored,
    }
}

/// Filters tray interactions: the release of the primary button requests a
/// toggle; presses, other buttons, double clicks and pointer movement are
/// ignored.
pub fn on_tray_icon_event(event: &TrayIconEvent) -> (t: Transition)
    ensures
        t == spec_on_tray_icon_event(*event),
{
    match event {
        TrayIconEvent::Click { button, button_state } => {
            if is_toggle_click(*button, *button_state) {
                Transition::ToggleRequested
            } else {
                Transition::Ignored
            }
        },
        _ => Transition::Ignored,
    }
}

/// Routes a menu activation: the identifier goes to the dispatcher as it is.
pub fn on_menu_event(id: &str) -> (cmds: Vec<Command>)
    ensures
        cmds@ == spec_dispatch(id@),
{
    dispatch(id)
}

} // verus!
