use tray_shell::command::Command;
use tray_shell::event::{MouseButton, MouseButtonState, Transition, TrayIconEvent};
use tray_shell::menu::{dispatch, is_quit_id, quit_id, MenuItem};
use tray_shell::tray::{is_toggle_click, on_menu_event, on_tray_icon_event, TrayConfig};

#[test]
fn dispatch_quit_requests_exit_zero() {
    assert_eq!(dispatch("quit"), vec![Command::Exit { code: 0 }]);
}

#[test]
fn dispatch_unknown_ids_is_noop() {
    for id in ["", "Quit", "QUIT", "quit ", " quit", "qui", "quits", "about", "settings"] {
        assert_eq!(dispatch(id), Vec::<Command>::new(), "id {:?}", id);
    }
}

#[test]
fn menu_events_are_forwarded_verbatim() {
    assert_eq!(on_menu_event("quit"), dispatch("quit"));
    assert_eq!(on_menu_event("other"), dispatch("other"));
    assert_eq!(on_menu_event("other"), Vec::<Command>::new());
}

#[test]
fn quit_item_has_id_and_label() {
    let item = MenuItem::quit();
    assert_eq!(item.id(), "quit");
    assert_eq!(item.label(), "Quit");
    assert_eq!(quit_id(), "quit");
}

#[test]
fn menu_item_keeps_what_it_was_built_with() {
    let item = MenuItem::new("prefs", "Preferences");
    assert_eq!(item.id(), "prefs");
    assert_eq!(item.label(), "Preferences");
    assert_ne!(item, MenuItem::quit());
}

#[test]
fn standard_tray_configuration() {
    let config = TrayConfig::standard();
    assert!(config.icon_as_template);
    assert!(!config.show_menu_on_left_click);
    assert_eq!(config.menu, vec![MenuItem::new("quit", "Quit")]);
}

#[test]
fn only_left_release_is_a_toggle_click() {
    let buttons = [MouseButton::Left, MouseButton::Right, MouseButton::Middle];
    let states = [MouseButtonState::Up, MouseButtonState::Down];
    let mut toggles = 0;
    for b in buttons {
        for s in states {
            let expected = b == MouseButton::Left && s == MouseButtonState::Up;
            assert_eq!(is_toggle_click(b, s), expected);
            let t = on_tray_icon_event(&TrayIconEvent::Click { button: b, button_state: s });
            if expected {
                assert_eq!(t, Transition::ToggleRequested);
                toggles += 1;
            } else {
                assert_eq!(t, Transition::Ignored);
            }
        }
    }
    assert_eq!(toggles, 1);
}

#[test]
fn other_tray_interactions_are_ignored() {
    for b in [MouseButton::Left, MouseButton::Right, MouseButton::Middle] {
        assert_eq!(
            on_tray_icon_event(&TrayIconEvent::DoubleClick { button: b }),
            Transition::Ignored
        );
    }
    assert_eq!(on_tray_icon_event(&TrayIconEvent::Enter), Transition::Ignored);
    assert_eq!(on_tray_icon_event(&TrayIconEvent::Move), Transition::Ignored);
    assert_eq!(on_tray_icon_event(&TrayIconEvent::Leave), Transition::Ignored);
}

#[test]
fn only_toggle_reads_visibility() {
    assert!(Transition::ToggleRequested.reads_visibility());
    assert!(!Transition::FocusLost.reads_visibility());
    assert!(!Transition::Quit.reads_visibility());
    assert!(!Transition::Ignored.reads_visibility());
}

#[test]
fn command_targets_and_exit_codes() {
    assert!(Command::Show.targets_window());
    assert!(Command::Hide.targets_window());
    assert!(Command::Focus.targets_window());
    assert!(!Command::Exit { code: 0 }.targets_window());
    assert_eq!(Command::Exit { code: 0 }.exit_code(), Some(0));
    assert_eq!(Command::Exit { code: 7 }.exit_code(), Some(7));
    assert_eq!(Command::Show.exit_code(), None);
    assert_eq!(Command::Hide.exit_code(), None);
    assert_eq!(Command::Focus.exit_code(), None);
}

#[test]
fn quit_id_is_matched_exactly() {
    assert!(is_quit_id("quit"));
    assert!(is_quit_id(quit_id()));
    assert!(!is_quit_id("Quit"));
    assert!(!is_quit_id("quit\n"));
    assert!(!is_quit_id(""));
}
