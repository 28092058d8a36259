use tray_shell::command::Command;
use tray_shell::event::{Event, MouseButton, MouseButtonState, Transition};
use tray_shell::lifecycle::{classify, commands, handle, replay, Phase, StartupStep};
use tray_shell::window::WindowModel;

fn left_up() -> Event {
    Event::TrayClicked { button: MouseButton::Left, button_state: MouseButtonState::Up }
}

fn menu(id: &str) -> Event {
    Event::MenuActivated { id: id.to_string() }
}

fn focus(focused: bool) -> Event {
    Event::WindowFocusChanged { focused }
}

#[test]
fn click_then_focus_loss_shows_focuses_hides() {
    let mut window = WindowModel::new();
    let issued = replay(&mut window, &vec![left_up(), focus(false)]);
    assert_eq!(issued, vec![Command::Show, Command::Focus, Command::Hide]);
    assert!(!window.visible);
    let more = replay(&mut window, &vec![left_up()]);
    assert_eq!(more, vec![Command::Show, Command::Focus]);
    assert!(window.visible);
}

#[test]
fn replay_in_two_parts_equals_replay_at_once() {
    let earlier = vec![left_up(), focus(true), menu("about")];
    let later = vec![left_up(), left_up(), focus(false)];
    let mut all = earlier.clone();
    all.extend(later.clone());

    let mut one = WindowModel::new();
    let at_once = replay(&mut one, &all);

    let mut two = WindowModel::new();
    let mut in_parts = replay(&mut two, &earlier);
    in_parts.extend(replay(&mut two, &later));

    assert_eq!(at_once, in_parts);
    assert_eq!(
        at_once,
        vec![
            Command::Show,
            Command::Focus,
            Command::Hide,
            Command::Show,
            Command::Focus,
            Command::Hide
        ]
    );
    assert_eq!(one, two);
}

#[test]
fn replay_ends_at_quit() {
    let mut window = WindowModel::new();
    let issued = replay(&mut window, &vec![left_up(), menu("quit"), left_up(), focus(false)]);
    assert_eq!(issued, vec![Command::Show, Command::Focus, Command::Exit { code: 0 }]);
    assert!(window.visible);
}

#[test]
fn replay_of_nothing_issues_nothing() {
    let mut window = WindowModel { visible: true };
    assert_eq!(replay(&mut window, &Vec::new()), Vec::<Command>::new());
    assert!(window.visible);
}

#[test]
fn double_toggle_returns_to_hidden() {
    let mut window = WindowModel::new();
    let issued = replay(&mut window, &vec![left_up(), left_up()]);
    assert_eq!(issued, vec![Command::Show, Command::Focus, Command::Hide]);
    assert!(!window.visible);
}

#[test]
fn focus_loss_hides_whatever_the_visibility() {
    for reading in [Some(true), Some(false), None] {
        assert_eq!(handle(&focus(false), reading), vec![Command::Hide]);
        assert_eq!(handle(&focus(true), reading), Vec::<Command>::new());
    }
}

#[test]
fn handle_routes_each_kind_of_event() {
    assert_eq!(handle(&menu("quit"), None), vec![Command::Exit { code: 0 }]);
    assert_eq!(handle(&menu("quit"), Some(true)), vec![Command::Exit { code: 0 }]);
    assert_eq!(handle(&menu("help"), Some(true)), Vec::<Command>::new());
    assert_eq!(handle(&left_up(), Some(true)), vec![Command::Hide]);
    assert_eq!(handle(&left_up(), Some(false)), vec![Command::Show, Command::Focus]);
    assert_eq!(handle(&left_up(), None), vec![Command::Show, Command::Focus]);
    let right_up =
        Event::TrayClicked { button: MouseButton::Right, button_state: MouseButtonState::Up };
    let left_down =
        Event::TrayClicked { button: MouseButton::Left, button_state: MouseButtonState::Down };
    let middle_up =
        Event::TrayClicked { button: MouseButton::Middle, button_state: MouseButtonState::Up };
    for e in [right_up, left_down, middle_up] {
        assert_eq!(handle(&e, Some(true)), Vec::<Command>::new());
        assert_eq!(handle(&e, Some(false)), Vec::<Command>::new());
    }
}

#[test]
fn classify_names_the_transition() {
    assert_eq!(classify(&menu("quit")), Transition::Quit);
    assert_eq!(classify(&menu("Quit")), Transition::Ignored);
    assert_eq!(classify(&menu("")), Transition::Ignored);
    assert_eq!(classify(&left_up()), Transition::ToggleRequested);
    assert_eq!(classify(&focus(false)), Transition::FocusLost);
    assert_eq!(classify(&focus(true)), Transition::Ignored);
}

#[test]
fn commands_of_each_transition() {
    assert_eq!(commands(Transition::Quit, Some(true)), vec![Command::Exit { code: 0 }]);
    assert_eq!(commands(Transition::FocusLost, Some(false)), vec![Command::Hide]);
    assert_eq!(commands(Transition::Ignored, Some(true)), Vec::<Command>::new());
    assert_eq!(commands(Transition::ToggleRequested, Some(true)), vec![Command::Hide]);
    assert_eq!(
        commands(Transition::ToggleRequested, None),
        vec![Command::Show, Command::Focus]
    );
}

#[test]
fn startup_runs_through_its_steps_in_order() {
    let mut phase = Phase::initial();
    assert_eq!(phase, Phase::Starting { next: StartupStep::AcquireWindow });
    phase = phase.step_finished(true);
    assert_eq!(phase, Phase::Starting { next: StartupStep::BuildTray });
    phase = phase.step_finished(true);
    assert_eq!(phase, Phase::Starting { next: StartupStep::ApplyPresentationPolicy });
    phase = phase.step_finished(true);
    assert_eq!(phase, Phase::Starting { next: StartupStep::RegisterFocusHandler });
    assert!(!phase.is_running());
    phase = phase.step_finished(true);
    assert_eq!(phase, Phase::Running);
    assert!(phase.is_running());
}

#[test]
fn failure_of_a_required_step_aborts_startup() {
    for step in
        [StartupStep::AcquireWindow, StartupStep::BuildTray, StartupStep::RegisterFocusHandler]
    {
        assert!(step.is_required());
        let phase = Phase::Starting { next: step }.step_finished(false);
        assert_eq!(phase, Phase::Aborted { failed: step });
        assert_eq!(phase.step_finished(true), phase);
    }
}

#[test]
fn presentation_policy_is_best_effort() {
    assert!(!StartupStep::ApplyPresentationPolicy.is_required());
    let phase = Phase::Starting { next: StartupStep::ApplyPresentationPolicy };
    assert_eq!(
        phase.step_finished(false),
        Phase::Starting { next: StartupStep::RegisterFocusHandler }
    );
    assert_eq!(phase.step_finished(false), phase.step_finished(true));
}

#[test]
fn steps_follow_one_another() {
    assert_eq!(
        StartupStep::AcquireWindow.following(),
        Phase::Starting { next: StartupStep::BuildTray }
    );
    assert_eq!(StartupStep::RegisterFocusHandler.following(), Phase::Running);
}

#[test]
fn exit_request_ends_a_running_shell() {
    assert_eq!(
        Phase::Running.command_issued(Command::Exit { code: 0 }),
        Phase::Exited { code: 0 }
    );
    assert_eq!(Phase::Running.command_issued(Command::Hide), Phase::Running);
    assert_eq!(Phase::Running.command_issued(Command::Show), Phase::Running);
    let starting = Phase::initial();
    assert_eq!(starting.command_issued(Command::Exit { code: 0 }), starting);
    let exited = Phase::Exited { code: 0 };
    assert_eq!(exited.step_finished(true), exited);
    assert_eq!(Phase::Running.step_finished(false), Phase::Running);
}
