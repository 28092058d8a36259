//! Laws of the shell, stated over the models that its functions' contracts use.

use vstd::prelude::*;
use crate::command::{exit_requests, occurrences, Command};
use crate::event::{Event, MouseButton, MouseButtonState, Transition, TrayIconEvent};
use crate::lifecycle::{
    lemma_visible_after_concat, spec_classify, spec_commands, spec_handle, spec_replay,
};
use crate::menu::{spec_dispatch, spec_quit_id};
use crate::tray::spec_on_tray_icon_event;
use crate::visibility::{spec_focus_changed, spec_toggle};
use crate::window::{spec_is_visible, visible_after_all};

verus! {

/// A sequence of one command holds that command once and no other.
proof fn lemma_occurrences_one(a: Command, c: Command)
    ensures
        occurrences(seq![a], c) == (if a == c { 1nat } else { 0nat }),
        exit_requests(seq![a]) == (if a is Exit { 1nat } else { 0nat }),
{
    let s = seq![a];
    assert(s.drop_last() =~= Seq::<Command>::empty());
    assert(s.last() == a);
    reveal_with_fuel(occurrences, 2);
    reveal_with_fuel(exit_requests, 2);
}

/// A sequence of two commands holds each as often as it was written.
proof fn lemma_occurrences_two(a: Command, b: Command, c: Command)
    ensures
        occurrences(seq![a, b], c) == (if a == c { 1nat } else { 0nat }) + (if b == c {
            1nat
        } else {
            0nat
        }),
        exit_requests(seq![a, b]) == (if a is Exit { 1nat } else { 0nat }) + (if b is Exit {
            1nat
        } else {
            0nat
        }),
{
    let s = seq![a, b];
    assert(s.drop_last() =~= seq![a]);
    assert(s.last() == b);
    lemma_occurrences_one(a, c);
}

/// A toggle request on a window read as visible hides it once, and neither
/// shows nor focuses it.
pub proof fn law_toggle_hides_visible_window(reading: Option<bool>)
    requires
        spec_is_visible(reading),
    ensures
        spec_toggle(spec_is_visible(reading)) == seq![Command::Hide],
        occurrences(spec_toggle(spec_is_visible(reading)), Command::Hide) == 1,
        occurrences(spec_toggle(spec_is_visible(reading)), Command::Show) == 0,
        occurrences(spec_toggle(spec_is_visible(reading)), Command::Focus) == 0,
        exit_requests(spec_toggle(spec_is_visible(reading))) == 0,
{
    lemma_occurrences_one(Command::Hide, Command::Hide);
    lemma_occurrences_one(Command::Hide, Command::Show);
    lemma_occurrences_one(Command::Hide, Command::Focus);
}

/// A toggle request on a window read as hidden shows it once and then
/// focuses it once, and does not hide it.
pub proof fn law_toggle_shows_hidden_window(reading: Option<bool>)
    requires
        !spec_is_visible(reading),
    ensures
        spec_toggle(spec_is_visible(reading)) == seq![Command::Show, Command::Focus],
        occurrences(spec_toggle(spec_is_visible(reading)), Command::Show) == 1,
        occurrences(spec_toggle(spec_is_visible(reading)), Command::Focus) == 1,
        occurrences(spec_toggle(spec_is_visible(reading)), Command::Hide) == 0,
        exit_requests(spec_toggle(spec_is_visible(reading))) == 0,
{
    lemma_occurrences_two(Command::Show, Command::Focus, Command::Show);
    lemma_occurrences_two(Command::Show, Command::Focus, Command::Focus);
    lemma_occurrences_two(Command::Show, Command::Focus, Command::Hide);
}

/// A failed visibility reading is decided exactly as a reading of "hidden":
/// the window is shown and then focused.
pub proof fn law_failed_reading_counts_as_hidden()
    ensures
        spec_is_visible(None) == spec_is_visible(Some(false)),
        spec_toggle(spec_is_visible(None)) == spec_toggle(spec_is_visible(Some(false))),
        spec_toggle(spec_is_visible(None)) == seq![Command::Show, Command::Focus],
        forall|t: Transition|
            spec_commands(t, spec_is_visible(None)) == spec_commands(
                t,
                spec_is_visible(Some(false)),
            ),
{
}

/// A toggle request carried out on a window inverts its visibility.
pub proof fn law_toggle_inverts_visibility(visible: bool)
    ensures
        visible_after_all(visible, spec_toggle(visible)) == !visible,
{
    let cmds = spec_toggle(visible);
    if visible {
        assert(cmds.drop_last() =~= Seq::<Command>::empty());
        assert(cmds.last() == Command::Hide);
        reveal_with_fuel(visible_after_all, 2);
    } else {
        assert(cmds.drop_last() =~= seq![Command::Show]);
        assert(cmds.drop_last().drop_last() =~= Seq::<Command>::empty());
        assert(cmds.last() == Command::Focus);
        assert(cmds.drop_last().last() == Command::Show);
        reveal_with_fuel(visible_after_all, 3);
    }
}

/// Losing focus hides the window once, whatever its visibility was, and
/// leaves it hidden; gaining focus issues no command.
pub proof fn law_focus_loss_always_hides(visible: bool)
    ensures
        spec_focus_changed(false) == seq![Command::Hide],
        spec_handle(Event::WindowFocusChanged { focused: false }, visible) == seq![Command::Hide],
        occurrences(
            spec_handle(Event::WindowFocusChanged { focused: false }, visible),
            Command::Hide,
        ) == 1,
        !visible_after_all(
            visible,
            spec_handle(Event::WindowFocusChanged { focused: false }, visible),
        ),
        spec_focus_changed(true) == Seq::<Command>::empty(),
        spec_handle(Event::WindowFocusChanged { focused: true }, visible)
            == Seq::<Command>::empty(),
{
    let cmds = seq![Command::Hide];
    lemma_occurrences_one(Command::Hide, Command::Hide);
    assert(cmds.drop_last() =~= Seq::<Command>::empty());
    assert(cmds.last() == Command::Hide);
    reveal_with_fuel(visible_after_all, 2);
}

/// The quit item requests process exit once, with code 0, and nothing else;
/// every other identifier requests nothing at all.
pub proof fn law_menu_dispatch_routing(id: Seq<char>)
    ensures
        id == spec_quit_id() ==> spec_dispatch(id) == seq![Command::Exit { code: 0 }],
        id == spec_quit_id() ==> exit_requests(spec_dispatch(id)) == 1,
        id == spec_quit_id() ==> occurrences(spec_dispatch(id), Command::Exit { code: 0 }) == 1,
        id != spec_quit_id() ==> spec_dispatch(id) == Seq::<Command>::empty(),
        id != spec_quit_id() ==> exit_requests(spec_dispatch(id)) == 0,
{
    lemma_occurrences_one(Command::Exit { code: 0 }, Command::Exit { code: 0 });
}

/// Of all tray interactions only the release of the left button triggers a
/// transition, and that one is a toggle request.
pub proof fn law_tray_click_filtering(event: TrayIconEvent)
    ensures
        spec_on_tray_icon_event(event) == Transition::ToggleRequested <==> event == (
        TrayIconEvent::Click { button: MouseButton::Left, button_state: MouseButtonState::Up }),
        spec_on_tray_icon_event(event) != Transition::ToggleRequested
            ==> spec_on_tray_icon_event(event) == Transition::Ignored,
{
}

/// Of all clicks delivered as events only the release of the left button
/// issues commands, and they are those of a toggle request.
pub proof fn law_click_event_filtering(
    button: MouseButton,
    button_state: MouseButtonState,
    visible: bool,
)
    ensures
        button == MouseButton::Left && button_state == MouseButtonState::Up ==> spec_handle(
            Event::TrayClicked { button, button_state },
            visible,
        ) == spec_toggle(visible),
        !(button == MouseButton::Left && button_state == MouseButtonState::Up) ==> spec_handle(
            Event::TrayClicked { button, button_state },
            visible,
        ) == Seq::<Command>::empty(),
{
}

/// Handling an event is routing it to the component that owns its kind: a
/// menu activation to the dispatcher, a tray click through the click filter
/// to the toggle, a focus change to the focus rule.
pub proof fn law_handle_routes_by_kind(event: Event, visible: bool)
    ensures
        event matches Event::MenuActivated { id } ==> spec_handle(event, visible)
            == spec_dispatch(id@),
        event matches Event::TrayClicked { button, button_state } ==> spec_handle(event, visible)
            == spec_commands(
            spec_on_tray_icon_event(TrayIconEvent::Click { button, button_state }),
            visible,
        ),
        event matches Event::WindowFocusChanged { focused } ==> spec_handle(event, visible)
            == spec_focus_changed(focused),
{
}

/// Handling an event leaves a running shell running unless the event quits:
/// only the quit transition issues an exit request.
pub proof fn law_only_quit_exits(event: Event, visible: bool)
    ensures
        exit_requests(spec_handle(event, visible)) == (if spec_classify(event) is Quit {
            1nat
        } else {
            0nat
        }),
{
    match spec_classify(event) {
        Transition::ToggleRequested => {
            if visible {
                law_toggle_hides_visible_window(Some(true));
            } else {
                law_toggle_shows_hidden_window(Some(false));
            }
        },
        Transition::FocusLost => {
            lemma_occurrences_one(Command::Hide, Command::Hide);
        },
        Transition::Quit => {
            law_menu_dispatch_routing(spec_quit_id());
        },
        Transition::Ignored => {},
    }
}

/// A replay that has not quit is ready for more: handling `earlier` and then
/// `later` issues the commands of `earlier` followed by those of `later`
/// handled from the visibility in which `earlier` left the window.
pub proof fn law_replay_continues(visible: bool, earlier: Seq<Event>, later: Seq<Event>)
    requires
        forall|i: int| 0 <= i < earlier.len() ==> !(#[trigger] spec_classify(earlier[i]) is Quit),
    ensures
        spec_replay(visible, earlier + later) == spec_replay(visible, earlier) + spec_replay(
            visible_after_all(visible, spec_replay(visible, earlier)),
            later,
        ),
    decreases earlier.len(),
{
    if earlier.len() == 0 {
        assert(earlier + later =~= later);
        assert(Seq::<Command>::empty() + spec_replay(visible, later) =~= spec_replay(
            visible,
            later,
        ));
    } else {
        let first = spec_handle(earlier[0], visible);
        let next = visible_after_all(visible, first);
        let rest = earlier.drop_first();
        assert(!(spec_classify(earlier[0]) is Quit));
        assert forall|i: int| 0 <= i < rest.len() implies !(#[trigger] spec_classify(rest[i])
            is Quit) by {
            assert(rest[i] == earlier[i + 1]);
        }
        law_replay_continues(next, rest, later);
        assert((earlier + later)[0] == earlier[0]);
        assert((earlier + later).drop_first() =~= rest + later);
        lemma_visible_after_concat(visible, first, spec_replay(next, rest));
        let tail = spec_replay(visible_after_all(next, spec_replay(next, rest)), later);
        assert(first + (spec_replay(next, rest) + tail) =~= (first + spec_replay(next, rest))
            + tail);
    }
}

} // verus!
