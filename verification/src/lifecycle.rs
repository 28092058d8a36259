//! The application lifecycle: the ordered startup steps, the handling of
//! events while the shell runs, and the quit path.

use vstd::prelude::*;
use crate::command::Command;
use crate::event::{Event, Transition};
use crate::menu::{dispatch, is_quit_id, quit_id, spec_dispatch, spec_quit_id};
use crate::tray::{is_toggle_click, spec_is_toggle_click};
use crate::visibility::{focus_changed, spec_focus_changed, spec_toggle, toggle};
use crate::window::{spec_is_visible, visible_after_all, WindowModel};

verus! {

/// A step of the startup sequence.
#[derive(Clone, Copy, Debug, PartialEq, Eq, Structural)]
pub enum StartupStep {
    /// Obtain the handle of the one managed window.
    AcquireWindow,
    /// Build the menu and the tray icon, with their event handlers attached.
    BuildTray,
    /// Apply the platform's presentation policy; cosmetic.
    ApplyPresentationPolicy,
    /// Register the handler of the window's focus changes.
    RegisterFocusHandler,
}

/// Where the application is in its life.
#[derive(Clone, Copy, Debug, PartialEq, Eq, Structural)]
pub enum Phase {
    /// Startup is under way; `next` is the step to perform.
    Starting { next: StartupStep },
    /// Startup is complete and events are being handled.
    Running,
    /// Startup was given up because the step `failed` did.
    Aborted { failed: StartupStep },
    /// Process exit was requested with `code`.
    Exited { code: i32 },
}

impl StartupStep {
    /// Whether startup cannot go on when this step fails.
    pub open spec fn spec_is_required(self) -> bool {
        !(self is ApplyPresentationPolicy)
    }

    /// The phase that follows this step when it has succeeded.
    pub open spec fn spec_following(self) -> Phase {
        match self {
            StartupStep::AcquireWindow => Phase::Starting { next: StartupStep::BuildTray },
            StartupStep::BuildTray => Phase::Starting {
                next: StartupStep::ApplyPresentationPolicy,
            },
            StartupStep::ApplyPresentationPolicy => Phase::Starting {
                next: StartupStep::RegisterFocusHandler,
            },
            StartupStep::RegisterFocusHandler => Phase::Running,
        }
    }

    /// Whether startup cannot go on when this step fails. Only the
    /// presentation policy is best-effort.
    pub fn is_required(&self) -> (r: bool)
        ensures
            r == self.spec_is_required(),
    {
        match self {
            StartupStep::ApplyPresentationPolicy => false,
            _ => true,
        }
    }

    /// The phase that follows this step when it has succeeded.
    pub fn following(&self) -> (p: Phase)
        ensures
            p == self.spec_following(),
    {
        match self {
            StartupStep::AcquireWindow => Phase::Starting { next: StartupStep::BuildTray },
            StartupStep::BuildTray => Phase::Starting {
                next: StartupStep::ApplyPresentationPolicy,
            },
            StartupStep::ApplyPresentationPolicy => Phase::Starting {
                next: StartupStep::RegisterFocusHandler,
            },
            StartupStep::RegisterFocusHandler => Phase::Running,
        }
    }
}

impl Phase {
    /// The phase after the pending startup step has ended, with or without
    /// success. Outside startup nothing changes.
    pub open spec fn spec_step_finished(self, succeeded: bool) -> Phase {
        match self {
            Phase::Starting { next } => {
                if succeeded || !next.spec_is_required() {
                    next.spec_following()
                } else {
                    Phase::Aborted { failed: next }
                }
            },
            _ => self,
        }
    }

    /// The phase after `c` has been issued: an exit request ends a running
    /// shell, and nothing else changes the phase.
    pub open spec fn spec_command_issued(self, c: Command) -> Phase {
        match (self, c) {
            (Phase::Running, Command::Exit { code }) => Phase::Exited { code },
            _ => self,
        }
    }

    /// The phase in which an application begins.
    pub fn initial() -> (p: Phase)
        ensures
            p == (Phase::Starting { next: StartupStep::AcquireWindow }),
    {
        Phase::Starting { next: StartupStep::AcquireWindow }
    }

    /// Records the end of the pending startup step. A required step that
    /// failed aborts startup; otherwise the sequence moves on.
    pub fn step_finished(self, succeeded: bool) -> (p: Phase)
        ensures
            p == self.spec_step_finished(succeeded),
    {
        match self {
            Phase::Starting { next } => {
                if succeeded || !next.is_required() {
                    next.following()
                } else {
                    Phase::Aborted { failed: next }
                }
            },
            _ => self,
        }
    }

    /// Records that `c` has been issued.
    pub fn command_issued(self, c: Command) -> (p: Phase)
        ensures
            p == self.spec_command_issued(c),
    {
        match (self, c) {
            (Phase::Running, Command::Exit { code }) => Phase::Exited { code },
            _ => self,
        }
    }

    /// Whether events are being handled in this phase.
    pub fn is_running(&self) -> (r: bool)
        ensures
            r == (*self is Running),
    {
        match self {
            Phase::Running => true,
            _ => false,
        }
    }
}

/// The transition that an event triggers.
pub open spec fn spec_classify(event: Event) -> Transition {
    match event {
        Event::MenuActivated { id } => {
            if id@ == spec_quit_id() {
                Transition::Quit
            } else {
                Transition::Ignored
            }
        },
        Event::TrayClicked { button, button_state } => {
            if spec_is_toggle_click(button, button_state) {
                Transition::ToggleRequested
            } else {
                Transition::Ignored
            }
        },
        Event::WindowFocusChanged { focused } => {
            if focused {
                Transition::Ignored
            } else {
                Transition::FocusLost
            }
        },
    }
}

/// The commands of a transition on a window whose visibility is `visible`.
pub open spec fn spec_commands(t: Transition, visible: bool) -> Seq<Command> {
    match t {
        Transition::ToggleRequested => spec_toggle(visible),
        Transition::FocusLost => spec_focus_changed(false),
        Transition::Quit => spec_dispatch(spec_quit_id()),
        Transition::Ignored => Seq::<Command>::empty(),
    }
}

/// The commands of an event on a window whose visibility is `visible`.
pub open spec fn spec_handle(event: Event, visible: bool) -> Seq<Command> {
    spec_commands(spec_classify(event), visible)
}

/// Names the transition that an event triggers.
pub fn classify(event: &Event) -> (t: Transition)
    ensures
        t == spec_classify(*event),
{
    match event {
        Event::MenuActivated { id } => {
            if is_quit_id(id.as_str()) {
                Transition::Quit
            } else {
                Transition::Ignored
            }
        },
        Event::TrayClicked { button, button_state } => {
            if is_toggle_click(*button, *button_state) {
                Transition::ToggleRequested
            } else {
                Transition::Ignored
            }
        },
        Event::WindowFocusChanged { focused } => {
            if *focused {
                Transition::Ignored
            } else {
                Transition::FocusLost
            }
        },
    }
}

/// Decides the commands of a transition. `reading` is a fresh reading of the
/// window's visibility, `None` where the reading failed; only a toggle
/// request looks at it.
pub fn commands(t: Transition, reading: Option<bool>) -> (cmds: Vec<Command>)
    ensures
        cmds@ == spec_commands(t, spec_is_visible(reading)),
{
    match t {
        Transition::ToggleRequested => toggle(reading),
        Transition::FocusLost => focus_changed(false),
        Transition::Quit => dispatch(quit_id()),
        Transition::Ignored => {
            let cmds: Vec<Command> = Vec::new();
            assert(cmds@ =~= Seq::<Command>::empty());
            cmds
        },
    }
}

/// Handles one event: the commands to carry out, in order, given a fresh
/// reading of the window's visibility.
pub fn handle(event: &Event, reading: Option<bool>) -> (cmds: Vec<Command>)
    ensures
        cmds@ == spec_handle(*event, spec_is_visible(reading)),
{
    commands(classify(event), reading)
}

/// The commands issued while `events` are handled in order, from a window
/// whose visibility is `visible` and on which every command succeeds. The run
/// ends with the first event that quits.
pub open spec fn spec_replay(visible: bool, events: Seq<Event>) -> Seq<Command>
    decreases events.len(),
{
    if events.len() == 0 {
        Seq::<Command>::empty()
    } else {
        let first: Seq<Command> = spec_handle(events[0], visible);
        if spec_classify(events[0]) is Quit {
            first
        } else {
            first + spec_replay(visible_after_all(visible, first), events.drop_first())
        }
    }
}

/// Carrying out `a` and then `b` is carrying out their concatenation.
pub proof fn lemma_visible_after_concat(visible: bool, a: Seq<Command>, b: Seq<Command>)
    ensures
        visible_after_all(visible, a + b) == visible_after_all(
            visible_after_all(visible, a),
            b,
        ),
    decreases b.len(),
{
    if b.len() == 0 {
        assert(a + b =~= a);
    } else {
        lemma_visible_after_concat(visible, a, b.drop_last());
        assert((a + b).drop_last() =~= a + b.drop_last());
        assert((a + b).last() == b.last());
    }
}

/// Replays `events` in order against `window`: each event is handled with a
/// reading of the window as the commands before it have left it, and its
/// commands are carried out before the next event is looked at. Returns all
/// commands issued. Nothing after a quit is handled.
pub fn replay(window: &mut WindowModel, events: &Vec<Event>) -> (issued: Vec<Command>)
    ensures
        issued@ == spec_replay(old(window).visible, events@),
        final(window).visible == visible_after_all(old(window).visible, issued@),
{
    let ghost start: bool = window.visible;
    let mut issued: Vec<Command> = Vec::new();
    let mut quit: bool = false;
    let mut i: usize = 0;
    proof {
        assert(events@.skip(0) =~= events@);
        assert(Seq::<Command>::empty() + spec_replay(start, events@) =~= spec_replay(start, events@));
    }
    while i < events.len() && !quit
        invariant
            i <= events.len(),
            !quit ==> spec_replay(start, events@) == issued@ + spec_replay(
                window.visible,
                events@.skip(i as int),
            ),
            quit ==> spec_replay(start, events@) == issued@,
            window.visible == visible_after_all(start, issued@),
        decreases events.len() - i, (if quit { 0int } else { 1int }),
    {
        let ghost before: Seq<Command> = issued@;
        let ghost visible: bool = window.visible;
        let ghost rest: Seq<Event> = events@.skip(i as int);
        let event: &Event = &events[i];
        let transition: Transition = classify(event);
        let mut step: Vec<Command> = commands(transition, window.reading());
        window.apply_all(&step);
        proof {
            assert(rest[0] == events@[i as int]);
            assert(rest.drop_first() =~= events@.skip(i + 1));
            lemma_visible_after_concat(start, before, step@);
            assert(before + (step@ + spec_replay(window.visible, events@.skip(i + 1))) =~= (before
                + step@) + spec_replay(window.visible, events@.skip(i + 1)));
        }
        issued.append(&mut step);
        match transition {
            Transition::Quit => {
                quit = true;
            },
            _ => {
                i = i + 1;
            },
        }
    }
    proof {
        if !quit {
            assert(events@.skip(i as int) =~= Seq::<Event>::empty());
            assert(issued@ + Seq::<Command>::empty() =~= issued@);
        }
    }
    issued
}

} // verus!
