//! The tray menu and the dispatcher of its commands.

use vstd::prelude::*;
use crate::command::Command;

verus! {

/// Identifier of the menu item that terminates the application.
pub open spec fn spec_quit_id() -> Seq<char> {
    "quit"@
}

/// Label of the menu item that terminates the application.
pub open spec fn spec_quit_label() -> Seq<char> {
    "Quit"@
}

/// Identifier of the menu item that terminates the application.
pub fn quit_id() -> (id: &'static str)
    ensures
        id@ == spec_quit_id(),
{
    "quit"
}

/// An entry of the tray menu: a stable identifier and a display label.
/// Neither changes once the item is built.
#[derive(Clone, Debug, PartialEq, Eq)]
pub struct MenuItem {
    id: String,
    label: String,
}

impl MenuItem {
    /// The identifier, as text.
    pub closed spec fn spec_id(&self) -> Seq<char> {
        self.id@
    }

    /// The display label, as text.
    pub closed spec fn spec_label(&self) -> Seq<char> {
        self.label@
    }

    /// Builds an item with the given identifier and label.
    pub fn new(id: &str, label: &str) -> (item: MenuItem)
        ensures
            item.spec_id() == id@,
            item.spec_label() == label@,
    {
        MenuItem { id: id.to_owned(), label: label.to_owned() }
    }

    /// The item that terminates the application.
    pub fn quit() -> (item: MenuItem)
        ensures
            item.spec_id() == spec_quit_id(),
            item.spec_label() == spec_quit_label(),
    {
        MenuItem::new("quit", "Quit")
    }

    /// The identifier.
    pub fn id(&self) -> (r: &str)
        ensures
            r@ == self.spec_id(),
    {
        self.id.as_str()
    }

    /// The display label.
    pub fn label(&self) -> (r: &str)
        ensures
            r@ == self.spec_label(),
    {
        self.label.as_str()
    }
}

/// Whether two pieces of text are the same.
fn same_text(a: &str, b: &str) -> (r: bool)
    ensures
        r == (a@ == b@),
{
    let left: String = a.to_owned();
    let right: String = b.to_owned();
    left == right
}

/// Whether `id` identifies the quit item. Identifiers are compared as they
/// are: case and surrounding blanks count.
pub fn is_quit_id(id: &str) -> (r: bool)
    ensures
        r == (id@ == spec_quit_id()),
{
    same_text(id, quit_id())
}

/// Commands that the activation of the menu item `id` calls for.
pub open spec fn spec_dispatch(id: Seq<char>) -> Seq<Command> {
    if id == spec_quit_id() {
        seq![Command::Exit { code: 0 }]
    } else {
        Seq::<Command>::empty()
    }
}

/// Maps an activated menu item to its commands: the quit item requests
/// process exit with code 0, any other identifier requests nothing.
pub fn dispatch(id: &str) -> (cmds: Vec<Command>)
    ensures
        cmds@ == spec_dispatch(id@),
{
    let mut cmds: Vec<Command> = Vec::new();
    if is_quit_id(id) {
        cmds.push(Command::Exit { code: 0 });
        assert(cmds@ =~= seq![Command::Exit { code: 0 }]);
    } else {
        assert(cmds@ =~= Seq::<Command>::empty());
    }
    cmds
}

} // verus!
