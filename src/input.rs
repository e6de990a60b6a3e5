//! Input events and the affordances a component offers while it is shown.

use vstd::prelude::*;

verus! {

/// A key press, already matched against the key bindings.
#[derive(Clone, Copy, Debug, PartialEq, Eq, Structural)]
pub enum Key {
    /// The binding that closes a popup.
    Exit,
    /// The binding that confirms.
    Enter,
    /// A printable character.
    Char(char),
    Backspace,
    /// Any other key.
    Other,
}

/// An input event delivered to a component.
#[derive(Clone, Copy, Debug, PartialEq, Eq, Structural)]
pub enum InputEvent {
    Key(Key),
    /// Mouse, resize and every other event that is not a key press.
    Other,
}

/// An affordance shown to the user.
#[derive(Clone, Copy, Debug, PartialEq, Eq, Structural)]
pub enum Command {
    /// Close the popup.
    Close,
    /// Confirm the entered credential.
    Validate,
}

/// An affordance together with whether it can be used now and whether it is
/// shown at all.
#[derive(Clone, Copy, Debug, PartialEq, Eq, Structural)]
pub struct CommandInfo {
    pub command: Command,
    pub enabled: bool,
    pub available: bool,
}

impl CommandInfo {
    pub fn new(command: Command, enabled: bool, available: bool) -> (r: Self)
        ensures
            r == (CommandInfo { command, enabled, available }),
    {
        CommandInfo { command, enabled, available }
    }
}

/// Whether the affordances of components below this one stay visible.
#[derive(Clone, Copy, Debug, PartialEq, Eq, Structural)]
pub enum CommandBlocking {
    Blocking,
    PassingOn,
}

/// A shown component hides the affordances below it.
pub fn visibility_blocking(visible: bool) -> (r: CommandBlocking)
    ensures
        r == (if visible { CommandBlocking::Blocking } else { CommandBlocking::PassingOn }),
{
    if visible {
        CommandBlocking::Blocking
    } else {
        CommandBlocking::PassingOn
    }
}

} // verus!
