//! Username/password credentials and the prompt that collects them.

use crate::input::{visibility_blocking, Command, CommandBlocking, CommandInfo, InputEvent, Key};
use vstd::prelude::*;

verus! {

/// A username/password pair; either part may be missing.
#[derive(Clone, Debug, PartialEq, Eq)]
pub struct Credential {
    pub username: Option<String>,
    pub password: Option<String>,
}

/// The contents of a [`Credential`].
pub struct CredentialView {
    pub username: Option<Seq<char>>,
    pub password: Option<Seq<char>>,
}

pub open spec fn field_view(f: Option<String>) -> Option<Seq<char>> {
    match f {
        Some(s) => Some(s@),
        None => None,
    }
}

/// A field counts as filled when it is present and not empty.
pub open spec fn filled(f: Option<Seq<char>>) -> bool {
    match f {
        Some(s) => s.len() > 0,
        None => false,
    }
}

/// The text of a field, a missing one reading as empty.
pub open spec fn text_of(f: Option<Seq<char>>) -> Seq<char> {
    match f {
        Some(s) => s,
        None => Seq::empty(),
    }
}

/// A field with one character typed at its end.
pub open spec fn typed(f: Option<Seq<char>>, c: char) -> Option<Seq<char>> {
    Some(text_of(f).push(c))
}

/// A field with its last character erased, if it has one.
pub open spec fn erased(f: Option<Seq<char>>) -> Option<Seq<char>> {
    match f {
        Some(s) => if s.len() > 0 {
            Some(s.drop_last())
        } else {
            f
        },
        None => f,
    }
}

impl CredentialView {
    /// Both username and password are present and non-empty.
    pub open spec fn complete(self) -> bool {
        filled(self.username) && filled(self.password)
    }

    pub open spec fn empty() -> CredentialView {
        CredentialView { username: None, password: None }
    }
}

impl View for Credential {
    type V = CredentialView;

    open spec fn view(&self) -> CredentialView {
        CredentialView { username: field_view(self.username), password: field_view(self.password) }
    }
}

fn copy_field(f: &Option<String>) -> (r: Option<String>)
    ensures
        field_view(r) == field_view(*f),
{
    match f {
        Some(s) => Some(s.clone()),
        None => None,
    }
}

fn field_filled(f: &Option<String>) -> (r: bool)
    ensures
        r == filled(field_view(*f)),
{
    match f {
        Some(s) => !s.as_str().is_empty(),
        None => false,
    }
}

/// Relies on `String::push`: the character is appended at the end.
#[verifier::external_body]
fn push_char(s: &mut String, c: char)
    ensures
        final(s)@ == old(s)@.push(c),
{
    s.push(c)
}

/// Relies on `String::pop`: the last character is removed and returned, and
/// an empty string gives `None` and stays empty.
#[verifier::external_body]
fn pop_char(s: &mut String) -> (r: Option<char>)
    ensures
        old(s)@.len() == 0 ==> r is None && final(s)@ == old(s)@,
        old(s)@.len() > 0 ==> r == Some(old(s)@.last()) && final(s)@ == old(s)@.drop_last(),
{
    s.pop()
}

fn type_into(f: &mut Option<String>, c: char)
    ensures
        field_view(*final(f)) == typed(field_view(*old(f)), c),
{
    let mut s = match f {
        Some(s) => s.clone(),
        None => String::new(),
    };
    push_char(&mut s, c);
    *f = Some(s);
}

fn erase_from(f: &mut Option<String>)
    ensures
        field_view(*final(f)) == erased(field_view(*old(f))),
{
    let mut s = match f {
        Some(s) => s.clone(),
        None => {
            return;
        },
    };
    let _ = pop_char(&mut s);
    *f = Some(s);
}

impl Credential {
    pub fn new(username: Option<String>, password: Option<String>) -> (r: Self)
        ensures
            r.username == username,
            r.password == password,
    {
        Credential { username, password }
    }

    /// Both username and password are present and non-empty.
    pub fn is_complete(&self) -> (r: bool)
        ensures
            r == self@.complete(),
    {
        field_filled(&self.username) && field_filled(&self.password)
    }

    /// A copy with the same contents.
    pub fn duplicate(&self) -> (r: Self)
        ensures
            r@ == self@,
    {
        Credential { username: copy_field(&self.username), password: copy_field(&self.password) }
    }
}

/// The field of the prompt that receives typed characters.
#[derive(Clone, Copy, Debug, PartialEq, Eq, Structural)]
pub enum CredField {
    Username,
    Password,
}

/// The prompt that asks the user for a credential.
pub struct CredComponent {
    visible: bool,
    focus: CredField,
    cred: Credential,
}

/// The state of a [`CredComponent`].
pub struct CredView {
    pub visible: bool,
    pub focus: CredField,
    pub cred: CredentialView,
}

impl CredView {
    /// The prompt shown, with the cursor in the username field.
    pub open spec fn shown(self) -> CredView {
        CredView { visible: true, focus: CredField::Username, ..self }
    }

    pub open spec fn hidden(self) -> CredView {
        CredView { visible: false, ..self }
    }

    /// The credential after typing `c` into the focused field.
    pub open spec fn typed(self, c: char) -> CredentialView {
        match self.focus {
            CredField::Username => CredentialView { username: typed(self.cred.username, c), ..self.cred },
            CredField::Password => CredentialView { password: typed(self.cred.password, c), ..self.cred },
        }
    }

    /// The credential after erasing the last character of the focused field.
    pub open spec fn erased(self) -> CredentialView {
        match self.focus {
            CredField::Username => CredentialView { username: erased(self.cred.username), ..self.cred },
            CredField::Password => CredentialView { password: erased(self.cred.password), ..self.cred },
        }
    }

    /// The prompt after an input event, and whether it consumed the event.
    /// A hidden prompt ignores everything. A shown one consumes every event
    /// except a confirmation in the password field, which is left to the
    /// owner of the prompt.
    pub open spec fn on_input(self, ev: InputEvent) -> (CredView, bool) {
        if !self.visible {
            (self, false)
        } else {
            match ev {
                InputEvent::Key(Key::Exit) => (self.hidden(), true),
                InputEvent::Key(Key::Char(c)) => (CredView { cred: self.typed(c), ..self }, true),
                InputEvent::Key(Key::Backspace) => (CredView { cred: self.erased(), ..self }, true),
                InputEvent::Key(Key::Enter) => match self.focus {
                    CredField::Username => (CredView { focus: CredField::Password, ..self }, true),
                    CredField::Password => (self, false),
                },
                _ => (self, true),
            }
        }
    }
}

impl View for CredComponent {
    type V = CredView;

    closed spec fn view(&self) -> CredView {
        CredView { visible: self.visible, focus: self.focus, cred: self.cred@ }
    }
}

impl CredComponent {
    /// A hidden prompt holding no credential.
    pub fn new() -> (r: Self)
        ensures
            r@ == (CredView {
                visible: false,
                focus: CredField::Username,
                cred: CredentialView::empty(),
            }),
    {
        CredComponent { visible: false, focus: CredField::Username, cred: Credential::new(None, None) }
    }

    pub fn is_visible(&self) -> (r: bool)
        ensures
            r == self@.visible,
    {
        self.visible
    }

    pub fn focus(&self) -> (r: CredField)
        ensures
            r == self@.focus,
    {
        self.focus
    }

    pub fn show(&mut self)
        ensures
            final(self)@ == old(self)@.shown(),
    {
        self.visible = true;
        self.focus = CredField::Username;
    }

    pub fn dismiss(&mut self)
        ensures
            final(self)@ == old(self)@.hidden(),
    {
        self.visible = false;
    }

    /// Replaces the credential being edited.
    pub fn set_cred(&mut self, cred: Credential)
        ensures
            final(self)@ == (CredView { cred: cred@, ..old(self)@ }),
    {
        self.cred = cred;
    }

    pub fn get_cred(&self) -> (r: &Credential)
        ensures
            r@ == self@.cred,
    {
        &self.cred
    }

    /// Handles an input event; returns whether the event was consumed.
    pub fn event(&mut self, ev: InputEvent) -> (r: bool)
        ensures
            (final(self)@, r) == old(self)@.on_input(ev),
    {
        if !self.visible {
            return false;
        }
        match ev {
            InputEvent::Key(Key::Exit) => {
                self.dismiss();
            },
            InputEvent::Key(Key::Char(c)) => {
                match self.focus {
                    CredField::Username => type_into(&mut self.cred.username, c),
                    CredField::Password => type_into(&mut self.cred.password, c),
                }
            },
            InputEvent::Key(Key::Backspace) => {
                match self.focus {
                    CredField::Username => erase_from(&mut self.cred.username),
                    CredField::Password => erase_from(&mut self.cred.password),
                }
            },
            InputEvent::Key(Key::Enter) => {
                match self.focus {
                    CredField::Username => {
                        self.focus = CredField::Password;
                    },
                    CredField::Password => {
                        return false;
                    },
                }
            },
            _ => {},
        }
        true
    }

    /// Appends the prompt's affordances while it is shown: confirm and close.
    pub fn commands(&self, out: &mut Vec<CommandInfo>, force_all: bool) -> (r: CommandBlocking)
        ensures
            final(out)@ == (if self@.visible {
                old(out)@.push(CommandInfo { command: Command::Validate, enabled: true, available: true })
                    .push(CommandInfo { command: Command::Close, enabled: true, available: true })
            } else {
                old(out)@
            }),
            r == (if self@.visible { CommandBlocking::Blocking } else { CommandBlocking::PassingOn }),
    {
        if self.visible {
            out.push(CommandInfo::new(Command::Validate, true, true));
            out.push(CommandInfo::new(Command::Close, true, true));
        }
        visibility_blocking(self.visible)
    }
}

} // verus!
