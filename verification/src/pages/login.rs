//! The login page: two fields and a button, walked through with the arrow
//! keys and `Enter`.

use crate::pages::Key;
use vstd::prelude::*;

verus! {

/// What has the focus on the login page.
#[derive(Debug, Clone, Copy, PartialEq, Eq, Structural)]
pub enum LoginField {
    Username,
    Password,
    Login,
}

/// What the login page does after a key.
#[derive(Debug, Clone, Copy, PartialEq, Eq, Structural)]
pub enum LoginAction {
    /// Nothing but, perhaps, a move of the focus.
    Stay,
    /// The key is typed into the field that has the focus.
    Type,
    /// The name and the password are sent.
    Submit,
    /// The page is left without a login.
    Quit,
}

impl LoginField {
    /// What has the focus after `key`: `Down` and `Enter` move it on, from
    /// the name to the password to the button, `Up` moves it back.
    pub open spec fn after(self, key: Key) -> LoginField {
        match key {
            Key::Down | Key::Enter => match self {
                LoginField::Username => LoginField::Password,
                _ => LoginField::Login,
            },
            Key::Up => match self {
                LoginField::Login => LoginField::Password,
                _ => LoginField::Username,
            },
            _ => self,
        }
    }

    /// What the page does after `key`: `Esc` leaves it, `Enter` on the button
    /// submits, and any key but these and `Down` and `Up` is typed into the
    /// field that has the focus.
    pub open spec fn action(self, key: Key) -> LoginAction {
        match key {
            Key::Esc => LoginAction::Quit,
            Key::Enter => if self == LoginField::Login {
                LoginAction::Submit
            } else {
                LoginAction::Stay
            },
            Key::Down | Key::Up => LoginAction::Stay,
            _ => if self == LoginField::Login {
                LoginAction::Stay
            } else {
                LoginAction::Type
            },
        }
    }

    /// Takes in a key: what has the focus afterwards, and what the page does.
    pub fn on_key(self, key: Key) -> (next: (LoginField, LoginAction))
        ensures
            next == (self.after(key), self.action(key)),
    {
        match key {
            Key::Esc => (self, LoginAction::Quit),
            Key::Down => match self {
                LoginField::Username => (LoginField::Password, LoginAction::Stay),
                _ => (LoginField::Login, LoginAction::Stay),
            },
            Key::Up => match self {
                LoginField::Login => (LoginField::Password, LoginAction::Stay),
                _ => (LoginField::Username, LoginAction::Stay),
            },
            Key::Enter => match self {
                LoginField::Username => (LoginField::Password, LoginAction::Stay),
                LoginField::Password => (LoginField::Login, LoginAction::Stay),
                LoginField::Login => (LoginField::Login, LoginAction::Submit),
            },
            _ => match self {
                LoginField::Login => (self, LoginAction::Stay),
                _ => (self, LoginAction::Type),
            },
        }
    }
}

} // verus!
