//! What the pages of the terminal front end decide: which entry is selected,
//! which field has the focus, when to load and when to leave. Drawing and
//! reading keys are the caller's part.

pub mod home;
pub mod login;
pub mod pay;
pub mod qr;
pub mod stories;

use vstd::prelude::*;

verus! {

/// The keys that the pages tell apart.
#[derive(Debug, Clone, Copy, PartialEq, Eq, Structural)]
pub enum Key {
    Down,
    Up,
    Left,
    Right,
    Enter,
    Esc,
    /// Any other key: text typed into a field.
    Other,
}

} // verus!
