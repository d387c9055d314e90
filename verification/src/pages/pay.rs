//! The form that pays or asks for money: three fields and two buttons, and a
//! list of payment methods that opens over them.

use crate::pages::home::{place_after, place_before, StatefulList};
use crate::pages::Key;
use crate::request::PaymentType;
use crate::types::FundingInstrument;
use vstd::prelude::*;

verus! {

/// What has the focus on the form.
#[derive(Debug, Clone, Copy, PartialEq, Eq, Structural)]
pub enum Field {
    /// Nothing: the form has given up the focus.
    Unset,
    Amount,
    Handle,
    Note,
    /// The button that pays.
    Pay,
    /// The button that asks for money.
    Request,
}

/// The list of payment methods to choose from.
#[derive(Debug)]
pub struct PaymentSourcePopup {
    pub items: StatefulList<FundingInstrument>,
}

impl PaymentSourcePopup {
    /// The list of `sources`, with the first one selected.
    pub fn new(sources: Vec<FundingInstrument>) -> (popup: PaymentSourcePopup)
        ensures
            popup.items.items == sources,
            popup.items.selected == Some(0usize),
    {
        PaymentSourcePopup { items: StatefulList::with_items(sources) }
    }
}

/// What the form asks of its caller after a key.
#[derive(Debug, Clone, Copy, PartialEq, Eq, Structural)]
pub enum PayAction {
    /// Nothing.
    Stay,
    /// The key is typed into the field that has the focus.
    Type,
    /// The payment methods are to be fetched and shown with `open_popup`.
    ChooseSource,
}

impl Field {
    /// Whether text can be typed into what has the focus.
    pub open spec fn takes_text(self) -> bool {
        self == Field::Amount || self == Field::Handle || self == Field::Note
    }

    /// What has the focus after `key`.
    ///
    /// `Down` walks from the amount over the name and the note to the button
    /// that pays, `Up` walks back, and from either button to the note.
    /// `Right` goes from the button that pays to the one that asks, `Left`
    /// goes back, and from anywhere else gives up the focus. `Enter` moves
    /// on from the amount and from the name.
    pub open spec fn after(self, key: Key) -> Field {
        match key {
            Key::Down => match self {
                Field::Amount => Field::Handle,
                Field::Handle => Field::Note,
                Field::Note => Field::Pay,
                other => other,
            },
            Key::Up => match self {
                Field::Handle => Field::Amount,
                Field::Note => Field::Handle,
                Field::Pay => Field::Note,
                Field::Request => Field::Note,
                other => other,
            },
            Key::Left => match self {
                Field::Request => Field::Pay,
                _ => Field::Unset,
            },
            Key::Right => match self {
                Field::Pay => Field::Request,
                other => other,
            },
            Key::Enter => match self {
                Field::Amount => Field::Handle,
                Field::Handle => Field::Note,
                other => other,
            },
            _ => self,
        }
    }

    /// Computes what has the focus after `key`.
    pub fn moved(self, key: Key) -> (next: Field)
        ensures
            next == self.after(key),
    {
        match key {
            Key::Down => match self {
                Field::Amount => Field::Handle,
                Field::Handle => Field::Note,
                Field::Note => Field::Pay,
                other => other,
            },
            Key::Up => match self {
                Field::Handle => Field::Amount,
                Field::Note => Field::Handle,
                Field::Pay => Field::Note,
                Field::Request => Field::Note,
                other => other,
            },
            Key::Left => match self {
                Field::Request => Field::Pay,
                _ => Field::Unset,
            },
            Key::Right => match self {
                Field::Pay => Field::Request,
                other => other,
            },
            Key::Enter => match self {
                Field::Amount => Field::Handle,
                Field::Handle => Field::Note,
                other => other,
            },
            _ => self,
        }
    }
}

/// The state of the form.
#[derive(Debug)]
pub struct PayPage {
    pub selected: Field,
    /// Whether a submission was asked for and is still to be made.
    pub waiting_for_submit: bool,
    /// Whether the list of payment methods is open.
    pub show_popup: bool,
    pub popup: PaymentSourcePopup,
}

impl PayPage {
    /// The form at the start: nothing has the focus, nothing is open.
    pub fn new() -> (page: PayPage)
        ensures
            page.selected == Field::Unset,
            !page.waiting_for_submit,
            !page.show_popup,
            page.popup.items.items@.len() == 0,
            page.popup.items.selected == Some(0usize),
    {
        PayPage {
            selected: Field::Unset,
            waiting_for_submit: false,
            show_popup: false,
            popup: PaymentSourcePopup::new(Vec::new()),
        }
    }

    /// A submission that is waited for comes from one of the two buttons.
    pub open spec fn submits_from_a_button(self) -> bool {
        self.waiting_for_submit ==> self.selected == Field::Pay || self.selected == Field::Request
    }

    /// Takes in a key, and tells whether the form gives up the focus, and
    /// what it asks of its caller.
    ///
    /// While the list of payment methods is open the keys go to it: `Down`
    /// and `Up` move its selection, `Esc` closes it with the first entry
    /// selected. Otherwise `Esc` gives up the focus, the other keys move it
    /// as `Field::after` tells, and the form gives up the focus where that
    /// leaves nothing focused. `Enter` on the button that asks for money
    /// calls for a submission; on the button that pays it asks for the
    /// payment methods. Any other key is typed into the field focused.
    pub fn on_input_event(&mut self, key: Key) -> (out: (bool, PayAction))
        ensures
            final(self).popup.items.items == old(self).popup.items.items,
            old(self).show_popup ==> {
                &&& out == (false, PayAction::Stay)
                &&& final(self).selected == old(self).selected
                &&& final(self).waiting_for_submit == old(self).waiting_for_submit
                &&& final(self).show_popup == (key != Key::Esc)
                &&& final(self).popup.items.selected == match key {
                    Key::Down if old(self).popup.items.items@.len() > 0 => Some(
                        place_after(
                            old(self).popup.items.selected,
                            old(self).popup.items.items@.len(),
                        ),
                    ),
                    Key::Up if old(self).popup.items.items@.len() > 0 => Some(
                        place_before(
                            old(self).popup.items.selected,
                            old(self).popup.items.items@.len(),
                        ),
                    ),
                    Key::Esc => Some(0usize),
                    _ => old(self).popup.items.selected,
                }
            },
            !old(self).show_popup ==> {
                &&& final(self).popup.items.selected == old(self).popup.items.selected
                &&& !final(self).show_popup
                &&& final(self).selected == if key == Key::Esc {
                    old(self).selected
                } else {
                    old(self).selected.after(key)
                }
                &&& final(self).waiting_for_submit == (old(self).waiting_for_submit || (key
                    == Key::Enter && old(self).selected == Field::Request))
                &&& out.0 == (key == Key::Esc || final(self).selected == Field::Unset)
                &&& out.1 == if key == Key::Enter && old(self).selected == Field::Pay {
                    PayAction::ChooseSource
                } else if key == Key::Other && old(self).selected.takes_text() {
                    PayAction::Type
                } else {
                    PayAction::Stay
                }
            },
    {
        if self.show_popup {
            match key {
                Key::Down => {
                    if self.popup.items.items.len() > 0 {
                        self.popup.items.next();
                    }
                },
                Key::Up => {
                    if self.popup.items.items.len() > 0 {
                        self.popup.items.previous();
                    }
                },
                Key::Esc => {
                    self.popup.items.selected = Some(0);
                    self.show_popup = false;
                },
                _ => {},
            }
            return (false, PayAction::Stay);
        }
        let before = self.selected;
        let action = match key {
            Key::Esc => {
                return (true, PayAction::Stay);
            },
            Key::Enter => {
                if before == Field::Request && !self.waiting_for_submit {
                    self.waiting_for_submit = true;
                }
                if before == Field::Pay {
                    PayAction::ChooseSource
                } else {
                    PayAction::Stay
                }
            },
            Key::Other => match before {
                Field::Amount | Field::Handle | Field::Note => PayAction::Type,
                _ => PayAction::Stay,
            },
            _ => PayAction::Stay,
        };
        self.selected = before.moved(key);
        (self.selected == Field::Unset, action)
    }

    /// Opens the list of payment methods with `sources`, without moving its
    /// selection.
    pub fn open_popup(&mut self, sources: Vec<FundingInstrument>)
        ensures
            final(self).popup.items.items == sources,
            final(self).popup.items.selected == old(self).popup.items.selected,
            final(self).show_popup,
            final(self).selected == old(self).selected,
            final(self).waiting_for_submit == old(self).waiting_for_submit,
    {
        self.popup.items.items = sources;
        self.show_popup = true;
    }

    /// Lets the form act between keys, and tells what to submit, if a
    /// submission is waited for. A form that has nothing focused focuses the
    /// amount.
    pub fn make_progress(&mut self) -> (submit: Option<PaymentType>)
        requires
            old(self).submits_from_a_button(),
        ensures
            final(self).selected == if old(self).selected == Field::Unset {
                Field::Amount
            } else {
                old(self).selected
            },
            !final(self).waiting_for_submit,
            final(self).show_popup == old(self).show_popup,
            final(self).popup == old(self).popup,
            submit == if !old(self).waiting_for_submit {
                None
            } else if old(self).selected == Field::Pay {
                Some(PaymentType::Pay)
            } else {
                Some(PaymentType::Request)
            },
    {
        if self.selected == Field::Unset {
            self.selected = Field::Amount;
        }
        if self.waiting_for_submit {
            self.waiting_for_submit = false;
            match self.selected {
                Field::Pay => Some(PaymentType::Pay),
                _ => Some(PaymentType::Request),
            }
        } else {
            None
        }
    }
}

} // verus!
