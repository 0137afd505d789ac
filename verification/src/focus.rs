//! Which input field of which page has the focus.
use vstd::prelude::*;
use crate::pages::{add_transaction, transactions};
use crate::types::{lemma_next_after_previous, lemma_previous_after_next, next_position, previous_position, CycleEnum};

verus! {

/// The input field that has the focus, if any.
#[derive(Debug, Clone, Copy, PartialEq, Eq, Structural)]
pub enum CurrentFocus {
    Unfocused,
    TransactionPage(transactions::InputFocus),
    AddTransaction(add_transaction::InputFocus),
}

impl Default for CurrentFocus {
    fn default() -> (r: Self)
        ensures
            r == CurrentFocus::Unfocused,
    {
        CurrentFocus::Unfocused
    }
}

/// The focus moved one field forward on its page (no focus stays none).
pub open spec fn next_focus(f: CurrentFocus) -> CurrentFocus {
    match f {
        CurrentFocus::TransactionPage(i) => CurrentFocus::TransactionPage(
            transactions::InputFocus::at(next_position(i.position(), transactions::InputFocus::count())),
        ),
        CurrentFocus::AddTransaction(i) => CurrentFocus::AddTransaction(
            add_transaction::InputFocus::at(next_position(i.position(), add_transaction::InputFocus::count())),
        ),
        CurrentFocus::Unfocused => CurrentFocus::Unfocused,
    }
}

/// The focus moved one field back on its page (no focus stays none).
pub open spec fn previous_focus(f: CurrentFocus) -> CurrentFocus {
    match f {
        CurrentFocus::TransactionPage(i) => CurrentFocus::TransactionPage(
            transactions::InputFocus::at(previous_position(i.position(), transactions::InputFocus::count())),
        ),
        CurrentFocus::AddTransaction(i) => CurrentFocus::AddTransaction(
            add_transaction::InputFocus::at(previous_position(i.position(), add_transaction::InputFocus::count())),
        ),
        CurrentFocus::Unfocused => CurrentFocus::Unfocused,
    }
}

impl CurrentFocus {
    /// The next field of the same page.
    pub fn next(&self) -> (r: CurrentFocus)
        ensures
            r == next_focus(*self),
    {
        match self {
            CurrentFocus::TransactionPage(input_focus) => CurrentFocus::TransactionPage(input_focus.next()),
            CurrentFocus::AddTransaction(input_focus) => CurrentFocus::AddTransaction(input_focus.next()),
            _ => CurrentFocus::Unfocused,
        }
    }

    /// The previous field of the same page.
    pub fn previous(&self) -> (r: CurrentFocus)
        ensures
            r == previous_focus(*self),
    {
        match self {
            CurrentFocus::TransactionPage(input_focus) => CurrentFocus::TransactionPage(input_focus.previous()),
            CurrentFocus::AddTransaction(input_focus) => CurrentFocus::AddTransaction(input_focus.previous()),
            _ => CurrentFocus::Unfocused,
        }
    }
}

/// Moving the focus back after moving it forward gives the field one started
/// from, and so does moving forward after moving back.
pub proof fn lemma_focus_round_trip(f: CurrentFocus)
    ensures
        previous_focus(next_focus(f)) == f,
        next_focus(previous_focus(f)) == f,
{
    match f {
        CurrentFocus::TransactionPage(i) => {
            lemma_previous_after_next(i);
            lemma_next_after_previous(i);
        },
        CurrentFocus::AddTransaction(i) => {
            lemma_previous_after_next(i);
            lemma_next_after_previous(i);
        },
        CurrentFocus::Unfocused => {},
    }
}

} // verus!
