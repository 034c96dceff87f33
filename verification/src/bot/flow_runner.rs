//! Where a flow's next card goes, what survives a card or a failed
//! commit, and the button left on a finished card.

use vstd::prelude::*;

use super::executor::Committed;
use crate::callback_data::{id_button_text, undo_button, undo_purchase_button};
use crate::gateway::{Button, Keyboard};
use crate::render::card::CardView;
use crate::render::errors::AppError;

verus! {

/// Idle flows expire after this many minutes; a half-typed entry from
/// yesterday should not swallow today's messages.
pub const FLOW_TTL_MINUTES: i64 = 30;

pub const CANCELLED: &'static str = "✖️ Cancelado.";

pub const UNREADABLE_FORM: &'static str = "Não consegui ler esse formulário. Comece de novo, por favor.";

pub const NOTHING_TO_CANCEL: &'static str = "Nada para cancelar.";

/// Where the next card goes: in place of the tapped card, or below the
/// message the person just typed.
#[derive(Clone, Copy, Debug, PartialEq, Eq, Structural)]
pub enum Placement {
    EditCard(i64),
    NewCard,
}

pub open spec fn undo_label() -> Seq<char> {
    "↩️ Desfazer"@
}

/// `keyboard` is one [Desfazer] button carrying `data`.
pub open spec fn is_undo_keyboard(keyboard: Keyboard, data: Seq<char>) -> bool {
    &&& keyboard.rows@.len() == 1
    &&& keyboard.rows@[0]@.len() == 1
    &&& keyboard.rows@[0]@[0].label@ == undo_label()
    &&& keyboard.rows@[0]@[0].data@ == data
}

/// A single [Desfazer] button carrying `data`.
pub fn undo_keyboard(data: String) -> (keyboard: Keyboard)
    ensures
        is_undo_keyboard(keyboard, data@),
{
    let button = Button { label: "↩️ Desfazer".to_owned(), data };
    Keyboard { rows: vec![vec![button]] }
}

/// The payload of the undo button for what a form created: ledger rows can
/// be undone, setup records cannot.
pub open spec fn undo_data(committed: Committed) -> Option<Seq<char>> {
    match committed {
        Committed::Entry(entry) => Some(id_button_text(seq!['u'], entry.0)),
        Committed::Purchase(purchase) => Some(id_button_text(seq!['u', 'p'], purchase.0)),
        _ => None,
    }
}

/// [Desfazer] for what created ledger rows; setup commands have none.
pub fn undo_keyboard_for(committed: Committed) -> (keyboard: Option<Keyboard>)
    ensures
        match undo_data(committed) {
            Some(data) => keyboard matches Some(shown) && is_undo_keyboard(shown, data),
            None => keyboard is None,
        },
{
    match committed {
        Committed::Entry(entry) => Some(undo_keyboard(undo_button(entry))),
        Committed::Purchase(purchase) => Some(undo_keyboard(undo_purchase_button(purchase))),
        _ => None,
    }
}

/// `/cancelar` edits the flow's card when it is known, or answers below.
pub fn cancel_placement(card_message_id: Option<i64>) -> (placement: Placement)
    ensures
        placement == match card_message_id {
            Some(id) => Placement::EditCard(id),
            None => Placement::NewCard,
        },
{
    match card_message_id {
        Some(id) => Placement::EditCard(id),
        None => Placement::NewCard,
    }
}

/// A failed commit keeps the flow only for a storage failure, so tapping
/// Confirmar again retries; any other error ends it.
pub fn keeps_flow_after(error: &AppError) -> (keep: bool)
    ensures
        keep == (error is Storage),
{
    match error {
        AppError::Storage(_) => true,
        _ => false,
    }
}

/// What a card shows and whether the flow is kept for the next answer: a
/// question keeps it, a blocked flow ends without buttons.
pub fn card_outcome(view: CardView) -> (outcome: (String, Option<Keyboard>, bool))
    ensures
        match view {
            CardView::Ask { html, keyboard } => outcome == (html, Some(keyboard), true),
            CardView::Blocked { html } => outcome == (html, None::<Keyboard>, false),
        },
{
    match view {
        CardView::Ask { html, keyboard } => (html, Some(keyboard), true),
        CardView::Blocked { html } => (html, None, false),
    }
}

} // verus!
