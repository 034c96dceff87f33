//! `/desfazer` and the [Desfazer] button: only the author may undo.

use vstd::prelude::*;

use super::access::Member;
use crate::html::{escape, escaped};
use crate::ledger::{CardPurchase, LedgerEntry};
use crate::model::{Cents, MemberId};
use crate::money::{brl_text, format_brl};
use crate::numbers::{decimal, push_decimal};
use crate::render::errors::{AppError, error_message, error_text};
use crate::text::{push_str, string_of};

verus! {

/// Only whoever registered an entry may undo it.
pub fn can_undo(author: Option<MemberId>, member: MemberId) -> (allowed: bool)
    ensures
        allowed == (author == Some(member)),
{
    match author {
        Some(id) => id == member,
        None => false,
    }
}

/// `R$ 10,00 · mercado`; an empty description is left out.
pub open spec fn entry_summary_text(amount: Cents, description: Seq<char>) -> Seq<char> {
    brl_text(amount.0 as int) + if description.len() == 0 {
        Seq::empty()
    } else {
        " · "@ + escaped(description)
    }
}

/// What an undone entry was: its amount and description.
pub fn entry_summary(entry: &LedgerEntry) -> (text: String)
    ensures
        text@ == entry_summary_text(entry.amount, entry.description@),
{
    let mut out: Vec<char> = Vec::new();
    let shown = format_brl(entry.amount);
    push_str(&mut out, shown.as_str());
    if entry.description.as_str().unicode_len() > 0 {
        push_str(&mut out, " · ");
        let escaped_description = escape(entry.description.as_str());
        push_str(&mut out, escaped_description.as_str());
    }
    string_of(&out)
}

/// The undone entry struck through, and who undid it.
pub open spec fn undone_text(summary: Seq<char>, member_name: Seq<char>) -> Seq<char> {
    "↩️ <s>"@ + summary + "</s>\nDesfeito por "@ + escaped(member_name) + "."@
}

/// The undone entry's card once [Desfazer] worked.
pub fn undone_html(entry: &LedgerEntry, member: &Member) -> (html: String)
    ensures
        html@ == undone_text(entry_summary_text(entry.amount, entry.description@), member.display_name@),
{
    let summary = entry_summary(entry);
    undone(summary.as_str(), member.display_name.as_str())
}

fn undone(summary: &str, member_name: &str) -> (html: String)
    ensures
        html@ == undone_text(summary@, member_name@),
{
    let mut out: Vec<char> = Vec::new();
    push_str(&mut out, "↩️ <s>");
    push_str(&mut out, summary);
    push_str(&mut out, "</s>\nDesfeito por ");
    let name = escape(member_name);
    push_str(&mut out, name.as_str());
    push_str(&mut out, ".");
    string_of(&out)
}

/// `R$ 300,00 em 3x no cartão`; one installment is not mentioned.
pub open spec fn purchase_summary_text(total: Cents, installment_count: u32) -> Seq<char> {
    brl_text(total.0 as int) + (if installment_count > 1 {
        " em "@ + decimal(installment_count as nat) + "x"@
    } else {
        Seq::empty()
    }) + " no cartão"@
}

/// The undone purchase's card once [Desfazer] removed its installments.
pub fn undone_purchase_html(purchase: &CardPurchase, member: &Member) -> (html: String)
    ensures
        html@ == undone_text(purchase_summary_text(purchase.total, purchase.installment_count), member.display_name@),
{
    let mut summary: Vec<char> = Vec::new();
    let shown = format_brl(purchase.total);
    push_str(&mut summary, shown.as_str());
    if purchase.installment_count > 1 {
        push_str(&mut summary, " em ");
        push_decimal(&mut summary, purchase.installment_count as u64);
        push_str(&mut summary, "x");
    }
    push_str(&mut summary, " no cartão");
    let summary = string_of(&summary);
    undone(summary.as_str(), member.display_name.as_str())
}

pub const NOTHING_TO_UNDO: &'static str = "Você não tem lançamentos para desfazer.";

pub const ENTRY_ALREADY_UNDONE: &'static str = "Esse lançamento já foi desfeito.";

pub const PURCHASE_ALREADY_UNDONE: &'static str = "Essa compra já foi desfeita.";

pub const ONLY_THE_AUTHOR: &'static str = "Só quem registrou pode desfazer.";

/// `/desfazer`'s reply: what was undone, a note when the member has
/// nothing to undo, or the error's text.
pub open spec fn undo_last_message(outcome: Result<LedgerEntry, AppError>) -> Seq<char> {
    match outcome {
        Ok(entry) => "↩️ Desfeito: "@ + entry_summary_text(entry.amount, entry.description@),
        Err(AppError::NotFound { .. }) => NOTHING_TO_UNDO@,
        Err(error) => error_message(error),
    }
}

pub fn undo_last_reply(outcome: &Result<LedgerEntry, AppError>) -> (text: String)
    ensures
        text@ == undo_last_message(*outcome),
{
    match outcome {
        Ok(entry) => {
            let mut out: Vec<char> = Vec::new();
            push_str(&mut out, "↩️ Desfeito: ");
            let summary = entry_summary(entry);
            push_str(&mut out, summary.as_str());
            string_of(&out)
        },
        Err(AppError::NotFound { .. }) => NOTHING_TO_UNDO.to_owned(),
        Err(error) => error_text(error),
    }
}

/// The toast that refuses a [Desfazer] tap: the row is gone, or the member
/// did not register it; `None` lets the undo go ahead.
pub open spec fn undo_refusal_of(found: bool, author: Option<MemberId>, member: MemberId, gone: Seq<char>) -> Option<Seq<char>> {
    if !found {
        Some(gone)
    } else if author != Some(member) {
        Some(ONLY_THE_AUTHOR@)
    } else {
        None
    }
}

/// For [Desfazer] under an entry.
pub fn entry_undo_refusal(found: Option<&LedgerEntry>, member: MemberId) -> (toast: Option<&'static str>)
    ensures
        match toast {
            Some(text) => undo_refusal_of(found is Some, match found {
                Some(entry) => entry.created_by,
                None => None,
            }, member, ENTRY_ALREADY_UNDONE@) == Some(text@),
            None => undo_refusal_of(found is Some, match found {
                Some(entry) => entry.created_by,
                None => None,
            }, member, ENTRY_ALREADY_UNDONE@) is None,
        },
{
    match found {
        None => Some(ENTRY_ALREADY_UNDONE),
        Some(entry) => if can_undo(entry.created_by, member) {
            None
        } else {
            Some(ONLY_THE_AUTHOR)
        },
    }
}

/// For [Desfazer] under a card purchase.
pub fn purchase_undo_refusal(found: Option<&CardPurchase>, member: MemberId) -> (toast: Option<&'static str>)
    ensures
        match toast {
            Some(text) => undo_refusal_of(found is Some, match found {
                Some(purchase) => purchase.created_by,
                None => None,
            }, member, PURCHASE_ALREADY_UNDONE@) == Some(text@),
            None => undo_refusal_of(found is Some, match found {
                Some(purchase) => purchase.created_by,
                None => None,
            }, member, PURCHASE_ALREADY_UNDONE@) is None,
        },
{
    match found {
        None => Some(PURCHASE_ALREADY_UNDONE),
        Some(purchase) => if can_undo(purchase.created_by, member) {
            None
        } else {
            Some(ONLY_THE_AUTHOR)
        },
    }
}

} // verus!
