//! Ledger rows as the replies show them.

use vstd::prelude::*;

use crate::calendar::Date;
use crate::model::{CategoryId, CategoryKind, Cents, EntryId, MemberId, PurchaseId};

verus! {

/// What a ledger row records.
#[derive(Clone, Copy, Debug, PartialEq, Eq, Structural)]
pub enum EntryKind {
    Expense,
    Income,
    Transfer,
    InvoicePayment,
    AdjustIn,
    AdjustOut,
    CardInstallment,
    Refund,
    CardCredit,
}

/// One ledger row.
#[derive(Clone, Debug, PartialEq, Eq)]
pub struct LedgerEntry {
    pub id: EntryId,
    pub kind: EntryKind,
    pub amount: Cents,
    pub description: String,
    pub accounting_date: Date,
    pub category_id: Option<CategoryId>,
    pub created_by: Option<MemberId>,
}

/// A card purchase, split into installments.
#[derive(Clone, Copy, Debug, PartialEq, Eq, Structural)]
pub struct CardPurchase {
    pub id: PurchaseId,
    pub total: Cents,
    pub installment_count: u32,
    pub created_by: Option<MemberId>,
}

/// Refunds and card credits give money back to their category.
pub open spec fn gives_back(kind: EntryKind) -> bool {
    kind == EntryKind::Refund || kind == EntryKind::CardCredit
}

/// What a row adds to its category's total: refunds and card credits take
/// their amount away.
pub open spec fn category_effect_of(kind: EntryKind, amount: Cents) -> int {
    if gives_back(kind) { -(amount.0 as int) } else { amount.0 as int }
}

/// What `entry` adds to the total of a category of `kind`.
pub fn category_effect(entry: &LedgerEntry, kind: CategoryKind) -> (effect: Cents)
    requires
        entry.amount.0 > i64::MIN,
    ensures
        effect.0 == category_effect_of(entry.kind, entry.amount),
{
    match entry.kind {
        EntryKind::Refund | EntryKind::CardCredit => Cents(-entry.amount.0),
        _ => entry.amount,
    }
}

} // verus!
