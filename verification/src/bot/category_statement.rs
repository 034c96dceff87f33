//! `/extrato [mm/aaaa]` and its category buttons: which category a button
//! names, and its entries in reading order.

use vstd::prelude::*;

use crate::ids::{push_uuid, uuid_text};
use crate::ledger::LedgerEntry;
use crate::model::CategoryId;
use crate::render::catalog::{Category, category_with};
use crate::render::errors::AppError;
use crate::text::string_of;

verus! {

pub const STATEMENT_USAGE: &'static str = "Use /extrato para o ciclo atual ou /extrato 08/2026 para o ciclo que começa em agosto de 2026.";

/// More than a couple ever records in a cycle; the list is cut for chat
/// anyway, and the full list is in `/exportar`.
pub const MAX_STATEMENT_ENTRIES: u32 = 5_000;

/// The category a statement button names, or the not-found error.
pub fn statement_category(categories: &[Category], id: CategoryId) -> (found: Result<&Category, AppError>)
    ensures
        match category_with(categories@, id) {
            Some(category) => found matches Ok(c) && *c == category,
            None => found matches Err(AppError::NotFound { entity, id: shown }) && entity@ == "category"@
                && shown@ == uuid_text(id.0 as nat),
        },
{
    let mut i: usize = 0;
    assert(categories@.skip(0) =~= categories@);
    while i < categories.len()
        invariant
            i <= categories@.len(),
            category_with(categories@, id) == category_with(categories@.skip(i as int), id),
        decreases categories@.len() - i,
    {
        assert(categories@.skip(i as int)[0] == categories@[i as int]);
        if categories[i].id == id {
            return Ok(&categories[i]);
        }
        assert(categories@.skip(i as int).drop_first() =~= categories@.skip(i + 1));
        i = i + 1;
    }
    let mut shown: Vec<char> = Vec::new();
    push_uuid(&mut shown, id.0);
    Err(AppError::NotFound { entity: "category".to_owned(), id: string_of(&shown) })
}

/// The ledger lists newest first; a statement reads oldest first.
pub fn oldest_first(entries: Vec<LedgerEntry>) -> (ordered: Vec<LedgerEntry>)
    ensures
        ordered@ == entries@.reverse(),
{
    let mut ordered: Vec<LedgerEntry> = Vec::new();
    let mut rest = entries;
    let ghost all = rest@;
    while rest.len() > 0
        invariant
            all.reverse() == ordered@ + rest@.reverse(),
        decreases rest@.len(),
    {
        let ghost before = rest@;
        let last = rest.pop().unwrap();
        proof {
            assert(before =~= rest@.push(last));
            assert(before.reverse() =~= seq![last] + rest@.reverse());
        }
        ordered.push(last);
        assert(ordered@ + rest@.reverse() =~= all.reverse());
    }
    assert(rest@.reverse() =~= Seq::<LedgerEntry>::empty());
    assert(ordered@ =~= all.reverse());
    ordered
}

} // verus!
