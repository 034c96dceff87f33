//! The ✏️/🗑️ buttons of `/ultimos`. Only the author changes an entry;
//! automatic entries (from recurrences) can be changed by either spouse.

use vstd::prelude::*;

use crate::calendar::Date;
use crate::flows::answers::{Answer, Answers};
use crate::flows::engine::{FormState, next_pending, state_is};
use crate::flows::form::{Field, FormKind};
use crate::ledger::{EntryKind, LedgerEntry};
use crate::model::MemberId;
use crate::render::card::relative_date_text;
use crate::render::entries::{entry_label, short_summary_text};

verus! {

/// How many entries `/ultimos` lists.
pub const RECENT_ENTRIES: u32 = 10;

/// The toast for entries the edit form cannot change.
pub const NOT_EDITABLE: &'static str = "Parcelas, estornos e pagamentos de fatura: apague e registre de novo.";

pub const ENTRY_GONE: &'static str = "Esse lançamento já foi apagado.";

pub const NOT_THE_AUTHOR: &'static str = "Só quem registrou pode mudar.";

/// The author changes an entry; an automatic one, anybody.
pub open spec fn may_change(author: Option<MemberId>, member: MemberId) -> bool {
    match author {
        Some(author) => author == member,
        None => true,
    }
}

/// The entry when it still exists and `member` may change it; otherwise
/// the toast the button gets.
pub fn own_entry(found: Option<LedgerEntry>, member: MemberId) -> (result: Result<LedgerEntry, &'static str>)
    ensures
        match found {
            None => result matches Err(toast) && toast@ == ENTRY_GONE@,
            Some(entry) => if may_change(entry.created_by, member) {
                result == Ok::<LedgerEntry, &'static str>(entry)
            } else {
                result matches Err(toast) && toast@ == NOT_THE_AUTHOR@
            },
        },
{
    match found {
        None => Err(ENTRY_GONE),
        Some(entry) => match entry.created_by {
            Some(author) => if author == member {
                Ok(entry)
            } else {
                Err(NOT_THE_AUTHOR)
            },
            None => Ok(entry),
        },
    }
}

/// The edit form with its target already chosen: the entry's id, whether
/// it is income, and its short label.
pub fn edit_entry_state(entry: &LedgerEntry, today: Date) -> (state: FormState)
    requires
        entry.accounting_date.valid(),
        today.valid(),
    ensures
        state.answers.0@.len() == 1,
        state.answers.0@[0].0 == Field::EditTarget,
        state.answers.0@[0].1 matches Answer::Entry { id, income, label } && id == entry.id && income == (entry.kind
            == EntryKind::Income) && label@ == short_summary_text(*entry) + " ("@ + relative_date_text(
            entry.accounting_date,
            today,
        ) + ")"@,
        state_is(state, FormKind::EditEntry, state.answers.0@, next_pending(FormKind::EditEntry, state.answers.0@)),
{
    let target = Answer::Entry { id: entry.id, income: entry.kind == EntryKind::Income, label: entry_label(entry, today) };
    let mut entries: Vec<(Field, Answer)> = Vec::new();
    entries.push((Field::EditTarget, target));
    FormState::with_answers(FormKind::EditEntry, Answers(entries))
}

} // verus!
