//! `/ultimos`: the latest entries, each with edit and delete buttons.

use vstd::prelude::*;

use super::card::{relative_date, relative_date_text};
use super::catalog::{Catalog, category_label_text, category_with};
use super::category_statement::{author, author_name, button_rows, description_suffix};
use super::help::{joined, push_joined};
use super::keyboards::{chunked, row_view, rows_view};
use crate::bot::access::Member;
use crate::calendar::Date;
use crate::callback_data::{delete_entry_button, edit_entry_button, id_button_text};
use crate::gateway::{Button, Keyboard};
use crate::html::{escape, escaped};
use crate::ledger::{EntryKind, LedgerEntry};
use crate::money::{brl_text, format_brl};
use crate::numbers::{decimal, push_decimal};
use crate::text::{push_str, string_of};

verus! {

pub open spec fn kind_icon_text(kind: EntryKind) -> Seq<char> {
    match kind {
        EntryKind::Income => "💰"@,
        EntryKind::Expense => "💸"@,
        EntryKind::Transfer => "↔️"@,
        EntryKind::CardInstallment => "💳"@,
        EntryKind::CardCredit | EntryKind::Refund => "↩️"@,
        EntryKind::InvoicePayment => "🧾"@,
        EntryKind::AdjustIn | EntryKind::AdjustOut => "⚖️"@,
    }
}

pub fn kind_icon(kind: EntryKind) -> (icon: &'static str)
    ensures
        icon@ == kind_icon_text(kind),
{
    match kind {
        EntryKind::Income => "💰",
        EntryKind::Expense => "💸",
        EntryKind::Transfer => "↔️",
        EntryKind::CardInstallment => "💳",
        EntryKind::CardCredit | EntryKind::Refund => "↩️",
        EntryKind::InvoicePayment => "🧾",
        EntryKind::AdjustIn | EntryKind::AdjustOut => "⚖️",
    }
}

/// What an entry without a category is called.
pub open spec fn uncategorized_label(kind: EntryKind) -> Seq<char> {
    match kind {
        EntryKind::Transfer => "transferência"@,
        EntryKind::InvoicePayment => "pagamento de fatura"@,
        EntryKind::AdjustIn | EntryKind::AdjustOut => "ajuste"@,
        _ => "sem categoria"@,
    }
}

fn kind_label(entry: &LedgerEntry) -> (label: &'static str)
    ensures
        label@ == uncategorized_label(entry.kind),
{
    match entry.kind {
        EntryKind::Transfer => "transferência",
        EntryKind::InvoicePayment => "pagamento de fatura",
        EntryKind::AdjustIn | EntryKind::AdjustOut => "ajuste",
        _ => "sem categoria",
    }
}

/// `05/03 💸 R$ 10,50 · 🛒 mercado — feira (Ana)`.
pub open spec fn recent_line_text(entry: LedgerEntry, catalog: Catalog, members: Seq<Member>, today: Date) -> Seq<char> {
    let what = match entry.category_id {
        Some(id) => match category_with(catalog.categories@, id) {
            Some(found) => category_label_text(found),
            None => "categoria removida"@,
        },
        None => uncategorized_label(entry.kind),
    };
    relative_date_text(entry.accounting_date, today) + " "@ + kind_icon_text(entry.kind) + " "@ + brl_text(
        entry.amount.0 as int,
    ) + " · "@ + what + description_suffix(entry.description@) + " ("@ + author_name(members, entry.created_by)
        + ")"@
}

/// `05/03 💸 R$ 10,50 · 🛒 mercado — feira (Ana)`.
pub fn entry_line(entry: &LedgerEntry, catalog: &Catalog, members: &[Member], today: Date) -> (line: String)
    requires
        entry.accounting_date.valid(),
        today.valid(),
    ensures
        line@ == recent_line_text(*entry, *catalog, members@, today),
{
    let mut out: Vec<char> = Vec::new();
    let date = relative_date(entry.accounting_date, today);
    push_str(&mut out, date.as_str());
    push_str(&mut out, " ");
    push_str(&mut out, kind_icon(entry.kind));
    push_str(&mut out, " ");
    let amount = format_brl(entry.amount);
    push_str(&mut out, amount.as_str());
    push_str(&mut out, " · ");
    match entry.category_id {
        Some(id) => {
            let what = catalog.category_label(id);
            push_str(&mut out, what.as_str());
        },
        None => push_str(&mut out, kind_label(entry)),
    }
    if entry.description.as_str().unicode_len() > 0 {
        push_str(&mut out, " — ");
        let shown = escape(entry.description.as_str());
        push_str(&mut out, shown.as_str());
    }
    push_str(&mut out, " (");
    let name = author(members, entry.created_by);
    push_str(&mut out, name.as_str());
    push_str(&mut out, ")");
    string_of(&out)
}

/// `R$ 10,50 · feira`, or just the amount when there is no description.
pub open spec fn short_summary_text(entry: LedgerEntry) -> Seq<char> {
    if entry.description@.len() == 0 {
        brl_text(entry.amount.0 as int)
    } else {
        brl_text(entry.amount.0 as int) + " · "@ + escaped(entry.description@)
    }
}

pub fn entry_summary(entry: &LedgerEntry) -> (text: String)
    ensures
        text@ == short_summary_text(*entry),
{
    if entry.description.as_str().unicode_len() == 0 {
        return format_brl(entry.amount);
    }
    let mut out: Vec<char> = Vec::new();
    let amount = format_brl(entry.amount);
    push_str(&mut out, amount.as_str());
    push_str(&mut out, " · ");
    let shown = escape(entry.description.as_str());
    push_str(&mut out, shown.as_str());
    string_of(&out)
}

/// Short label for the edit card: `R$ 10,50 · feira (05/03)`.
pub fn entry_label(entry: &LedgerEntry, today: Date) -> (label: String)
    requires
        entry.accounting_date.valid(),
        today.valid(),
    ensures
        label@ == short_summary_text(*entry) + " ("@ + relative_date_text(entry.accounting_date, today) + ")"@,
{
    let mut out: Vec<char> = Vec::new();
    let summary = entry_summary(entry);
    push_str(&mut out, summary.as_str());
    push_str(&mut out, " (");
    let date = relative_date(entry.accounting_date, today);
    push_str(&mut out, date.as_str());
    push_str(&mut out, ")");
    string_of(&out)
}

/// [✏️ n] and [🗑️ n] for the `n`-th entry.
pub open spec fn entry_buttons(entries: Seq<LedgerEntry>) -> Seq<(Seq<char>, Seq<char>)>
    decreases entries.len(),
{
    if entries.len() == 0 {
        Seq::empty()
    } else {
        entry_buttons(entries.drop_last()) + seq![
            ("✏️ "@ + decimal(entries.len()), id_button_text(seq!['e', 'e'], entries.last().id.0)),
            ("🗑️ "@ + decimal(entries.len()), id_button_text(seq!['e', 'd'], entries.last().id.0)),
        ]
    }
}

/// Two entries per row: [✏️ 1] [🗑️ 1] [✏️ 2] [🗑️ 2].
fn entry_keyboard(entries: &[LedgerEntry]) -> (keyboard: Keyboard)
    requires
        entries@.len() < u64::MAX,
    ensures
        rows_view(keyboard.rows@) == chunked(entry_buttons(entries@), 4),
{
    let mut buttons: Vec<Button> = Vec::new();
    let mut i: usize = 0;
    while i < entries.len()
        invariant
            i <= entries@.len(),
            entries@.len() < u64::MAX,
            row_view(buttons@) == entry_buttons(entries@.take(i as int)),
        decreases entries@.len() - i,
    {
        let number = (i + 1) as u64;
        let mut edit: Vec<char> = Vec::new();
        push_str(&mut edit, "✏️ ");
        push_decimal(&mut edit, number);
        let mut delete: Vec<char> = Vec::new();
        push_str(&mut delete, "🗑️ ");
        push_decimal(&mut delete, number);
        let ghost before = buttons@;
        buttons.push(Button { label: string_of(&edit), data: edit_entry_button(entries[i].id) });
        buttons.push(Button { label: string_of(&delete), data: delete_entry_button(entries[i].id) });
        proof {
            let taken = entries@.take(i + 1);
            assert(taken.drop_last() =~= entries@.take(i as int));
            assert(taken.last() == entries@[i as int]);
            assert(row_view(buttons@) =~= entry_buttons(entries@.take(i as int)) + seq![
                ("✏️ "@ + decimal(taken.len()), id_button_text(seq!['e', 'e'], taken.last().id.0)),
                ("🗑️ "@ + decimal(taken.len()), id_button_text(seq!['e', 'd'], taken.last().id.0)),
            ]);
        }
        i = i + 1;
    }
    assert(entries@.take(i as int) =~= entries@);
    Keyboard { rows: button_rows(&buttons, 4) }
}

/// `n. ` and the entry's line, for each entry.
pub open spec fn numbered_lines(entries: Seq<LedgerEntry>, catalog: Catalog, members: Seq<Member>, today: Date) -> Seq<Seq<char>>
    decreases entries.len(),
{
    if entries.len() == 0 {
        Seq::empty()
    } else {
        numbered_lines(entries.drop_last(), catalog, members, today).push(
            decimal(entries.len()) + ". "@ + recent_line_text(entries.last(), catalog, members, today),
        )
    }
}

/// `/ultimos`: the numbered entries, then the edit and delete buttons.
pub open spec fn recent_entries_text(entries: Seq<LedgerEntry>, catalog: Catalog, members: Seq<Member>, today: Date) -> Seq<char> {
    if entries.len() == 0 {
        "Nenhum lançamento ainda."@
    } else {
        "<b>🧾 Últimos lançamentos</b>\n"@ + joined(numbered_lines(entries, catalog, members, today), "\n"@)
            + "\n\n✏️ edita · 🗑️ apaga"@
    }
}

pub fn recent_entries_view(
    entries: &[LedgerEntry],
    catalog: &Catalog,
    members: &[Member],
    today: Date,
) -> (view: (String, Option<Keyboard>))
    requires
        today.valid(),
        forall|i: int| 0 <= i < entries@.len() ==> (#[trigger] entries@[i]).accounting_date.valid(),
        entries@.len() < u64::MAX,
    ensures
        view.0@ == recent_entries_text(entries@, *catalog, members@, today),
        entries@.len() == 0 ==> view.1 is None,
        entries@.len() > 0 ==> (view.1 matches Some(keyboard) && rows_view(keyboard.rows@) == chunked(
            entry_buttons(entries@),
            4,
        )),
{
    if entries.len() == 0 {
        return ("Nenhum lançamento ainda.".to_owned(), None);
    }
    let mut lines: Vec<String> = Vec::new();
    let mut i: usize = 0;
    while i < entries.len()
        invariant
            i <= entries@.len(),
            today.valid(),
            entries@.len() < u64::MAX,
            forall|k: int| 0 <= k < entries@.len() ==> (#[trigger] entries@[k]).accounting_date.valid(),
            lines@.map_values(|line: String| line@) == numbered_lines(entries@.take(i as int), *catalog, members@, today),
        decreases entries@.len() - i,
    {
        let mut line: Vec<char> = Vec::new();
        push_decimal(&mut line, (i + 1) as u64);
        push_str(&mut line, ". ");
        assert(entries@[i as int].accounting_date.valid());
        let shown = entry_line(&entries[i], catalog, members, today);
        push_str(&mut line, shown.as_str());
        let ghost before = lines@;
        lines.push(string_of(&line));
        proof {
            let taken = entries@.take(i + 1);
            assert(taken.drop_last() =~= entries@.take(i as int));
            assert(taken.last() == entries@[i as int]);
            assert(lines@.map_values(|line: String| line@) =~= before.map_values(|line: String| line@).push(
                decimal(taken.len()) + ". "@ + recent_line_text(taken.last(), *catalog, members@, today),
            ));
        }
        i = i + 1;
    }
    assert(entries@.take(i as int) =~= entries@);
    let mut out: Vec<char> = Vec::new();
    push_str(&mut out, "<b>🧾 Últimos lançamentos</b>\n");
    push_joined(&mut out, &lines, "\n");
    push_str(&mut out, "\n\n✏️ edita · 🗑️ apaga");
    (string_of(&out), Some(entry_keyboard(entries)))
}

} // verus!
