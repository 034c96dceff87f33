//! `/extrato`: spending and income per category for a cycle, and the
//! entries behind one category. Long statements are cut to fit one
//! Telegram message.

use vstd::prelude::*;

use super::catalog::{Category, category_label, category_label_text};
use super::help::{joined, push_joined};
use super::keyboards::{chunked, row_view, rows_view};
use crate::bot::access::Member;
use crate::calendar::{Date, day_month_text, day_month_year_text, format_day_month, format_day_month_year};
use crate::callback_data::{category_statement_button, statement_button_text};
use crate::gateway::{Button, Keyboard};
use crate::html::{escape, escaped};
use crate::ledger::{EntryKind, LedgerEntry, category_effect, category_effect_of};
use crate::model::{CategoryKind, Cents, MemberId};
use crate::money::{brl_text, format_brl};
use crate::numbers::{decimal, push_decimal};
use crate::text::{byte_len, chars_of, push_str, string_of};

verus! {

/// How many of `lines`, from the first, fit in `budget` characters when
/// each takes its length plus a line break.
pub open spec fn fitting(lines: Seq<Seq<char>>, budget: int) -> nat
    decreases lines.len(),
{
    if lines.len() == 0 || lines[0].len() + 1 > budget {
        0
    } else {
        1 + fitting(lines.drop_first(), budget - lines[0].len() - 1)
    }
}

/// The lines that fit, one per line; when some do not, a last line says
/// how many were left out and points to `/exportar`.
pub open spec fn fitted_text(lines: Seq<Seq<char>>, budget: int) -> Seq<char> {
    let kept = fitting(lines, budget);
    let shown = joined(lines.take(kept as int), "\n"@);
    if kept == lines.len() {
        shown
    } else {
        shown + "\n… e mais "@ + decimal((lines.len() - kept) as nat) + ". Veja todos com /exportar."@
    }
}

proof fn lemma_fitting_bound(lines: Seq<Seq<char>>, budget: int)
    ensures
        fitting(lines, budget) <= lines.len(),
    decreases lines.len(),
{
    if lines.len() > 0 && lines[0].len() + 1 <= budget {
        lemma_fitting_bound(lines.drop_first(), budget - lines[0].len() - 1);
    }
}

/// Joins `lines` within `budget` characters; the rest becomes a note that
/// points to the CSV export.
pub fn fit_lines(lines: &[String], budget: usize) -> (text: String)
    ensures
        text@ == fitted_text(lines@.map_values(|line: String| line@), budget as int),
{
    let ghost views = lines@.map_values(|line: String| line@);
    let mut used: usize = 0;
    let mut kept: usize = 0;
    let mut out: Vec<char> = Vec::new();
    proof {
        assert(views.skip(0) =~= views);
        lemma_fitting_bound(views, budget as int);
    }
    while kept < lines.len()
        invariant
            views == lines@.map_values(|line: String| line@),
            kept <= lines@.len(),
            used <= budget,
            fitting(views, budget as int) == kept + fitting(views.skip(kept as int), budget - used),
            out@ == joined(views.take(kept as int), "\n"@),
        ensures
            kept == lines@.len() || views[kept as int].len() >= budget - used,
            views == lines@.map_values(|line: String| line@),
            kept <= lines@.len(),
            used <= budget,
            fitting(views, budget as int) == kept + fitting(views.skip(kept as int), budget - used),
            out@ == joined(views.take(kept as int), "\n"@),
        decreases lines@.len() - kept,
    {
        let line = chars_of(lines[kept].as_str());
        let ghost rest = views.skip(kept as int);
        assert(rest[0] == views[kept as int]);
        if line.len() >= budget - used {
            break;
        }
        assert(rest.drop_first() =~= views.skip(kept + 1));
        if kept > 0 {
            push_str(&mut out, "\n");
        }
        push_str(&mut out, lines[kept].as_str());
        proof {
            assert(views.take(kept + 1).drop_last() =~= views.take(kept as int));
            if kept == 0 {
                assert(views.take(1)[0] == views[0]);
            }
            assert(views.take(kept + 1).last() == views[kept as int]);
        }
        used = used + line.len() + 1;
        kept = kept + 1;
    }
    proof {
        if kept < lines@.len() {
            assert(views.skip(kept as int)[0] == views[kept as int]);
        } else {
            assert(views.skip(kept as int).len() == 0);
        }
    }
    let hidden = lines.len() - kept;
    if hidden == 0 {
        return string_of(&out);
    }
    push_str(&mut out, "\n… e mais ");
    push_decimal(&mut out, hidden as u64);
    push_str(&mut out, ". Veja todos com /exportar.");
    string_of(&out)
}

/// Telegram refuses messages over 4096 characters; stop well before.
pub const MAX_MESSAGE_CHARS: usize = 3_600;

/// The period of a statement, both days included.
#[derive(Clone, Copy, Debug, PartialEq, Eq, Structural)]
pub struct StatementPeriod {
    pub from: Date,
    pub to: Date,
}

/// A category with its total and number of entries in a cycle.
#[derive(Clone, Debug, PartialEq, Eq)]
pub struct CategoryActivity {
    pub category: Category,
    pub total: Cents,
    pub entries: u64,
}

/// `05/09 → 04/10/2026`.
pub open spec fn period_label(period: StatementPeriod) -> Seq<char> {
    day_month_text(period.from) + " → "@ + day_month_year_text(period.to)
}

fn label(period: StatementPeriod) -> (text: String)
    requires
        period.from.valid(),
        period.to.valid(),
    ensures
        text@ == period_label(period),
{
    let mut out: Vec<char> = Vec::new();
    let from = format_day_month(period.from);
    push_str(&mut out, from.as_str());
    push_str(&mut out, " → ");
    let to = format_day_month_year(period.to);
    push_str(&mut out, to.as_str());
    string_of(&out)
}

/// The rows of `activity` whose category is of `kind`, in order.
pub open spec fn rows_of_kind(activity: Seq<CategoryActivity>, kind: CategoryKind) -> Seq<CategoryActivity>
    decreases activity.len(),
{
    if activity.len() == 0 {
        Seq::empty()
    } else if activity.last().category.kind == kind {
        rows_of_kind(activity.drop_last(), kind).push(activity.last())
    } else {
        rows_of_kind(activity.drop_last(), kind)
    }
}

/// The sum of the rows' totals.
pub open spec fn rows_total(rows: Seq<CategoryActivity>) -> int
    decreases rows.len(),
{
    if rows.len() == 0 {
        0
    } else {
        rows_total(rows.drop_last()) + rows.last().total.0 as int
    }
}

/// `🛒 mercado: R$ 89,66 (2)`.
pub open spec fn activity_line(item: CategoryActivity) -> Seq<char> {
    category_label_text(item.category) + ": "@ + brl_text(item.total.0 as int) + " ("@ + decimal(item.entries as nat)
        + ")"@
}

/// One kind's categories with their totals, then the kind's total; `None`
/// when no category of that kind moved.
pub open spec fn kind_section_text(title: Seq<char>, kind: CategoryKind, activity: Seq<CategoryActivity>) -> Option<Seq<char>> {
    let rows = rows_of_kind(activity, kind);
    if rows.len() == 0 {
        None
    } else {
        Some(
            "<b>"@ + title + "</b>\n"@ + joined(rows.map_values(|item: CategoryActivity| activity_line(item)), "\n"@)
                + "\nTotal: "@ + brl_text(rows_total(rows)),
        )
    }
}

/// Every partial total of the rows of `kind` fits in `Cents`.
pub open spec fn kind_totals_fit(activity: Seq<CategoryActivity>, kind: CategoryKind) -> bool {
    forall|k: int| 0 <= k <= rows_of_kind(activity, kind).len() ==> i64::MIN <= #[trigger] rows_total(
        rows_of_kind(activity, kind).take(k),
    ) <= i64::MAX
}

fn kind_section(title: &str, kind: CategoryKind, activity: &[CategoryActivity]) -> (text: Option<String>)
    requires
        kind_totals_fit(activity@, kind),
    ensures
        match text {
            Some(shown) => kind_section_text(title@, kind, activity@) == Some(shown@),
            None => kind_section_text(title@, kind, activity@) is None,
        },
{
    let ghost rows = rows_of_kind(activity@, kind);
    let mut lines: Vec<String> = Vec::new();
    let mut total: i64 = 0;
    let mut i: usize = 0;
    let ghost mut count: int = 0;
    while i < activity.len()
        invariant
            i <= activity@.len(),
            rows == rows_of_kind(activity@, kind),
            kind_totals_fit(activity@, kind),
            rows_of_kind(activity@.take(i as int), kind) == rows.take(count),
            0 <= count <= rows.len(),
            lines@.map_values(|line: String| line@) == rows.take(count).map_values(
                |item: CategoryActivity| activity_line(item),
            ),
            total == rows_total(rows.take(count)),
        decreases activity@.len() - i,
    {
        proof {
            lemma_rows_prefix(activity@, kind, i as int);
        }
        assert(activity@.take(i + 1).drop_last() =~= activity@.take(i as int));
        assert(activity@.take(i + 1).last() == activity@[i as int]);
        let item = &activity[i];
        if item.category.kind == kind {
            proof {
                let prefix = rows_of_kind(activity@.take(i + 1), kind);
                assert(prefix == rows.take(count).push(activity@[i as int]));
                assert(rows.take(count + 1) =~= prefix);
                assert(rows.take(count + 1) =~= rows.take(count).push(activity@[i as int]));
                assert(rows.take(count + 1).drop_last() =~= rows.take(count));
                assert(i64::MIN <= rows_total(rows.take(count + 1)) <= i64::MAX);
            }
            let mut line: Vec<char> = Vec::new();
            let shown = category_label(&item.category);
            push_str(&mut line, shown.as_str());
            push_str(&mut line, ": ");
            let amount = format_brl(item.total);
            push_str(&mut line, amount.as_str());
            push_str(&mut line, " (");
            push_decimal(&mut line, item.entries);
            push_str(&mut line, ")");
            let ghost before = lines@;
            lines.push(string_of(&line));
            assert(lines@.map_values(|line: String| line@) =~= before.map_values(|line: String| line@).push(
                activity_line(activity@[i as int]),
            ));
            total = total + item.total.0;
            proof {
                count = count + 1;
            }
        }
        i = i + 1;
    }
    assert(activity@.take(i as int) =~= activity@);
    assert(rows.take(count) =~= rows);
    if lines.len() == 0 {
        return None;
    }
    let mut out: Vec<char> = Vec::new();
    push_str(&mut out, "<b>");
    push_str(&mut out, title);
    push_str(&mut out, "</b>\n");
    push_joined(&mut out, &lines, "\n");
    push_str(&mut out, "\nTotal: ");
    let shown_total = format_brl(Cents(total));
    push_str(&mut out, shown_total.as_str());
    Some(string_of(&out))
}

proof fn lemma_rows_concat(first: Seq<CategoryActivity>, second: Seq<CategoryActivity>, kind: CategoryKind)
    ensures
        rows_of_kind(first + second, kind) == rows_of_kind(first, kind) + rows_of_kind(second, kind),
    decreases second.len(),
{
    if second.len() == 0 {
        assert(first + second =~= first);
        assert(rows_of_kind(first, kind) + rows_of_kind(second, kind) =~= rows_of_kind(first, kind));
    } else {
        lemma_rows_concat(first, second.drop_last(), kind);
        assert((first + second).drop_last() =~= first + second.drop_last());
        assert((first + second).last() == second.last());
        if second.last().category.kind == kind {
            assert(rows_of_kind(first, kind) + rows_of_kind(second, kind) =~= (rows_of_kind(first, kind)
                + rows_of_kind(second.drop_last(), kind)).push(second.last()));
        }
    }
}

proof fn lemma_rows_prefix(activity: Seq<CategoryActivity>, kind: CategoryKind, i: int)
    requires
        0 <= i < activity.len(),
    ensures
        rows_of_kind(activity.take(i + 1), kind) == if activity[i].category.kind == kind {
            rows_of_kind(activity.take(i), kind).push(activity[i])
        } else {
            rows_of_kind(activity.take(i), kind)
        },
        rows_of_kind(activity, kind) == rows_of_kind(activity.take(i + 1), kind) + rows_of_kind(activity.skip(i + 1), kind),
{
    assert(activity.take(i + 1).drop_last() =~= activity.take(i));
    assert(activity.take(i + 1).last() == activity[i]);
    lemma_rows_concat(activity.take(i + 1), activity.skip(i + 1), kind);
    assert(activity.take(i + 1) + activity.skip(i + 1) =~= activity);
}

/// One button per category, two to a row, each opening that category's
/// entries for the period.
pub open spec fn category_rows(activity: Seq<CategoryActivity>, period: StatementPeriod) -> Seq<Seq<(Seq<char>, Seq<char>)>> {
    chunked(
        activity.map_values(
            |item: CategoryActivity| (
                category_label_text(item.category),
                statement_button_text(item.category.id, period.from, period.to),
            ),
        ),
        2,
    )
}

fn category_keyboard(activity: &[CategoryActivity], period: StatementPeriod) -> (keyboard: Keyboard)
    requires
        period.from.valid(),
        period.to.valid(),
    ensures
        rows_view(keyboard.rows@) == category_rows(activity@, period),
{
    let mut buttons: Vec<Button> = Vec::new();
    let mut i: usize = 0;
    while i < activity.len()
        invariant
            i <= activity@.len(),
            period.from.valid(),
            period.to.valid(),
            row_view(buttons@) == activity@.take(i as int).map_values(
                |item: CategoryActivity| (
                    category_label_text(item.category),
                    statement_button_text(item.category.id, period.from, period.to),
                ),
            ),
        decreases activity@.len() - i,
    {
        let item = &activity[i];
        let ghost before = buttons@;
        buttons.push(Button {
            label: category_label(&item.category),
            data: category_statement_button(item.category.id, period.from, period.to),
        });
        assert(row_view(buttons@) =~= row_view(before).push(
            (category_label_text(activity@[i as int].category), statement_button_text(activity@[i as int].category.id, period.from, period.to)),
        ));
        assert(activity@.take(i + 1) =~= activity@.take(i as int).push(activity@[i as int]));
        i = i + 1;
    }
    assert(activity@.take(i as int) =~= activity@);
    Keyboard { rows: button_rows(&buttons, 2) }
}

/// `buttons` in rows of `per_row`, the last row possibly shorter.
pub fn button_rows(buttons: &Vec<Button>, per_row: usize) -> (rows: Vec<Vec<Button>>)
    requires
        per_row > 0,
    ensures
        rows_view(rows@) == chunked(row_view(buttons@), per_row as nat),
{
    let ghost all = row_view(buttons@);
    let n = buttons.len();
    let mut rows: Vec<Vec<Button>> = Vec::new();
    let mut start: usize = 0;
    assert(all.skip(0) =~= all);
    while start < n
        invariant
            start <= n,
            n == buttons@.len(),
            per_row > 0,
            all == row_view(buttons@),
            chunked(all, per_row as nat) == rows_view(rows@) + chunked(all.skip(start as int), per_row as nat),
        decreases n - start,
    {
        let end = if n - start <= per_row { n } else { start + per_row };
        let mut row: Vec<Button> = Vec::new();
        let mut k = start;
        while k < end
            invariant
                start <= k <= end <= n,
                n == buttons@.len(),
                all == row_view(buttons@),
                row_view(row@) == all.subrange(start as int, k as int),
            decreases end - k,
        {
            let button = Button { label: buttons[k].label.clone(), data: buttons[k].data.clone() };
            let ghost before = row@;
            row.push(button);
            assert(row_view(row@) =~= row_view(before).push(all[k as int]));
            assert(all.subrange(start as int, k + 1) =~= all.subrange(start as int, k as int).push(all[k as int]));
            k = k + 1;
        }
        proof {
            let rest = all.skip(start as int);
            assert(all.subrange(start as int, end as int) =~= rest.take(end - start));
            assert(rest.skip(end - start) =~= all.skip(end as int));
            if end == n {
                assert(rest.take(end - start) =~= rest);
                assert(all.skip(end as int).len() == 0);
                assert(chunked(all.skip(end as int), per_row as nat) =~= Seq::<(Seq<char>, Seq<char>)>::empty().map_values(|x: (Seq<char>, Seq<char>)| seq![x]));
            }
            assert(chunked(rest, per_row as nat) =~= seq![rest.take(end - start)] + chunked(all.skip(end as int), per_row as nat));
        }
        let ghost before_rows = rows@;
        rows.push(row);
        proof {
            assert(rows_view(rows@) =~= rows_view(before_rows).push(all.subrange(start as int, end as int)));
            assert(rows_view(before_rows) + (seq![all.subrange(start as int, end as int)] + chunked(all.skip(end as int), per_row as nat))
                =~= rows_view(rows@) + chunked(all.skip(end as int), per_row as nat));
        }
        start = end;
    }
    proof {
        assert(all.skip(start as int).len() == 0);
        assert(chunked(all, per_row as nat) =~= rows_view(rows@));
    }
    rows
}

/// `/extrato`: the title, each kind's section, and a hint to tap.
pub open spec fn overview_text(activity: Seq<CategoryActivity>, period: StatementPeriod) -> Seq<char> {
    let title = "<b>📂 Extrato por categoria</b> · "@ + period_label(period);
    if activity.len() == 0 {
        title + "\nNenhum lançamento com categoria nesse ciclo."@
    } else {
        let expenses = kind_section_text("💸 Gastos"@, CategoryKind::Expense, activity);
        let incomes = kind_section_text("💰 Entradas"@, CategoryKind::Income, activity);
        let body = (match expenses {
            Some(text) => seq![text],
            None => Seq::empty(),
        }) + (match incomes {
            Some(text) => seq![text],
            None => Seq::empty(),
        });
        title + "\n\n"@ + joined(body, "\n\n"@) + "\n\nToque numa categoria para ver os lançamentos."@
    }
}

/// Totals per category plus one button per category.
pub fn statement_overview(activity: &[CategoryActivity], period: StatementPeriod) -> (view: (String, Option<Keyboard>))
    requires
        period.from.valid(),
        period.to.valid(),
        kind_totals_fit(activity@, CategoryKind::Expense),
        kind_totals_fit(activity@, CategoryKind::Income),
    ensures
        view.0@ == overview_text(activity@, period),
        activity@.len() == 0 ==> view.1 is None,
        activity@.len() > 0 ==> (view.1 matches Some(keyboard) && rows_view(keyboard.rows@) == category_rows(activity@, period)),
{
    let mut title: Vec<char> = Vec::new();
    push_str(&mut title, "<b>📂 Extrato por categoria</b> · ");
    let shown_period = label(period);
    push_str(&mut title, shown_period.as_str());
    if activity.len() == 0 {
        push_str(&mut title, "\nNenhum lançamento com categoria nesse ciclo.");
        return (string_of(&title), None);
    }
    let mut body: Vec<String> = Vec::new();
    let ghost expenses = kind_section_text("💸 Gastos"@, CategoryKind::Expense, activity@);
    let ghost incomes = kind_section_text("💰 Entradas"@, CategoryKind::Income, activity@);
    match kind_section("💸 Gastos", CategoryKind::Expense, activity) {
        Some(text) => body.push(text),
        None => {},
    }
    let ghost first = body@;
    match kind_section("💰 Entradas", CategoryKind::Income, activity) {
        Some(text) => body.push(text),
        None => {},
    }
    assert(body@.map_values(|part: String| part@) =~= (match expenses {
        Some(text) => seq![text],
        None => Seq::empty(),
    }) + (match incomes {
        Some(text) => seq![text],
        None => Seq::empty(),
    }));
    let mut out = title;
    push_str(&mut out, "\n\n");
    push_joined(&mut out, &body, "\n\n");
    push_str(&mut out, "\n\nToque numa categoria para ver os lançamentos.");
    (string_of(&out), Some(category_keyboard(activity, period)))
}

/// The name of an entry's author, or `automático` for what the bot
/// recorded by itself.
pub open spec fn author_name(members: Seq<Member>, author: Option<MemberId>) -> Seq<char> {
    match author {
        Some(id) => match member_with(members, id) {
            Some(member) => escaped(member.display_name@),
            None => "automático"@,
        },
        None => "automático"@,
    }
}

/// The first of `members` with `id`.
pub open spec fn member_with(members: Seq<Member>, id: MemberId) -> Option<Member>
    decreases members.len(),
{
    if members.len() == 0 {
        None
    } else if members[0].id == id {
        Some(members[0])
    } else {
        member_with(members.drop_first(), id)
    }
}

/// The author's shown name.
pub fn author(members: &[Member], created_by: Option<MemberId>) -> (name: String)
    ensures
        name@ == author_name(members@, created_by),
{
    let id = match created_by {
        Some(id) => id,
        None => return "automático".to_owned(),
    };
    let mut i: usize = 0;
    assert(members@.skip(0) =~= members@);
    while i < members.len()
        invariant
            i <= members@.len(),
            created_by == Some(id),
            member_with(members@, id) == member_with(members@.skip(i as int), id),
        decreases members@.len() - i,
    {
        assert(members@.skip(i as int)[0] == members@[i as int]);
        if members[i].id == id {
            return escape(members[i].display_name.as_str());
        }
        assert(members@.skip(i as int).drop_first() =~= members@.skip(i + 1));
        i = i + 1;
    }
    "automático".to_owned()
}

pub open spec fn kind_marker(kind: EntryKind) -> Seq<char> {
    match kind {
        EntryKind::CardInstallment => "💳 "@,
        EntryKind::Refund | EntryKind::CardCredit => "↩️ "@,
        _ => Seq::empty(),
    }
}

/// ` — mercado`, or nothing for an empty description.
pub open spec fn description_suffix(description: Seq<char>) -> Seq<char> {
    if description.len() == 0 { Seq::empty() } else { " — "@ + escaped(description) }
}

/// `16/09 💳 R$ 89,66 — rapé (GL)`; refunds show as negative.
pub open spec fn statement_line_text(entry: LedgerEntry, members: Seq<Member>) -> Seq<char> {
    day_month_text(entry.accounting_date) + " "@ + kind_marker(entry.kind) + brl_text(
        category_effect_of(entry.kind, entry.amount),
    ) + description_suffix(entry.description@) + " ("@ + author_name(members, entry.created_by) + ")"@
}

pub fn statement_line(entry: &LedgerEntry, kind: CategoryKind, members: &[Member]) -> (line: String)
    requires
        entry.accounting_date.valid(),
        entry.amount.0 > i64::MIN,
    ensures
        line@ == statement_line_text(*entry, members@),
{
    let mut out: Vec<char> = Vec::new();
    let day = format_day_month(entry.accounting_date);
    push_str(&mut out, day.as_str());
    push_str(&mut out, " ");
    match entry.kind {
        EntryKind::CardInstallment => push_str(&mut out, "💳 "),
        EntryKind::Refund | EntryKind::CardCredit => push_str(&mut out, "↩️ "),
        _ => {},
    }
    let amount = format_brl(category_effect(entry, kind));
    push_str(&mut out, amount.as_str());
    if entry.description.as_str().unicode_len() > 0 {
        push_str(&mut out, " — ");
        let shown = escape(entry.description.as_str());
        push_str(&mut out, shown.as_str());
    }
    push_str(&mut out, " (");
    let name = author(members, entry.created_by);
    push_str(&mut out, name.as_str());
    push_str(&mut out, ")");
    string_of(&out)
}

/// The title of one category's statement.
pub open spec fn entries_title(category: Category, period: StatementPeriod) -> Seq<char> {
    "<b>"@ + category_label_text(category) + "</b> · "@ + period_label(period)
}

/// What the entries add up to for their category.
pub open spec fn entries_total(entries: Seq<LedgerEntry>) -> int
    decreases entries.len(),
{
    if entries.len() == 0 {
        0
    } else {
        entries_total(entries.drop_last()) + category_effect_of(entries.last().kind, entries.last().amount)
    }
}

/// `Total: R$ 79,66 (2 lançamentos)`.
pub open spec fn entries_footer(entries: Seq<LedgerEntry>) -> Seq<char> {
    "Total: "@ + brl_text(entries_total(entries)) + " ("@ + decimal(entries.len()) + " lançamentos)"@
}

/// Every entry of a category in the period, oldest first, cut to fit one
/// message, then the total.
pub open spec fn entries_message(
    category: Category,
    entries: Seq<LedgerEntry>,
    members: Seq<Member>,
    period: StatementPeriod,
) -> Seq<char> {
    let title = entries_title(category, period);
    if entries.len() == 0 {
        title + "\nNenhum lançamento nesse ciclo."@
    } else {
        let footer = entries_footer(entries);
        title + "\n"@ + fitted_text(
            entries.map_values(|entry: LedgerEntry| statement_line_text(entry, members)),
            MAX_MESSAGE_CHARS - byte_len(title) - byte_len(footer),
        ) + "\n"@ + footer
    }
}

/// What the inputs of a statement must hold: real days, amounts that can
/// be negated, totals that fit, and a title and footer that leave room.
pub open spec fn statement_fits(category: Category, entries: Seq<LedgerEntry>, period: StatementPeriod) -> bool {
    &&& period.from.valid()
    &&& period.to.valid()
    &&& forall|i: int| 0 <= i < entries.len() ==> (#[trigger] entries[i]).accounting_date.valid()
        && entries[i].amount.0 > i64::MIN
    &&& forall|k: int| 0 <= k <= entries.len() ==> i64::MIN <= #[trigger] entries_total(entries.take(k)) <= i64::MAX
    &&& entries.len() > 0 ==> byte_len(entries_title(category, period)) + byte_len(entries_footer(entries))
        <= MAX_MESSAGE_CHARS
}

/// Every entry of `category` in the period, oldest first.
pub fn category_entries_text(
    category: &Category,
    entries: &[LedgerEntry],
    members: &[Member],
    period: StatementPeriod,
) -> (text: String)
    requires
        statement_fits(*category, entries@, period),
    ensures
        text@ == entries_message(*category, entries@, members@, period),
{
    let mut title: Vec<char> = Vec::new();
    push_str(&mut title, "<b>");
    let shown = category_label(category);
    push_str(&mut title, shown.as_str());
    push_str(&mut title, "</b> · ");
    let shown_period = label(period);
    push_str(&mut title, shown_period.as_str());
    let title = string_of(&title);
    if entries.len() == 0 {
        let mut out: Vec<char> = Vec::new();
        push_str(&mut out, title.as_str());
        push_str(&mut out, "\nNenhum lançamento nesse ciclo.");
        return string_of(&out);
    }
    let mut total: i64 = 0;
    let mut lines: Vec<String> = Vec::new();
    let mut i: usize = 0;
    while i < entries.len()
        invariant
            i <= entries@.len(),
            statement_fits(*category, entries@, period),
            total == entries_total(entries@.take(i as int)),
            lines@.map_values(|line: String| line@) == entries@.take(i as int).map_values(
                |entry: LedgerEntry| statement_line_text(entry, members@),
            ),
        decreases entries@.len() - i,
    {
        let entry = &entries[i];
        assert(entries@.take(i + 1).drop_last() =~= entries@.take(i as int));
        assert(entries@.take(i + 1).last() == entries@[i as int]);
        assert(entries@[i as int].accounting_date.valid() && entries@[i as int].amount.0 > i64::MIN);
        assert(i64::MIN <= entries_total(entries@.take(i + 1)) <= i64::MAX);
        let effect = category_effect(entry, category.kind);
        total = total + effect.0;
        let ghost before = lines@;
        lines.push(statement_line(entry, category.kind, members));
        assert(lines@.map_values(|line: String| line@) =~= before.map_values(|line: String| line@).push(
            statement_line_text(entries@[i as int], members@),
        ));
        assert(entries@.take(i + 1) =~= entries@.take(i as int).push(entries@[i as int]));
        i = i + 1;
    }
    assert(entries@.take(i as int) =~= entries@);
    let mut footer: Vec<char> = Vec::new();
    push_str(&mut footer, "Total: ");
    let shown_total = format_brl(Cents(total));
    push_str(&mut footer, shown_total.as_str());
    push_str(&mut footer, " (");
    push_decimal(&mut footer, entries.len() as u64);
    push_str(&mut footer, " lançamentos)");
    let footer = string_of(&footer);
    let budget = MAX_MESSAGE_CHARS - title.as_str().len() - footer.as_str().len();
    let fitted = fit_lines(lines.as_slice(), budget);
    let mut out: Vec<char> = Vec::new();
    push_str(&mut out, title.as_str());
    push_str(&mut out, "\n");
    push_str(&mut out, fitted.as_str());
    push_str(&mut out, "\n");
    push_str(&mut out, footer.as_str());
    string_of(&out)
}

} // verus!
