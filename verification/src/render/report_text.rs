//! pt-BR text of the daily and cycle reports, and their pieces.

use vstd::prelude::*;

use super::catalog::{Category, category_label, category_label_text, category_with};
use super::category_statement::{author, author_name, description_suffix};
use super::help::{joined, push_joined};
use super::notices::{BudgetStatus, budget_line, budget_line_text};
use crate::bot::access::Member;
use super::catalog::Recurrence;
use crate::calendar::{Date, chrono_days_between, day_before, day_month_text, days_between, format_day_month, previous_day};
use crate::html::{escape, escaped};
use crate::ledger::{EntryKind, LedgerEntry};
use crate::model::{CategoryId, Cents, MemberId};
use crate::money::{brl_text, format_brl};
use crate::numbers::{decimal, push_decimal, push_signed_decimal, signed_decimal};
use crate::text::{contains_text, push_str, string_of};
use super::reports::{BalanceSheet, GoalProgress, balance_message, balance_text, goals_message, goals_text, truncated_div};

verus! {

/// Categories listed in the cycle report before "outros".
pub const TOP_CATEGORIES: usize = 8;

/// The daily report lists budgets from 80% on.
pub const WARNING_BP: i64 = 8_000;

/// Income, spending and what was left of a period.
#[derive(Clone, Copy, Debug, PartialEq, Eq, Structural)]
pub struct PeriodSummary {
    pub income: Cents,
    pub spending: Cents,
    pub saved: Cents,
    /// Saved over income, in basis points; none without income.
    pub savings_rate_bp: Option<i64>,
}

/// A period's totals, by category (largest first) and by person.
#[derive(Clone, Debug, PartialEq, Eq)]
pub struct PeriodTotals {
    pub summary: PeriodSummary,
    pub by_category: Vec<(Option<CategoryId>, Cents)>,
    pub by_member: Vec<(Option<MemberId>, Cents)>,
}

/// A billing cycle: from `start` up to, not including, `end_exclusive`.
#[derive(Clone, Copy, Debug, PartialEq, Eq, Structural)]
pub struct Cycle {
    pub start: Date,
    pub end_exclusive: Date,
}

/// A cycle whose days exist and whose last day is known.
pub open spec fn cycle_valid(cycle: Cycle) -> bool {
    &&& cycle.start.valid()
    &&& cycle.end_exclusive.valid()
    &&& day_before(cycle.end_exclusive) is Some
}

/// The day before `end_exclusive`.
pub open spec fn last_day_of(cycle: Cycle) -> Date {
    day_before(cycle.end_exclusive)->0
}

impl Cycle {
    /// The cycle's last day.
    pub fn last_day(&self) -> (last: Date)
        requires
            cycle_valid(*self),
        ensures
            last == last_day_of(*self),
            last.valid(),
    {
        proof {
            crate::calendar::lemma_day_before_valid(self.end_exclusive);
        }
        match previous_day(self.end_exclusive) {
            Some(last) => last,
            None => self.end_exclusive,
        }
    }
}

/// ` (34% das entradas)`; empty without income.
pub open spec fn rate_suffix_text(summary: PeriodSummary) -> Seq<char> {
    match summary.savings_rate_bp {
        Some(rate) => " ("@ + signed_decimal(truncated_div(rate as int, 100)) + "% das entradas)"@,
        None => Seq::empty(),
    }
}

pub fn rate_suffix(summary: &PeriodSummary) -> (text: String)
    ensures
        text@ == rate_suffix_text(*summary),
{
    match summary.savings_rate_bp {
        Some(rate) => {
            let mut out: Vec<char> = Vec::new();
            push_str(&mut out, " (");
            let percent: i64 = if rate >= 0 {
                rate / 100
            } else {
                let magnitude: i128 = -(rate as i128);
                -((magnitude / 100) as i64)
            };
            push_signed_decimal(&mut out, percent);
            push_str(&mut out, "% das entradas)");
            string_of(&out)
        },
        None => String::new(),
    }
}

/// The change from `previous` to `current` in whole percent, rounded
/// toward zero.
pub open spec fn change_percent(current: Cents, previous: Cents) -> int {
    truncated_div((current.0 - previous.0) * 100, previous.0 as int)
}

/// ` (▲12% vs ciclo anterior)`; empty without a previous cycle to compare.
pub open spec fn change_suffix_text(current: Cents, previous: Cents) -> Seq<char> {
    if previous.0 <= 0 {
        Seq::empty()
    } else {
        let change = change_percent(current, previous);
        " ("@ + (if change >= 0 { "▲"@ } else { "▼"@ }) + signed_decimal(if change >= 0 { change } else { -change })
            + "% vs ciclo anterior)"@
    }
}

pub fn change_suffix(current: Cents, previous: Cents) -> (text: String)
    requires
        previous.0 > 0 ==> i64::MIN <= (current.0 - previous.0) * 100 <= i64::MAX,
    ensures
        text@ == change_suffix_text(current, previous),
{
    if previous.0 <= 0 {
        return String::new();
    }
    let scaled: i64 = (current.0 - previous.0) * 100;
    let change: i64 = if scaled >= 0 {
        scaled / previous.0
    } else {
        let magnitude: i128 = -(scaled as i128);
        -((magnitude / (previous.0 as i128)) as i64)
    };
    let mut out: Vec<char> = Vec::new();
    push_str(&mut out, " (");
    if change >= 0 {
        push_str(&mut out, "▲");
        push_signed_decimal(&mut out, change);
    } else {
        push_str(&mut out, "▼");
        push_signed_decimal(&mut out, -change);
    }
    push_str(&mut out, "% vs ciclo anterior)");
    string_of(&out)
}

/// What `chrono` says the weekday of `date` is: 0 for Monday to 6 for
/// Sunday, counted from a Thursday on 1970-01-01.
pub open spec fn chrono_weekday(date: Date) -> u32 {
    ((crate::calendar::civil_day(date) + 3) % 7) as u32
}

/// `chrono::Datelike::weekday` as days from Monday.
#[verifier::external_body]
fn weekday_of(date: Date) -> (day: u32)
    requires
        date.valid(),
    ensures
        day == chrono_weekday(date),
        day < 7,
{
    let naive = chrono::NaiveDate::from_ymd_opt(date.year, date.month, date.day).unwrap();
    chrono::Datelike::weekday(&naive).num_days_from_monday()
}

pub open spec fn weekday_name(day: u32) -> Seq<char> {
    if day == 0 {
        "segunda"@
    } else if day == 1 {
        "terça"@
    } else if day == 2 {
        "quarta"@
    } else if day == 3 {
        "quinta"@
    } else if day == 4 {
        "sexta"@
    } else if day == 5 {
        "sábado"@
    } else {
        "domingo"@
    }
}

/// `terça, 10/03`.
pub fn weekday_date(date: Date) -> (text: String)
    requires
        date.valid(),
    ensures
        text@ == weekday_name(chrono_weekday(date)) + ", "@ + day_month_text(date),
{
    let day = weekday_of(date);
    let name = if day == 0 {
        "segunda"
    } else if day == 1 {
        "terça"
    } else if day == 2 {
        "quarta"
    } else if day == 3 {
        "quinta"
    } else if day == 4 {
        "sexta"
    } else if day == 5 {
        "sábado"
    } else {
        "domingo"
    };
    let mut out: Vec<char> = Vec::new();
    push_str(&mut out, name);
    push_str(&mut out, ", ");
    let shown = format_day_month(date);
    push_str(&mut out, shown.as_str());
    string_of(&out)
}

/// `05/09 → 04/10`: the first and the last day of the cycle.
pub open spec fn cycle_range_text(cycle: Cycle) -> Seq<char> {
    day_month_text(cycle.start) + " → "@ + day_month_text(
        match day_before(cycle.end_exclusive) {
            Some(last) => last,
            None => cycle.end_exclusive,
        },
    )
}

pub fn cycle_range(cycle: Cycle) -> (text: String)
    requires
        cycle.start.valid(),
        cycle.end_exclusive.valid(),
        day_before(cycle.end_exclusive) is Some,
    ensures
        text@ == cycle_range_text(cycle),
{
    let last = match previous_day(cycle.end_exclusive) {
        Some(last) => last,
        None => cycle.end_exclusive,
    };
    proof {
        crate::calendar::lemma_day_before_valid(cycle.end_exclusive);
    }
    let mut out: Vec<char> = Vec::new();
    let first = format_day_month(cycle.start);
    push_str(&mut out, first.as_str());
    push_str(&mut out, " → ");
    let shown = format_day_month(last);
    push_str(&mut out, shown.as_str());
    string_of(&out)
}

/// How rows without a category are named.
pub open spec fn kind_label_text(kind: EntryKind) -> Seq<char> {
    match kind {
        EntryKind::Transfer => "↔️ transferência"@,
        EntryKind::InvoicePayment => "💳 pagamento de fatura"@,
        EntryKind::AdjustIn | EntryKind::AdjustOut => "⚖️ ajuste"@,
        _ => "lançamento"@,
    }
}

pub fn kind_label(kind: EntryKind) -> (text: &'static str)
    ensures
        text@ == kind_label_text(kind),
{
    match kind {
        EntryKind::Transfer => "↔️ transferência",
        EntryKind::InvoicePayment => "💳 pagamento de fatura",
        EntryKind::AdjustIn | EntryKind::AdjustOut => "⚖️ ajuste",
        _ => "lançamento",
    }
}

/// A category's label, or `sem categoria`.
pub open spec fn category_name(categories: Seq<Category>, id: Option<CategoryId>) -> Seq<char> {
    match id {
        Some(id) => match category_with(categories, id) {
            Some(found) => category_label_text(found),
            None => "sem categoria"@,
        },
        None => "sem categoria"@,
    }
}

pub fn category_name_of(categories: &[Category], id: Option<CategoryId>) -> (name: String)
    ensures
        name@ == category_name(categories@, id),
{
    let wanted = match id {
        Some(wanted) => wanted,
        None => return "sem categoria".to_owned(),
    };
    let mut i: usize = 0;
    assert(categories@.skip(0) =~= categories@);
    while i < categories.len()
        invariant
            i <= categories@.len(),
            id == Some(wanted),
            category_with(categories@, wanted) == category_with(categories@.skip(i as int), wanted),
        decreases categories@.len() - i,
    {
        assert(categories@.skip(i as int)[0] == categories@[i as int]);
        if categories[i].id == wanted {
            return category_label(&categories[i]);
        }
        assert(categories@.skip(i as int).drop_first() =~= categories@.skip(i + 1));
        i = i + 1;
    }
    "sem categoria".to_owned()
}

/// `• Ana: 🛒 mercado R$ 10,00 — feira`.
pub open spec fn entry_line_text(entry: LedgerEntry, categories: Seq<Category>, members: Seq<Member>) -> Seq<char> {
    let what = if entry.category_id is Some {
        category_name(categories, entry.category_id)
    } else {
        kind_label_text(entry.kind)
    };
    "• "@ + author_name(members, entry.created_by) + ": "@ + what + " "@ + brl_text(entry.amount.0 as int)
        + description_suffix(entry.description@)
}

pub fn entry_line(entry: &LedgerEntry, categories: &[Category], members: &[Member]) -> (line: String)
    ensures
        line@ == entry_line_text(*entry, categories@, members@),
{
    let mut out: Vec<char> = Vec::new();
    push_str(&mut out, "• ");
    let who = author(members, entry.created_by);
    push_str(&mut out, who.as_str());
    push_str(&mut out, ": ");
    if entry.category_id.is_some() {
        let what = category_name_of(categories, entry.category_id);
        push_str(&mut out, what.as_str());
    } else {
        push_str(&mut out, kind_label(entry.kind));
    }
    push_str(&mut out, " ");
    let amount = format_brl(entry.amount);
    push_str(&mut out, amount.as_str());
    if entry.description.as_str().unicode_len() > 0 {
        push_str(&mut out, " — ");
        let shown = escape(entry.description.as_str());
        push_str(&mut out, shown.as_str());
    }
    string_of(&out)
}

/// `Gastos por pessoa: Ana: R$ 10,00 · Bia: R$ 5,00`.
pub open spec fn member_line_text(by_member: Seq<(Option<MemberId>, Cents)>, members: Seq<Member>) -> Seq<char> {
    if by_member.len() == 0 {
        "Gastos por pessoa: —"@
    } else {
        "Gastos por pessoa: "@ + joined(
            by_member.map_values(
                |part: (Option<MemberId>, Cents)| author_name(members, part.0) + ": "@ + brl_text(part.1.0 as int),
            ),
            " · "@,
        )
    }
}

/// Each part occurs in the text that joins them.
proof fn lemma_joined_contains_part(parts: Seq<Seq<char>>, separator: Seq<char>, k: int)
    requires
        0 <= k < parts.len(),
    ensures
        contains_text(joined(parts, separator), parts[k]),
    decreases parts.len(),
{
    let whole = joined(parts, separator);
    let part = parts[k];
    if parts.len() == 1 {
        let at: int = 0;
        assert(whole == part);
        assert(whole.subrange(at, at + part.len()) =~= part);
    } else {
        let front = joined(parts.drop_last(), separator);
        assert(whole == front + separator + parts.last());
        if k == parts.len() - 1 {
            let at = (front.len() + separator.len()) as int;
            assert(whole.subrange(at, at + part.len()) =~= part);
        } else {
            lemma_joined_contains_part(parts.drop_last(), separator, k);
            assert(parts.drop_last()[k] == part);
            let at = choose|i: int|
                0 <= i && i + part.len() <= front.len() && #[trigger] front.subrange(i, i + part.len()) == part;
            assert(whole.subrange(at, at + part.len()) =~= front.subrange(at, at + part.len()));
        }
    }
}

/// The per-person line leaves nobody out: for every entry of `by_member`,
/// the member's name, `: ` and the amount spent appear in the line, after
/// its title.
pub proof fn lemma_member_line_names_everyone(
    by_member: Seq<(Option<MemberId>, Cents)>,
    members: Seq<Member>,
    i: int,
)
    requires
        0 <= i < by_member.len(),
    ensures
        "Gastos por pessoa: "@.is_prefix_of(member_line_text(by_member, members)),
        contains_text(
            member_line_text(by_member, members),
            author_name(members, by_member[i].0) + ": "@ + brl_text(by_member[i].1.0 as int),
        ),
{
    reveal_strlit("Gastos por pessoa: ");
    let parts = by_member.map_values(
        |part: (Option<MemberId>, Cents)| author_name(members, part.0) + ": "@ + brl_text(part.1.0 as int),
    );
    let title = "Gastos por pessoa: "@;
    let body = joined(parts, " · "@);
    let line = member_line_text(by_member, members);
    assert(line == title + body);
    assert(line.take(title.len() as int) =~= title);
    let part = parts[i];
    lemma_joined_contains_part(parts, " · "@, i);
    let at = choose|j: int| 0 <= j && j + part.len() <= body.len() && #[trigger] body.subrange(j, j + part.len()) == part;
    assert(line.subrange(title.len() + at, title.len() + at + part.len()) =~= body.subrange(at, at + part.len()));
}

pub fn member_line(totals: &PeriodTotals, members: &[Member]) -> (line: String)
    ensures
        line@ == member_line_text(totals.by_member@, members@),
{
    if totals.by_member.len() == 0 {
        return "Gastos por pessoa: —".to_owned();
    }
    let mut parts: Vec<String> = Vec::new();
    let mut i: usize = 0;
    while i < totals.by_member.len()
        invariant
            i <= totals.by_member@.len(),
            parts@.map_values(|part: String| part@) == totals.by_member@.take(i as int).map_values(
                |part: (Option<MemberId>, Cents)| author_name(members@, part.0) + ": "@ + brl_text(part.1.0 as int),
            ),
        decreases totals.by_member@.len() - i,
    {
        let (member, amount) = totals.by_member[i];
        let mut part: Vec<char> = Vec::new();
        let who = author(members, member);
        push_str(&mut part, who.as_str());
        push_str(&mut part, ": ");
        let shown = format_brl(amount);
        push_str(&mut part, shown.as_str());
        let ghost before = parts@;
        parts.push(string_of(&part));
        assert(parts@.map_values(|part: String| part@) =~= before.map_values(|part: String| part@).push(
            author_name(members@, member) + ": "@ + brl_text(amount.0 as int),
        ));
        assert(totals.by_member@.take(i + 1) =~= totals.by_member@.take(i as int).push(totals.by_member@[i as int]));
        i = i + 1;
    }
    assert(totals.by_member@.take(i as int) =~= totals.by_member@);
    let mut out: Vec<char> = Vec::new();
    push_str(&mut out, "Gastos por pessoa: ");
    push_joined(&mut out, &parts, " · ");
    string_of(&out)
}

/// The income, the spending against the last cycle, what was saved and
/// what went into goals.
pub open spec fn cycle_totals_text(summary: PeriodSummary, previous: PeriodSummary, saved_in_pots: Cents) -> Seq<char> {
    "Entradas: "@ + brl_text(summary.income.0 as int) + "\nGastos: "@ + brl_text(summary.spending.0 as int)
        + change_suffix_text(summary.spending, previous.spending) + "\nEconomizado: "@ + brl_text(
        summary.saved.0 as int,
    ) + rate_suffix_text(summary) + "\nGuardado nas metas: "@ + brl_text(saved_in_pots.0 as int)
}

pub fn cycle_totals(summary: &PeriodSummary, previous: &PeriodSummary, saved_in_pots: Cents) -> (text: String)
    requires
        previous.spending.0 > 0 ==> i64::MIN <= (summary.spending.0 - previous.spending.0) * 100 <= i64::MAX,
    ensures
        text@ == cycle_totals_text(*summary, *previous, saved_in_pots),
{
    let mut out: Vec<char> = Vec::new();
    push_str(&mut out, "Entradas: ");
    let income = format_brl(summary.income);
    push_str(&mut out, income.as_str());
    push_str(&mut out, "\nGastos: ");
    let spending = format_brl(summary.spending);
    push_str(&mut out, spending.as_str());
    let change = change_suffix(summary.spending, previous.spending);
    push_str(&mut out, change.as_str());
    push_str(&mut out, "\nEconomizado: ");
    let saved = format_brl(summary.saved);
    push_str(&mut out, saved.as_str());
    let rate = rate_suffix(summary);
    push_str(&mut out, rate.as_str());
    push_str(&mut out, "\nGuardado nas metas: ");
    let pots = format_brl(saved_in_pots);
    push_str(&mut out, pots.as_str());
    string_of(&out)
}

/// `🛒 mercado R$ 85,00 (42%)`: the share of the cycle's spending.
pub open spec fn breakdown_line(categories: Seq<Category>, row: (Option<CategoryId>, Cents), spending: int) -> Seq<char> {
    category_name(categories, row.0) + " "@ + brl_text(row.1.0 as int) + " ("@ + signed_decimal(
        truncated_div(row.1.0 * 100, spending),
    ) + "%)"@
}

/// The sum of the amounts of `rows`.
pub open spec fn rows_total(rows: Seq<(Option<CategoryId>, Cents)>) -> int
    decreases rows.len(),
{
    if rows.len() == 0 {
        0
    } else {
        rows_total(rows.drop_last()) + rows.last().1.0
    }
}

/// `outros R$ 12,00 (6%)`: what the categories after the first
/// [`TOP_CATEGORIES`] add up to, with its share of the spending.
pub open spec fn others_line(rest: int, spending: int) -> Seq<char> {
    "outros "@ + brl_text(rest) + " ("@ + signed_decimal(truncated_div(rest * 100, spending)) + "%)"@
}

/// The largest categories of the cycle with their share of the spending;
/// past [`TOP_CATEGORIES`], the rest in one `outros` line.
pub open spec fn breakdown_text(totals_summary: PeriodSummary, by_category: Seq<(Option<CategoryId>, Cents)>, categories: Seq<Category>) -> Seq<char> {
    if by_category.len() == 0 {
        "<b>Onde foi o dinheiro</b>\nNenhum gasto no ciclo."@
    } else {
        let spending: int = if totals_summary.spending.0 > 1 { totals_summary.spending.0 as int } else { 1 };
        let shown = if by_category.len() > TOP_CATEGORIES { by_category.take(TOP_CATEGORIES as int) } else { by_category };
        let others = if by_category.len() > TOP_CATEGORIES {
            seq![others_line(rows_total(by_category.skip(TOP_CATEGORIES as int)), spending)]
        } else {
            Seq::empty()
        };
        "<b>Onde foi o dinheiro</b>\n"@ + joined(
            shown.map_values(|row: (Option<CategoryId>, Cents)| breakdown_line(categories, row, spending)) + others,
            "\n"@,
        )
    }
}

/// Every listed amount times 100 fits in an `i64`, and so does the total
/// of the categories past the first [`TOP_CATEGORIES`].
pub open spec fn shares_fit(by_category: Seq<(Option<CategoryId>, Cents)>) -> bool {
    &&& forall|i: int| 0 <= i < by_category.len() ==> i64::MIN <= (#[trigger] by_category[i]).1.0 * 100 <= i64::MAX
    &&& by_category.len() > TOP_CATEGORIES ==> i64::MIN <= rows_total(by_category.skip(TOP_CATEGORIES as int)) * 100
        <= i64::MAX
}

pub fn category_breakdown(totals: &PeriodTotals, categories: &[Category]) -> (text: String)
    requires
        shares_fit(totals.by_category@),
    ensures
        text@ == breakdown_text(totals.summary, totals.by_category@, categories@),
{
    if totals.by_category.len() == 0 {
        return "<b>Onde foi o dinheiro</b>\nNenhum gasto no ciclo.".to_owned();
    }
    let spending: i64 = if totals.summary.spending.0 > 1 { totals.summary.spending.0 } else { 1 };
    let count = if totals.by_category.len() > TOP_CATEGORIES { TOP_CATEGORIES } else { totals.by_category.len() };
    let ghost shown = if totals.by_category@.len() > TOP_CATEGORIES {
        totals.by_category@.take(TOP_CATEGORIES as int)
    } else {
        totals.by_category@
    };
    let mut lines: Vec<String> = Vec::new();
    let mut i: usize = 0;
    while i < count
        invariant
            i <= count,
            count == shown.len(),
            count <= totals.by_category@.len(),
            forall|k: int| 0 <= k < count ==> shown[k] == totals.by_category@[k],
            spending >= 1,
            shares_fit(totals.by_category@),
            lines@.map_values(|line: String| line@) == shown.take(i as int).map_values(
                |row: (Option<CategoryId>, Cents)| breakdown_line(categories@, row, spending as int),
            ),
        decreases count - i,
    {
        let (category, amount) = totals.by_category[i];
        assert(totals.by_category@[i as int] == (category, amount));
        assert(i64::MIN <= amount.0 * 100 <= i64::MAX);
        let scaled: i64 = amount.0 * 100;
        let share: i64 = if scaled >= 0 {
            scaled / spending
        } else {
            let magnitude: i128 = -(scaled as i128);
            -((magnitude / (spending as i128)) as i64)
        };
        let mut line: Vec<char> = Vec::new();
        let name = category_name_of(categories, category);
        push_str(&mut line, name.as_str());
        push_str(&mut line, " ");
        let shown_amount = format_brl(amount);
        push_str(&mut line, shown_amount.as_str());
        push_str(&mut line, " (");
        push_signed_decimal(&mut line, share);
        push_str(&mut line, "%)");
        let ghost before = lines@;
        lines.push(string_of(&line));
        assert(lines@.map_values(|line: String| line@) =~= before.map_values(|line: String| line@).push(
            breakdown_line(categories@, shown[i as int], spending as int),
        ));
        assert(shown.take(i + 1) =~= shown.take(i as int).push(shown[i as int]));
        i = i + 1;
    }
    assert(shown.take(i as int) =~= shown);
    let ghost listed = lines@.map_values(|line: String| line@);
    if totals.by_category.len() > TOP_CATEGORIES {
        let n = totals.by_category.len();
        let ghost rows = totals.by_category@;
        let mut rest: i128 = 0;
        let mut k: usize = TOP_CATEGORIES;
        assert(rows.subrange(TOP_CATEGORIES as int, TOP_CATEGORIES as int) =~= Seq::<(Option<CategoryId>, Cents)>::empty());
        while k < n
            invariant
                TOP_CATEGORIES <= k <= n,
                n == rows.len(),
                rows == totals.by_category@,
                rest == rows_total(rows.subrange(TOP_CATEGORIES as int, k as int)),
                -((k - TOP_CATEGORIES) as int) * 0x8000_0000_0000_0000 <= rest <= ((k - TOP_CATEGORIES) as int)
                    * 0x8000_0000_0000_0000,
            decreases n - k,
        {
            assert(rows.subrange(TOP_CATEGORIES as int, k + 1).drop_last() =~= rows.subrange(
                TOP_CATEGORIES as int,
                k as int,
            ));
            rest = rest + totals.by_category[k].1.0 as i128;
            k = k + 1;
        }
        assert(rows.subrange(TOP_CATEGORIES as int, n as int) =~= rows.skip(TOP_CATEGORIES as int));
        let rest_cents: i64 = rest as i64;
        let scaled: i64 = rest_cents * 100;
        let share: i64 = if scaled >= 0 {
            scaled / spending
        } else {
            let magnitude: i128 = -(scaled as i128);
            -((magnitude / (spending as i128)) as i64)
        };
        let mut line: Vec<char> = Vec::new();
        push_str(&mut line, "outros ");
        let shown_amount = format_brl(Cents(rest_cents));
        push_str(&mut line, shown_amount.as_str());
        push_str(&mut line, " (");
        push_signed_decimal(&mut line, share);
        push_str(&mut line, "%)");
        lines.push(string_of(&line));
        assert(lines@.map_values(|line: String| line@) =~= listed.push(
            others_line(rows_total(rows.skip(TOP_CATEGORIES as int)), spending as int),
        ));
    }
    let ghost others = if totals.by_category@.len() > TOP_CATEGORIES {
        seq![others_line(rows_total(totals.by_category@.skip(TOP_CATEGORIES as int)), spending as int)]
    } else {
        Seq::<Seq<char>>::empty()
    };
    assert(lines@.map_values(|line: String| line@) =~= shown.map_values(
        |row: (Option<CategoryId>, Cents)| breakdown_line(categories@, row, spending as int),
    ) + others);
    let mut out: Vec<char> = Vec::new();
    push_str(&mut out, "<b>Onde foi o dinheiro</b>\n");
    push_joined(&mut out, &lines, "\n");
    string_of(&out)
}

/// The budgets at or above `min_used_bp`, in order.
pub open spec fn budgets_listed(budgets: Seq<BudgetStatus>, min_used_bp: i64) -> Seq<Seq<char>>
    decreases budgets.len(),
{
    if budgets.len() == 0 {
        Seq::empty()
    } else {
        budgets_listed(budgets.drop_last(), min_used_bp) + if budgets.last().used_bp >= min_used_bp {
            seq![budget_line_text(budgets.last())]
        } else {
            Seq::empty()
        }
    }
}

/// Budgets at or above `min_used_bp`; `None` when there are none.
pub open spec fn budgets_section_text(budgets: Seq<BudgetStatus>, min_used_bp: i64) -> Option<Seq<char>> {
    let lines = budgets_listed(budgets, min_used_bp);
    if lines.len() == 0 {
        None
    } else {
        Some("<b>Orçamentos</b>\n"@ + joined(lines, "\n"@))
    }
}

pub fn budgets_section(budgets: &[BudgetStatus], min_used_bp: i64) -> (text: Option<String>)
    ensures
        match text {
            Some(shown) => budgets_section_text(budgets@, min_used_bp) == Some(shown@),
            None => budgets_section_text(budgets@, min_used_bp) is None,
        },
{
    let mut lines: Vec<String> = Vec::new();
    let mut i: usize = 0;
    while i < budgets.len()
        invariant
            i <= budgets@.len(),
            lines@.map_values(|line: String| line@) == budgets_listed(budgets@.take(i as int), min_used_bp),
        decreases budgets@.len() - i,
    {
        assert(budgets@.take(i + 1).drop_last() =~= budgets@.take(i as int));
        assert(budgets@.take(i + 1).last() == budgets@[i as int]);
        let ghost before = lines@;
        if budgets[i].used_bp >= min_used_bp {
            lines.push(budget_line(&budgets[i]));
            assert(lines@.map_values(|line: String| line@) =~= before.map_values(|line: String| line@).push(
                budget_line_text(budgets@[i as int]),
            ));
        }
        i = i + 1;
    }
    assert(budgets@.take(i as int) =~= budgets@);
    if lines.len() == 0 {
        return None;
    }
    let mut out: Vec<char> = Vec::new();
    push_str(&mut out, "<b>Orçamentos</b>\n");
    push_joined(&mut out, &lines, "\n");
    Some(string_of(&out))
}

/// Days left in `cycle` after `date`.
pub open spec fn days_left_of(cycle: Cycle, date: Date) -> int {
    chrono_days_between(cycle.end_exclusive, date) - 1
}

pub fn days_left(cycle: Cycle, date: Date) -> (days: i64)
    requires
        cycle.end_exclusive.valid(),
        date.valid(),
    ensures
        days == days_left_of(cycle, date),
{
    days_between(cycle.end_exclusive, date) - 1
}

/// The day's entries and what was spent, or a note that nothing was
/// recorded.
pub open spec fn today_section_text(
    entries: Seq<LedgerEntry>,
    spent: Cents,
    categories: Seq<Category>,
    members: Seq<Member>,
) -> Seq<char> {
    if entries.len() == 0 {
        "<b>Hoje</b>\nNenhum lançamento hoje."@
    } else {
        "<b>Hoje</b> ("@ + decimal(entries.len()) + " lançamentos)\n"@ + joined(
            entries.map_values(|entry: LedgerEntry| entry_line_text(entry, categories, members)),
            "\n"@,
        ) + "\nGasto hoje: "@ + brl_text(spent.0 as int)
    }
}

pub fn today_section(entries: &[LedgerEntry], spent: Cents, categories: &[Category], members: &[Member]) -> (text: String)
    requires
        entries@.len() <= u64::MAX,
    ensures
        text@ == today_section_text(entries@, spent, categories@, members@),
{
    if entries.len() == 0 {
        return "<b>Hoje</b>\nNenhum lançamento hoje.".to_owned();
    }
    let mut lines: Vec<String> = Vec::new();
    let mut i: usize = 0;
    while i < entries.len()
        invariant
            i <= entries@.len(),
            lines@.map_values(|line: String| line@) == entries@.take(i as int).map_values(
                |entry: LedgerEntry| entry_line_text(entry, categories@, members@),
            ),
        decreases entries@.len() - i,
    {
        let ghost before = lines@;
        lines.push(entry_line(&entries[i], categories, members));
        assert(lines@.map_values(|line: String| line@) =~= before.map_values(|line: String| line@).push(
            entry_line_text(entries@[i as int], categories@, members@),
        ));
        assert(entries@.take(i + 1).map_values(|entry: LedgerEntry| entry_line_text(entry, categories@, members@))
            =~= entries@.take(i as int).map_values(
            |entry: LedgerEntry| entry_line_text(entry, categories@, members@),
        ).push(entry_line_text(entries@[i as int], categories@, members@)));
        i = i + 1;
    }
    assert(entries@.take(i as int) =~= entries@);
    let mut out: Vec<char> = Vec::new();
    push_str(&mut out, "<b>Hoje</b> (");
    push_decimal(&mut out, lines.len() as u64);
    push_str(&mut out, " lançamentos)\n");
    push_joined(&mut out, &lines, "\n");
    push_str(&mut out, "\nGasto hoje: ");
    let amount = format_brl(spent);
    push_str(&mut out, amount.as_str());
    string_of(&out)
}

/// `🔁 05/03 Luz R$ 120,00`.
pub open spec fn upcoming_line_text(item: (Recurrence, Date)) -> Seq<char> {
    "🔁 "@ + day_month_text(item.1) + " "@ + escaped(item.0.description@) + " "@ + brl_text(item.0.amount.0 as int)
}

/// The recurring bills due in the next days.
pub open spec fn upcoming_section_text(upcoming: Seq<(Recurrence, Date)>) -> Seq<char> {
    "<b>Próximos dias</b>\n"@ + joined(upcoming.map_values(|item: (Recurrence, Date)| upcoming_line_text(item)), "\n"@)
}

pub fn upcoming_section(upcoming: &[(Recurrence, Date)]) -> (text: String)
    requires
        forall|i: int| 0 <= i < upcoming@.len() ==> (#[trigger] upcoming@[i]).1.valid(),
    ensures
        text@ == upcoming_section_text(upcoming@),
{
    let mut lines: Vec<String> = Vec::new();
    let mut i: usize = 0;
    while i < upcoming.len()
        invariant
            i <= upcoming@.len(),
            forall|k: int| 0 <= k < upcoming@.len() ==> (#[trigger] upcoming@[k]).1.valid(),
            lines@.map_values(|line: String| line@) == upcoming@.take(i as int).map_values(
                |item: (Recurrence, Date)| upcoming_line_text(item),
            ),
        decreases upcoming@.len() - i,
    {
        let (recurrence, date) = &upcoming[i];
        let mut line: Vec<char> = Vec::new();
        push_str(&mut line, "🔁 ");
        let day = format_day_month(*date);
        push_str(&mut line, day.as_str());
        push_str(&mut line, " ");
        let name = escape(recurrence.description.as_str());
        push_str(&mut line, name.as_str());
        push_str(&mut line, " ");
        let amount = format_brl(recurrence.amount);
        push_str(&mut line, amount.as_str());
        let ghost before = lines@;
        lines.push(string_of(&line));
        assert(lines@.map_values(|line: String| line@) =~= before.map_values(|line: String| line@).push(
            upcoming_line_text(upcoming@[i as int]),
        ));
        assert(upcoming@.take(i + 1).map_values(|item: (Recurrence, Date)| upcoming_line_text(item)) =~= upcoming@.take(
            i as int,
        ).map_values(|item: (Recurrence, Date)| upcoming_line_text(item)).push(upcoming_line_text(upcoming@[i as int])));
        i = i + 1;
    }
    assert(upcoming@.take(i as int) =~= upcoming@);
    let mut out: Vec<char> = Vec::new();
    push_str(&mut out, "<b>Próximos dias</b>\n");
    push_joined(&mut out, &lines, "\n");
    string_of(&out)
}

/// The cycle so far in the daily report: its range and days left, the
/// totals and who spent what.
pub open spec fn cycle_section_text(cycle: Cycle, date: Date, totals: PeriodTotals, members: Seq<Member>) -> Seq<char> {
    let summary = totals.summary;
    "<b>Ciclo "@ + cycle_range_text(cycle) + "</b> (faltam "@ + signed_decimal(days_left_of(cycle, date))
        + " dias)\nEntradas: "@ + brl_text(summary.income.0 as int) + "\nGastos: "@ + brl_text(
        summary.spending.0 as int,
    ) + "\nSobra: "@ + brl_text(summary.saved.0 as int) + rate_suffix_text(summary) + "\n"@ + member_line_text(
        totals.by_member@,
        members,
    )
}

pub fn cycle_section(cycle: Cycle, date: Date, totals: &PeriodTotals, members: &[Member]) -> (text: String)
    requires
        cycle_valid(cycle),
        date.valid(),
    ensures
        text@ == cycle_section_text(cycle, date, *totals, members@),
{
    let summary = &totals.summary;
    let mut out: Vec<char> = Vec::new();
    push_str(&mut out, "<b>Ciclo ");
    let range = cycle_range(cycle);
    push_str(&mut out, range.as_str());
    push_str(&mut out, "</b> (faltam ");
    push_signed_decimal(&mut out, days_left(cycle, date));
    push_str(&mut out, " dias)\nEntradas: ");
    let income = format_brl(summary.income);
    push_str(&mut out, income.as_str());
    push_str(&mut out, "\nGastos: ");
    let spending = format_brl(summary.spending);
    push_str(&mut out, spending.as_str());
    push_str(&mut out, "\nSobra: ");
    let saved = format_brl(summary.saved);
    push_str(&mut out, saved.as_str());
    let rate = rate_suffix(summary);
    push_str(&mut out, rate.as_str());
    push_str(&mut out, "\n");
    let people = member_line(totals, members);
    push_str(&mut out, people.as_str());
    string_of(&out)
}

/// `<b>📊 Resumo de terça, 10/03</b>`, the daily report's title.
pub fn daily_header(date: Date) -> (text: String)
    requires
        date.valid(),
    ensures
        text@ == "<b>📊 Resumo de "@ + weekday_name(chrono_weekday(date)) + ", "@ + day_month_text(date) + "</b>"@,
{
    let mut out: Vec<char> = Vec::new();
    push_str(&mut out, "<b>📊 Resumo de ");
    let day = weekday_date(date);
    push_str(&mut out, day.as_str());
    push_str(&mut out, "</b>");
    string_of(&out)
}

/// The title of the report sent when a cycle closes.
pub fn closing_header(cycle: Cycle) -> (text: String)
    requires
        cycle_valid(cycle),
    ensures
        text@ == "<b>🗓️ Fechamento do ciclo "@ + cycle_range_text(cycle) + "</b>"@,
{
    let mut out: Vec<char> = Vec::new();
    push_str(&mut out, "<b>🗓️ Fechamento do ciclo ");
    let range = cycle_range(cycle);
    push_str(&mut out, range.as_str());
    push_str(&mut out, "</b>");
    string_of(&out)
}

/// `/mes`: the title for the cycle still running.
pub fn month_header(cycle: Cycle, today: Date) -> (text: String)
    requires
        cycle_valid(cycle),
        today.valid(),
    ensures
        text@ == "<b>📅 Ciclo atual "@ + cycle_range_text(cycle) + "</b> (faltam "@ + signed_decimal(
            days_left_of(cycle, today),
        ) + " dias)"@,
{
    let mut out: Vec<char> = Vec::new();
    push_str(&mut out, "<b>📅 Ciclo atual ");
    let range = cycle_range(cycle);
    push_str(&mut out, range.as_str());
    push_str(&mut out, "</b> (faltam ");
    push_signed_decimal(&mut out, days_left(cycle, today));
    push_str(&mut out, " dias)");
    string_of(&out)
}

/// What the daily report is built from.
///
/// Card invoices are not part of it, nor of [`CycleReport`]: no text for
/// them is written anywhere in this crate. The report shows the day, the
/// cycle, balances, budgets near their limit, goals and what is coming.
#[derive(Clone, Debug, PartialEq, Eq)]
pub struct DailyReport {
    pub date: Date,
    pub cycle: Cycle,
    /// The day's totals; its spending is shown under the day's entries.
    pub today: PeriodTotals,
    pub entries_today: Vec<LedgerEntry>,
    pub cycle_to_date: PeriodTotals,
    pub balances: BalanceSheet,
    pub budgets: Vec<BudgetStatus>,
    pub goals: Vec<GoalProgress>,
    /// Recurring bills due in the next days.
    pub upcoming: Vec<(Recurrence, Date)>,
    pub categories: Vec<Category>,
    pub members: Vec<Member>,
}

/// What the closing report of a cycle (and `/mes`) is built from.
#[derive(Clone, Debug, PartialEq, Eq)]
pub struct CycleReport {
    pub cycle: Cycle,
    pub totals: PeriodTotals,
    pub previous: PeriodSummary,
    pub saved_in_pots: Cents,
    pub balances: BalanceSheet,
    pub budgets: Vec<BudgetStatus>,
    pub goals: Vec<GoalProgress>,
    pub categories: Vec<Category>,
    pub members: Vec<Member>,
}

/// An optional section: one text or none.
pub open spec fn optional_section(text: Option<Seq<char>>) -> Seq<Seq<char>> {
    match text {
        Some(shown) => seq![shown],
        None => Seq::empty(),
    }
}

/// The daily report's sections, in order: title, the day, the cycle so
/// far, balances, then budgets from [`WARNING_BP`], goals and upcoming
/// bills when there are any.
pub open spec fn daily_report_sections(r: DailyReport) -> Seq<Seq<char>> {
    seq![
        "<b>📊 Resumo de "@ + weekday_name(chrono_weekday(r.date)) + ", "@ + day_month_text(r.date) + "</b>"@,
        today_section_text(r.entries_today@, r.today.summary.spending, r.categories@, r.members@),
        cycle_section_text(r.cycle, r.date, r.cycle_to_date, r.members@),
        balance_message(r.balances),
    ] + optional_section(budgets_section_text(r.budgets@, WARNING_BP)) + (if r.goals@.len() > 0 {
        seq![goals_message(r.goals@)]
    } else {
        Seq::empty()
    }) + (if r.upcoming@.len() > 0 {
        seq![upcoming_section_text(r.upcoming@)]
    } else {
        Seq::empty()
    })
}

/// The daily report: its sections, a blank line apart.
pub open spec fn daily_report_body(r: DailyReport) -> Seq<char> {
    joined(daily_report_sections(r), "\n\n"@)
}

/// What the daily report's pieces need: real days, and amounts whose
/// shares can be computed.
pub open spec fn daily_report_fits(r: DailyReport) -> bool {
    &&& r.date.valid()
    &&& cycle_valid(r.cycle)
    &&& r.balances.as_of.valid()
    &&& r.entries_today@.len() <= u64::MAX
    &&& forall|i: int| 0 <= i < r.upcoming@.len() ==> (#[trigger] r.upcoming@[i]).1.valid()
}

fn push_section(sections: &mut Vec<String>, text: String)
    ensures
        final(sections)@.map_values(|section: String| section@) == old(sections)@.map_values(
            |section: String| section@,
        ).push(text@),
{
    let ghost before = sections@;
    sections.push(text);
    assert(sections@.map_values(|section: String| section@) =~= before.map_values(|section: String| section@).push(
        text@,
    ));
}

#[verifier::rlimit(30)]
pub fn daily_report_text(report: &DailyReport) -> (text: String)
    requires
        daily_report_fits(*report),
    ensures
        text@ == daily_report_body(*report),
{
    let mut sections: Vec<String> = Vec::new();
    push_section(&mut sections, daily_header(report.date));
    push_section(
        &mut sections,
        today_section(report.entries_today.as_slice(), report.today.summary.spending, report.categories.as_slice(), report.members.as_slice()),
    );
    push_section(&mut sections, cycle_section(report.cycle, report.date, &report.cycle_to_date, report.members.as_slice()));
    push_section(&mut sections, balance_text(&report.balances));
    let ghost base = sections@.map_values(|section: String| section@);
    match budgets_section(report.budgets.as_slice(), WARNING_BP) {
        Some(budgets) => push_section(&mut sections, budgets),
        None => {},
    }
    let ghost with_budgets = sections@.map_values(|section: String| section@);
    assert(with_budgets =~= base + optional_section(budgets_section_text(report.budgets@, WARNING_BP)));
    if report.goals.len() > 0 {
        push_section(&mut sections, goals_text(report.goals.as_slice()));
    }
    let ghost with_goals = sections@.map_values(|section: String| section@);
    assert(with_goals =~= with_budgets + (if report.goals@.len() > 0 {
        seq![goals_message(report.goals@)]
    } else {
        Seq::<Seq<char>>::empty()
    }));
    if report.upcoming.len() > 0 {
        push_section(&mut sections, upcoming_section(report.upcoming.as_slice()));
    }
    assert(sections@.map_values(|section: String| section@) =~= daily_report_sections(*report));
    let mut out: Vec<char> = Vec::new();
    push_joined(&mut out, &sections, "\n\n");
    string_of(&out)
}

/// The closing report's sections after its title: totals against the
/// previous cycle, where the money went, who spent what, balances, then
/// every budget and the goals when there are any.
pub open spec fn cycle_body_sections(r: CycleReport) -> Seq<Seq<char>> {
    seq![
        cycle_totals_text(r.totals.summary, r.previous, r.saved_in_pots),
        breakdown_text(r.totals.summary, r.totals.by_category@, r.categories@),
        member_line_text(r.totals.by_member@, r.members@),
        balance_message(r.balances),
    ] + optional_section(budgets_section_text(r.budgets@, 0)) + (if r.goals@.len() > 0 {
        seq![goals_message(r.goals@)]
    } else {
        Seq::empty()
    })
}

/// What the cycle reports' pieces need.
pub open spec fn cycle_report_fits(r: CycleReport) -> bool {
    &&& cycle_valid(r.cycle)
    &&& r.balances.as_of.valid()
    &&& shares_fit(r.totals.by_category@)
    &&& r.previous.spending.0 > 0 ==> i64::MIN <= (r.totals.summary.spending.0 - r.previous.spending.0) * 100
        <= i64::MAX
}

/// The closing report of a cycle.
pub open spec fn cycle_report_body(r: CycleReport) -> Seq<char> {
    joined(seq!["<b>🗓️ Fechamento do ciclo "@ + cycle_range_text(r.cycle) + "</b>"@] + cycle_body_sections(r), "\n\n"@)
}

/// `/mes`: the same sections for the cycle still running.
pub open spec fn month_report_body(r: CycleReport, today: Date) -> Seq<char> {
    joined(
        seq![
            "<b>📅 Ciclo atual "@ + cycle_range_text(r.cycle) + "</b> (faltam "@ + signed_decimal(
                days_left_of(r.cycle, today),
            ) + " dias)"@,
        ] + cycle_body_sections(r),
        "\n\n"@,
    )
}

fn cycle_body(report: &CycleReport, header: String) -> (text: String)
    requires
        cycle_report_fits(*report),
    ensures
        text@ == joined(seq![header@] + cycle_body_sections(*report), "\n\n"@),
{
    let mut sections: Vec<String> = Vec::new();
    push_section(&mut sections, header);
    let ghost head = sections@.map_values(|section: String| section@);
    assert(head =~= seq![header@]);
    push_section(&mut sections, cycle_totals(&report.totals.summary, &report.previous, report.saved_in_pots));
    push_section(&mut sections, category_breakdown(&report.totals, report.categories.as_slice()));
    push_section(&mut sections, member_line(&report.totals, report.members.as_slice()));
    push_section(&mut sections, balance_text(&report.balances));
    let ghost base = sections@.map_values(|section: String| section@);
    match budgets_section(report.budgets.as_slice(), 0) {
        Some(budgets) => push_section(&mut sections, budgets),
        None => {},
    }
    let ghost with_budgets = sections@.map_values(|section: String| section@);
    assert(with_budgets =~= base + optional_section(budgets_section_text(report.budgets@, 0)));
    if report.goals.len() > 0 {
        push_section(&mut sections, goals_text(report.goals.as_slice()));
    }
    assert(sections@.map_values(|section: String| section@) =~= head + cycle_body_sections(*report));
    let mut out: Vec<char> = Vec::new();
    push_joined(&mut out, &sections, "\n\n");
    string_of(&out)
}

/// The closing report of a cycle.
pub fn cycle_report_text(report: &CycleReport) -> (text: String)
    requires
        cycle_report_fits(*report),
    ensures
        text@ == cycle_report_body(*report),
{
    cycle_body(report, closing_header(report.cycle))
}

/// `/mes`: the report of the cycle still running, with the days left.
pub fn month_report_text(report: &CycleReport, today: Date) -> (text: String)
    requires
        cycle_report_fits(*report),
        today.valid(),
    ensures
        text@ == month_report_body(*report, today),
{
    cycle_body(report, month_header(report.cycle, today))
}

} // verus!

