//! `/essenciais` and `/custodevida`: which categories make up the basic
//! cost of living, and what it adds up to.

use vstd::prelude::*;

use super::catalog::{Category, category_label, category_label_text};
use super::category_statement::button_rows;
use super::help::{joined, push_joined};
use super::keyboards::{chunked, row_view, rows_view};
use super::report_text::{Cycle, cycle_valid, last_day_of};
use super::reports::truncated_div;
use crate::calendar::{day_month_text, day_month_year_text, format_day_month, format_day_month_year};
use crate::callback_data::{id_button_text, toggle_essential_button};
use crate::gateway::{Button, Keyboard};
use crate::model::{CategoryKind, Cents};
use crate::money::{brl_text, format_brl};
use crate::numbers::{decimal, push_decimal, push_signed_decimal, signed_decimal};
use crate::text::{push_str, string_of};

verus! {

pub const ESSENTIALS_HTML: &'static str = "<b>🏠 Categorias essenciais</b>\nToque para marcar ou desmarcar. As marcadas com ✅ formam o custo de vida básico (/custodevida).";

pub const NO_EXPENSE_CATEGORIES: &'static str = "Nenhuma categoria de gasto ainda. Crie com /novacategoria.";

/// ✅ essential, ⬜ not.
pub open spec fn mark_text(essential: bool) -> Seq<char> {
    if essential { "✅"@ } else { "⬜"@ }
}

/// One toggle per expense category, in order: its mark and label, and the
/// payload that flips it.
pub open spec fn essential_toggles(categories: Seq<Category>) -> Seq<(Seq<char>, Seq<char>)>
    decreases categories.len(),
{
    if categories.len() == 0 {
        Seq::empty()
    } else {
        let last = categories.last();
        essential_toggles(categories.drop_last()) + if last.kind == CategoryKind::Expense {
            seq![(mark_text(last.essential) + " "@ + category_label_text(last), id_button_text(seq!['e', 't'], last.id.0))]
        } else {
            Seq::empty()
        }
    }
}

/// Expense categories as toggles, two per row; without any, a pointer to
/// `/novacategoria` and no keyboard.
pub fn essentials_view(categories: &[Category]) -> (view: (String, Option<Keyboard>))
    ensures
        essential_toggles(categories@).len() == 0 ==> view.0@ == NO_EXPENSE_CATEGORIES@ && view.1 is None,
        essential_toggles(categories@).len() > 0 ==> view.0@ == ESSENTIALS_HTML@ && (view.1 matches Some(keyboard)
            && rows_view(keyboard.rows@) == chunked(essential_toggles(categories@), 2)),
{
    let mut buttons: Vec<Button> = Vec::new();
    let mut i: usize = 0;
    while i < categories.len()
        invariant
            i <= categories@.len(),
            row_view(buttons@) == essential_toggles(categories@.take(i as int)),
        decreases categories@.len() - i,
    {
        let category = &categories[i];
        assert(categories@.take(i + 1).drop_last() =~= categories@.take(i as int));
        assert(categories@.take(i + 1).last() == *category);
        let ghost before = buttons@;
        if category.kind == CategoryKind::Expense {
            let mut label: Vec<char> = Vec::new();
            if category.essential {
                push_str(&mut label, "✅");
            } else {
                push_str(&mut label, "⬜");
            }
            push_str(&mut label, " ");
            let name = category_label(category);
            push_str(&mut label, name.as_str());
            buttons.push(Button { label: string_of(&label), data: toggle_essential_button(category.id) });
            assert(row_view(buttons@) =~= row_view(before).push(
                (mark_text(category.essential) + " "@ + category_label_text(*category), id_button_text(seq!['e', 't'], category.id.0)),
            ));
        }
        i = i + 1;
    }
    assert(categories@.take(i as int) =~= categories@);
    if buttons.len() == 0 {
        return (NO_EXPENSE_CATEGORIES.to_owned(), None);
    }
    (ESSENTIALS_HTML.to_owned(), Some(Keyboard { rows: button_rows(&buttons, 2) }))
}

/// The toast after a toggle, by the category's new mark.
pub fn toggled_toast(essential: bool) -> (toast: &'static str)
    ensures
        toast@ == (if essential { "Marcada como essencial ✅"@ } else { "Não é mais essencial"@ }),
{
    if essential { "Marcada como essencial ✅" } else { "Não é mais essencial" }
}

/// Months of basic cost the emergency reserve should cover.
pub const RESERVE_MONTHS: u64 = 6;

/// Guideline for needs in the 50/30/20 budget: half of the income.
pub const NEEDS_GUIDELINE_PERCENT: u64 = 50;

/// The basic cost of living of one cycle.
#[derive(Clone, Debug, PartialEq, Eq)]
pub struct LivingCost {
    pub cycle: Cycle,
    /// Spent so far in essential categories.
    pub spent: Cents,
    /// Installments and recurring bills still due in the cycle.
    pub still_coming: Cents,
    pub by_category: Vec<(Category, Cents)>,
    pub recent_average: Option<Cents>,
    pub averaged_cycles: usize,
    pub expected_income: Cents,
    /// Saved in goal pots.
    pub reserved: Cents,
    /// [`RESERVE_MONTHS`] times the monthly cost the reserve is measured by.
    pub reserve_target: Cents,
    /// What is reserved, in tenths of that monthly cost; none when there
    /// is no cost to measure by.
    pub reserve_tenths_of_month: Option<i64>,
}

/// Spent plus still coming.
pub open spec fn projected_of(cost: LivingCost) -> int {
    cost.spent.0 + cost.still_coming.0
}

/// The projected cost over the expected income, in basis points; none
/// without income.
pub open spec fn income_share_of(cost: LivingCost) -> Option<int> {
    if cost.expected_income.0 > 0 {
        Some(truncated_div(projected_of(cost) * 10_000, cost.expected_income.0 as int))
    } else {
        None
    }
}

/// Numbers the reply can hold: the projection fits an amount and its
/// share of the income can be computed.
pub open spec fn cost_fits(cost: LivingCost) -> bool {
    -(i64::MAX / 10_000) <= projected_of(cost) <= i64::MAX / 10_000
}

impl LivingCost {
    /// Spent plus still coming.
    pub fn projected(&self) -> (total: Cents)
        requires
            cost_fits(*self),
        ensures
            total.0 == projected_of(*self),
    {
        Cents(self.spent.0 + self.still_coming.0)
    }

    /// The projected cost over the expected income, in basis points.
    pub fn income_share_bp(&self) -> (share: Option<i64>)
        requires
            cost_fits(*self),
        ensures
            match share {
                Some(bp) => income_share_of(*self) == Some(bp as int),
                None => income_share_of(*self) is None,
            },
    {
        if self.expected_income.0 <= 0 {
            return None;
        }
        let scaled: i64 = self.projected().0 * 10_000;
        Some(truncating_div(scaled, self.expected_income.0))
    }
}

/// `a / b` as Rust divides, for a positive `b`.
pub fn truncating_div(a: i64, b: i64) -> (q: i64)
    requires
        b > 0,
    ensures
        q == truncated_div(a as int, b as int),
{
    if a >= 0 {
        proof {
            assert(a / b <= a) by (nonlinear_arith)
                requires a >= 0, b > 0;
        }
        a / b
    } else {
        let magnitude: i128 = -(a as i128);
        proof {
            assert(magnitude / (b as i128) <= magnitude) by (nonlinear_arith)
                requires magnitude >= 0, b > 0;
            assert(magnitude / (b as i128) >= 0) by (nonlinear_arith)
                requires magnitude >= 0, b > 0;
        }
        let q = magnitude / (b as i128);
        if q == 0 { 0 } else { -((q - 1) as i64) - 1 }
    }
}

/// What is left after rounding `a / b` toward zero.
pub open spec fn truncated_rem(a: int, b: int) -> int {
    a - b * truncated_div(a, b)
}

/// `05/09 → 04/10/2026`.
pub open spec fn span_text(cycle: Cycle) -> Seq<char> {
    day_month_text(cycle.start) + " → "@ + day_month_year_text(last_day_of(cycle))
}

pub fn push_span(out: &mut Vec<char>, cycle: Cycle)
    requires
        cycle_valid(cycle),
    ensures
        final(out)@ == old(out)@ + span_text(cycle),
{
    let first = format_day_month(cycle.start);
    push_str(out, first.as_str());
    push_str(out, " → ");
    let last = format_day_month_year(cycle.last_day());
    push_str(out, last.as_str());
}

/// `casa: R$ 4.050,00`, one per category.
pub open spec fn category_total_texts(items: Seq<(Category, Cents)>) -> Seq<Seq<char>> {
    items.map_values(|item: (Category, Cents)| category_label_text(item.0) + ": "@ + brl_text(item.1.0 as int))
}

pub fn category_total_lines(items: &Vec<(Category, Cents)>) -> (lines: Vec<String>)
    ensures
        lines@.map_values(|line: String| line@) == category_total_texts(items@),
{
    let mut lines: Vec<String> = Vec::new();
    let mut i: usize = 0;
    while i < items.len()
        invariant
            i <= items@.len(),
            lines@.map_values(|line: String| line@) == category_total_texts(items@.take(i as int)),
        decreases items@.len() - i,
    {
        let mut line: Vec<char> = Vec::new();
        let label = category_label(&items[i].0);
        push_str(&mut line, label.as_str());
        push_str(&mut line, ": ");
        let amount = format_brl(items[i].1);
        push_str(&mut line, amount.as_str());
        let ghost before = lines@;
        lines.push(string_of(&line));
        assert(lines@.map_values(|line: String| line@) =~= before.map_values(|line: String| line@).push(
            category_total_texts(items@)[i as int],
        ));
        assert(category_total_texts(items@.take(i + 1)) =~= category_total_texts(items@.take(i as int)).push(
            category_total_texts(items@)[i as int],
        ));
        i = i + 1;
    }
    assert(items@.take(i as int) =~= items@);
    lines
}

pub open spec fn average_line_text(cost: LivingCost) -> Seq<char> {
    match cost.recent_average {
        Some(average) => "Média dos últimos "@ + decimal(cost.averaged_cycles as nat) + " ciclos: "@ + brl_text(
            average.0 as int,
        ),
        None => "Média: aparece depois do primeiro ciclo completo."@,
    }
}

/// Spent, still coming, projected, the average and the share of income.
pub open spec fn cycle_line_texts(cost: LivingCost) -> Seq<Seq<char>> {
    seq!["Gasto até agora: "@ + brl_text(cost.spent.0 as int)] + (if cost.still_coming.0 > 0 {
        seq!["Ainda vem no ciclo: "@ + brl_text(cost.still_coming.0 as int) + " (parcelas e contas recorrentes)"@]
    } else {
        Seq::empty()
    }) + seq!["<b>Previsto no ciclo: "@ + brl_text(projected_of(cost)) + "</b>"@, average_line_text(cost)]
        + match income_share_of(cost) {
        Some(share) => seq![
            "Renda do ciclo: "@ + brl_text(cost.expected_income.0 as int) + " → essencial = "@ + signed_decimal(
                truncated_div(share, 100),
            ) + "% (referência: até "@ + decimal(NEEDS_GUIDELINE_PERCENT as nat) + "%)"@,
        ],
        None => Seq::empty(),
    }
}

/// The reserve to aim at and, when it can be measured, how many months
/// the goal pots cover.
pub open spec fn reserve_text(cost: LivingCost) -> Seq<char> {
    "<b>Reserva de emergência</b> ("@ + decimal(RESERVE_MONTHS as nat) + " meses): "@ + brl_text(
        cost.reserve_target.0 as int,
    ) + match cost.reserve_tenths_of_month {
        Some(tenths) => "\nGuardado em metas: "@ + brl_text(cost.reserved.0 as int) + " → "@ + signed_decimal(
            truncated_div(tenths as int, 10),
        ) + ","@ + signed_decimal(truncated_rem(tenths as int, 10)) + " meses"@,
        None => Seq::empty(),
    }
}

/// `/custodevida`: the cycle's lines, the categories and the reserve; a
/// pointer to `/essenciais` while nothing counts.
pub open spec fn living_cost_message(cost: LivingCost) -> Seq<char> {
    let title = "<b>🏠 Custo de vida básico</b> · "@ + span_text(cost.cycle);
    if cost.by_category@.len() == 0 && cost.recent_average is None {
        title + "\nNada essencial nesse ciclo ainda. Marque as categorias em /essenciais."@
    } else {
        title + "\n"@ + joined(cycle_line_texts(cost), "\n"@) + "\n\n<b>Por categoria</b>\n"@ + joined(
            category_total_texts(cost.by_category@),
            "\n"@,
        ) + "\n\n"@ + reserve_text(cost)
    }
}

fn cycle_lines(cost: &LivingCost) -> (lines: Vec<String>)
    requires
        cost_fits(*cost),
    ensures
        lines@.map_values(|line: String| line@) == cycle_line_texts(*cost),
{
    let mut lines: Vec<String> = Vec::new();
    let mut spent: Vec<char> = Vec::new();
    push_str(&mut spent, "Gasto até agora: ");
    let amount = format_brl(cost.spent);
    push_str(&mut spent, amount.as_str());
    lines.push(string_of(&spent));
    if cost.still_coming.0 > 0 {
        let mut coming: Vec<char> = Vec::new();
        push_str(&mut coming, "Ainda vem no ciclo: ");
        let amount = format_brl(cost.still_coming);
        push_str(&mut coming, amount.as_str());
        push_str(&mut coming, " (parcelas e contas recorrentes)");
        lines.push(string_of(&coming));
    }
    let mut projected: Vec<char> = Vec::new();
    push_str(&mut projected, "<b>Previsto no ciclo: ");
    let amount = format_brl(cost.projected());
    push_str(&mut projected, amount.as_str());
    push_str(&mut projected, "</b>");
    lines.push(string_of(&projected));
    let mut average: Vec<char> = Vec::new();
    match cost.recent_average {
        Some(value) => {
            push_str(&mut average, "Média dos últimos ");
            push_decimal(&mut average, cost.averaged_cycles as u64);
            push_str(&mut average, " ciclos: ");
            let amount = format_brl(value);
            push_str(&mut average, amount.as_str());
        },
        None => push_str(&mut average, "Média: aparece depois do primeiro ciclo completo."),
    }
    lines.push(string_of(&average));
    match cost.income_share_bp() {
        Some(share) => {
            let mut income: Vec<char> = Vec::new();
            push_str(&mut income, "Renda do ciclo: ");
            let amount = format_brl(cost.expected_income);
            push_str(&mut income, amount.as_str());
            push_str(&mut income, " → essencial = ");
            push_signed_decimal(&mut income, truncating_div(share, 100));
            push_str(&mut income, "% (referência: até ");
            push_decimal(&mut income, NEEDS_GUIDELINE_PERCENT);
            push_str(&mut income, "%)");
            lines.push(string_of(&income));
        },
        None => {},
    }
    assert(lines@.map_values(|line: String| line@) =~= cycle_line_texts(*cost));
    lines
}

/// `5,0`: whole months, a comma and the tenths, as Rust divides.
fn push_tenths(out: &mut Vec<char>, tenths: i64)
    ensures
        final(out)@ == old(out)@ + signed_decimal(truncated_div(tenths as int, 10)) + ","@ + signed_decimal(
            truncated_rem(tenths as int, 10),
        ),
{
    let whole = truncating_div(tenths, 10);
    let rest: i64 = if tenths >= 0 {
        tenths % 10
    } else {
        let magnitude: i128 = -(tenths as i128);
        -((magnitude % 10) as i64)
    };
    assert(rest == truncated_rem(tenths as int, 10));
    push_signed_decimal(out, whole);
    push_str(out, ",");
    push_signed_decimal(out, rest);
}

fn reserve_lines(cost: &LivingCost) -> (text: String)
    ensures
        text@ == reserve_text(*cost),
{
    let mut out: Vec<char> = Vec::new();
    push_str(&mut out, "<b>Reserva de emergência</b> (");
    push_decimal(&mut out, RESERVE_MONTHS);
    push_str(&mut out, " meses): ");
    let target = format_brl(cost.reserve_target);
    push_str(&mut out, target.as_str());
    match cost.reserve_tenths_of_month {
        Some(tenths) => {
            push_str(&mut out, "\nGuardado em metas: ");
            let reserved = format_brl(cost.reserved);
            push_str(&mut out, reserved.as_str());
            push_str(&mut out, " → ");
            push_tenths(&mut out, tenths);
            push_str(&mut out, " meses");
        },
        None => {},
    }
    string_of(&out)
}

/// `/custodevida`: the cost of living of one cycle.
pub fn living_cost_text(cost: &LivingCost) -> (text: String)
    requires
        cycle_valid(cost.cycle),
        cost_fits(*cost),
    ensures
        text@ == living_cost_message(*cost),
{
    let mut out: Vec<char> = Vec::new();
    push_str(&mut out, "<b>🏠 Custo de vida básico</b> · ");
    push_span(&mut out, cost.cycle);
    if cost.by_category.len() == 0 && cost.recent_average.is_none() {
        push_str(&mut out, "\nNada essencial nesse ciclo ainda. Marque as categorias em /essenciais.");
        return string_of(&out);
    }
    push_str(&mut out, "\n");
    let lines = cycle_lines(cost);
    push_joined(&mut out, &lines, "\n");
    push_str(&mut out, "\n\n<b>Por categoria</b>\n");
    let categories = category_total_lines(&cost.by_category);
    push_joined(&mut out, &categories, "\n");
    push_str(&mut out, "\n\n");
    let reserve = reserve_lines(cost);
    push_str(&mut out, reserve.as_str());
    string_of(&out)
}

} // verus!
