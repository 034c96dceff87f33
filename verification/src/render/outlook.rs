//! `/projecao`: where the cycle lands, in result and in cash.

use vstd::prelude::*;

use super::catalog::Category;
use super::help::{joined, push_joined};
use super::living_cost::{category_total_lines, category_total_texts, push_span, span_text, truncating_div};
use super::report_text::{Cycle, cycle_valid, last_day_of};
use super::reports::truncated_div;
use crate::calendar::{day_month_text, format_day_month};
use crate::model::Cents;
use crate::money::{brl_text, format_brl};
use crate::numbers::{decimal, push_decimal, push_signed_decimal, signed_decimal};
use crate::text::{push_str, string_of};

verus! {

/// Money of one direction in a cycle: what is recorded and what is still
/// expected.
#[derive(Clone, Copy, Debug, PartialEq, Eq, Structural)]
pub struct Flow {
    pub recorded: Cents,
    pub coming: Cents,
}

/// How the current cycle is expected to end.
#[derive(Clone, Debug, PartialEq, Eq)]
pub struct CycleProjection {
    pub cycle: Cycle,
    pub days_left: i64,
    pub income: Flow,
    pub spending: Flow,
    /// The largest expected spending per category.
    pub by_category: Vec<(Category, Cents)>,
    /// Spendable money today.
    pub available: Cents,
    /// Invoices and bills the accounts still pay in the cycle.
    pub due_from_accounts: Cents,
    /// Recurring bills waiting for a tap.
    pub bills_to_confirm: usize,
}

pub open spec fn flow_total(flow: Flow) -> int {
    flow.recorded.0 + flow.coming.0
}

/// Income minus spending, both whole.
pub open spec fn result_of(projected: CycleProjection) -> int {
    flow_total(projected.income) - flow_total(projected.spending)
}

/// The result over the whole income, in basis points; none without
/// income.
pub open spec fn saved_share_of(projected: CycleProjection) -> Option<int> {
    if flow_total(projected.income) > 0 {
        Some(truncated_div(result_of(projected) * 10_000, flow_total(projected.income)))
    } else {
        None
    }
}

/// Available today, plus income still coming, minus what the accounts
/// still pay.
pub open spec fn cash_at_end_of(projected: CycleProjection) -> int {
    projected.available.0 + projected.income.coming.0 - projected.due_from_accounts.0
}

/// Numbers the reply can hold.
pub open spec fn projection_fits(projected: CycleProjection) -> bool {
    &&& i64::MIN <= flow_total(projected.income) <= i64::MAX
    &&& i64::MIN <= flow_total(projected.spending) <= i64::MAX
    &&& -(i64::MAX / 10_000) <= result_of(projected) <= i64::MAX / 10_000
    &&& i64::MIN <= cash_at_end_of(projected) <= i64::MAX
}

impl Flow {
    pub fn total(&self) -> (total: Cents)
        requires
            i64::MIN <= flow_total(*self) <= i64::MAX,
        ensures
            total.0 == flow_total(*self),
    {
        Cents(self.recorded.0 + self.coming.0)
    }
}

impl CycleProjection {
    /// Income minus spending.
    pub fn result(&self) -> (result: Cents)
        requires
            projection_fits(*self),
        ensures
            result.0 == result_of(*self),
    {
        Cents(self.income.total().0 - self.spending.total().0)
    }

    /// The result over the income, in basis points.
    pub fn saved_bp(&self) -> (share: Option<i64>)
        requires
            projection_fits(*self),
        ensures
            match share {
                Some(bp) => saved_share_of(*self) == Some(bp as int),
                None => saved_share_of(*self) is None,
            },
    {
        let income = self.income.total().0;
        if income <= 0 {
            return None;
        }
        Some(truncating_div(self.result().0 * 10_000, income))
    }

    /// The cash left on the cycle's last day.
    pub fn cash_at_end(&self) -> (cash: Cents)
        requires
            projection_fits(*self),
        ensures
            cash.0 == cash_at_end_of(*self),
    {
        Cents(((self.available.0 as i128) + (self.income.coming.0 as i128) - (self.due_from_accounts.0 as i128)) as i64)
    }
}

/// `R$ 12.000,00 (R$ 8.000,00 recebidas · R$ 4.000,00 a receber)`; just the
/// total when nothing more is expected.
pub open spec fn flow_line_text(flow: Flow, done: Seq<char>, coming: Seq<char>) -> Seq<char> {
    if flow.coming.0 <= 0 {
        brl_text(flow_total(flow))
    } else {
        brl_text(flow_total(flow)) + " ("@ + brl_text(flow.recorded.0 as int) + " "@ + done + " · "@ + brl_text(
            flow.coming.0 as int,
        ) + " "@ + coming + ")"@
    }
}

/// ` (54% das entradas)`, only for a positive result: a negative one
/// would read as "-3% das entradas", which says nothing.
pub open spec fn share_text(projected: CycleProjection) -> Seq<char> {
    match saved_share_of(projected) {
        Some(bp) => if result_of(projected) > 0 {
            " ("@ + signed_decimal(truncated_div(bp, 100)) + "% das entradas)"@
        } else {
            Seq::empty()
        },
        None => Seq::empty(),
    }
}

/// Income, spending and what is left (`Sobra prevista`) or missing
/// (`Falta`), as a positive amount.
pub open spec fn result_head_text(projected: CycleProjection) -> Seq<char> {
    let result = result_of(projected);
    let label = if result < 0 { "Falta"@ } else { "Sobra prevista"@ };
    let amount = if result < 0 { -result } else { result };
    "<b>Resultado</b>\nEntradas: "@ + flow_line_text(projected.income, "recebidas"@, "a receber"@) + "\nGastos: "@
        + flow_line_text(projected.spending, "lançados"@, "a lançar"@) + "\n<b>"@ + label + ": "@ + brl_text(amount)
        + "</b>"@
}

pub open spec fn result_lines_text(projected: CycleProjection) -> Seq<char> {
    result_head_text(projected) + share_text(projected)
}

/// A cycle that does not end with a surplus shows no share of income.
pub proof fn lemma_no_share_without_surplus(projected: CycleProjection)
    requires
        result_of(projected) <= 0,
    ensures
        result_lines_text(projected) == result_head_text(projected),
{
    assert(share_text(projected) =~= Seq::<char>::empty());
    assert(result_head_text(projected) + Seq::<char>::empty() =~= result_head_text(projected));
}

pub open spec fn cash_lines_text(projected: CycleProjection) -> Seq<char> {
    "<b>Caixa até "@ + day_month_text(last_day_of(projected.cycle)) + "</b>\nDisponível hoje: "@ + brl_text(
        projected.available.0 as int,
    ) + "\n+ a receber: "@ + brl_text(projected.income.coming.0 as int) + "\n− faturas e contas a pagar: "@
        + brl_text(projected.due_from_accounts.0 as int) + "\n<b>= no fim do ciclo: "@ + brl_text(
        cash_at_end_of(projected),
    ) + "</b>"@
}

/// The title, the result, the cash, then the biggest categories and the
/// bills to confirm when there are any.
pub open spec fn projection_sections(projected: CycleProjection) -> Seq<Seq<char>> {
    let title = "<b>🔮 Projeção do ciclo</b> · "@ + span_text(projected.cycle) + " (faltam "@ + signed_decimal(
        projected.days_left as int,
    ) + " dias)"@;
    seq![title, result_lines_text(projected), cash_lines_text(projected)] + (if projected.by_category@.len() > 0 {
        seq!["<b>Maiores gastos previstos</b>\n"@ + joined(category_total_texts(projected.by_category@), "\n"@)]
    } else {
        Seq::empty()
    }) + (if projected.bills_to_confirm > 0 {
        seq!["⚠️ "@ + decimal(projected.bills_to_confirm as nat) + " recorrente(s) esperando confirmação; veja /recorrentes."@]
    } else {
        Seq::empty()
    })
}

/// `/projecao`: the sections, a blank line apart.
pub open spec fn projection_message(projected: CycleProjection) -> Seq<char> {
    joined(projection_sections(projected), "\n\n"@)
}

fn flow_line(flow: Flow, done: &str, coming: &str) -> (text: String)
    requires
        i64::MIN <= flow_total(flow) <= i64::MAX,
    ensures
        text@ == flow_line_text(flow, done@, coming@),
{
    let mut out: Vec<char> = Vec::new();
    let total = format_brl(flow.total());
    push_str(&mut out, total.as_str());
    if flow.coming.0 > 0 {
        push_str(&mut out, " (");
        let recorded = format_brl(flow.recorded);
        push_str(&mut out, recorded.as_str());
        push_str(&mut out, " ");
        push_str(&mut out, done);
        push_str(&mut out, " · ");
        let still = format_brl(flow.coming);
        push_str(&mut out, still.as_str());
        push_str(&mut out, " ");
        push_str(&mut out, coming);
        push_str(&mut out, ")");
    }
    string_of(&out)
}

fn result_lines(projected: &CycleProjection) -> (text: String)
    requires
        projection_fits(*projected),
    ensures
        text@ == result_lines_text(*projected),
{
    let result = projected.result();
    let mut out: Vec<char> = Vec::new();
    push_str(&mut out, "<b>Resultado</b>\nEntradas: ");
    let income = flow_line(projected.income, "recebidas", "a receber");
    push_str(&mut out, income.as_str());
    push_str(&mut out, "\nGastos: ");
    let spending = flow_line(projected.spending, "lançados", "a lançar");
    push_str(&mut out, spending.as_str());
    push_str(&mut out, "\n<b>");
    if result.0 < 0 {
        push_str(&mut out, "Falta");
    } else {
        push_str(&mut out, "Sobra prevista");
    }
    push_str(&mut out, ": ");
    let amount = if result.0 < 0 { Cents(-result.0) } else { result };
    let shown = format_brl(amount);
    push_str(&mut out, shown.as_str());
    push_str(&mut out, "</b>");
    match projected.saved_bp() {
        Some(bp) => {
            if result.0 > 0 {
                push_str(&mut out, " (");
                push_signed_decimal(&mut out, truncating_div(bp, 100));
                push_str(&mut out, "% das entradas)");
            }
        },
        None => {},
    }
    string_of(&out)
}

fn cash_lines(projected: &CycleProjection) -> (text: String)
    requires
        projection_fits(*projected),
        cycle_valid(projected.cycle),
    ensures
        text@ == cash_lines_text(*projected),
{
    let mut out: Vec<char> = Vec::new();
    push_str(&mut out, "<b>Caixa até ");
    let last = format_day_month(projected.cycle.last_day());
    push_str(&mut out, last.as_str());
    push_str(&mut out, "</b>\nDisponível hoje: ");
    let available = format_brl(projected.available);
    push_str(&mut out, available.as_str());
    push_str(&mut out, "\n+ a receber: ");
    let coming = format_brl(projected.income.coming);
    push_str(&mut out, coming.as_str());
    push_str(&mut out, "\n− faturas e contas a pagar: ");
    let due = format_brl(projected.due_from_accounts);
    push_str(&mut out, due.as_str());
    push_str(&mut out, "\n<b>= no fim do ciclo: ");
    let cash = format_brl(projected.cash_at_end());
    push_str(&mut out, cash.as_str());
    push_str(&mut out, "</b>");
    string_of(&out)
}

/// `/projecao`: the cycle's result and the cash left at its last day.
pub fn projection_text(projected: &CycleProjection) -> (text: String)
    requires
        projection_fits(*projected),
        cycle_valid(projected.cycle),
    ensures
        text@ == projection_message(*projected),
{
    let mut title: Vec<char> = Vec::new();
    push_str(&mut title, "<b>🔮 Projeção do ciclo</b> · ");
    push_span(&mut title, projected.cycle);
    push_str(&mut title, " (faltam ");
    push_signed_decimal(&mut title, projected.days_left);
    push_str(&mut title, " dias)");
    let mut sections: Vec<String> = Vec::new();
    sections.push(string_of(&title));
    sections.push(result_lines(projected));
    sections.push(cash_lines(projected));
    if projected.by_category.len() > 0 {
        let mut biggest: Vec<char> = Vec::new();
        push_str(&mut biggest, "<b>Maiores gastos previstos</b>\n");
        let lines = category_total_lines(&projected.by_category);
        push_joined(&mut biggest, &lines, "\n");
        sections.push(string_of(&biggest));
    }
    if projected.bills_to_confirm > 0 {
        let mut bills: Vec<char> = Vec::new();
        push_str(&mut bills, "⚠️ ");
        push_decimal(&mut bills, projected.bills_to_confirm as u64);
        push_str(&mut bills, " recorrente(s) esperando confirmação; veja /recorrentes.");
        sections.push(string_of(&bills));
    }
    assert(sections@.map_values(|section: String| section@) =~= projection_sections(*projected));
    let mut out: Vec<char> = Vec::new();
    push_joined(&mut out, &sections, "\n\n");
    string_of(&out)
}

} // verus!
