//! `/parcelas`: card purchases and financings paid in installments.

use vstd::prelude::*;

use super::catalog::{Category, category_label, category_label_text, category_with};
use super::help::{joined, push_joined};
use super::reports::{bar_text, progress_bar, truncated_div};
use crate::calendar::{Date, format_month_year, month_year_text};
use crate::html::{escape, escaped};
use crate::model::{CategoryId, Cents};
use crate::money::{brl_text, format_brl};
use crate::numbers::{decimal, push_decimal, push_signed_decimal, signed_decimal};
use crate::text::{push_str, string_of};

verus! {

/// Where the installments are paid from.
#[derive(Clone, Debug, PartialEq, Eq)]
pub enum PlanSource {
    /// A credit card, by name.
    Card(String),
    /// An account paying a financing, by name.
    Account(String),
}

/// How far one installment plan is.
#[derive(Clone, Debug, PartialEq, Eq)]
pub struct InstallmentProgress {
    pub description: String,
    pub source: PlanSource,
    pub category_id: CategoryId,
    pub count: u32,
    pub paid_count: u32,
    pub total: Cents,
    pub paid: Cents,
    pub installment: Cents,
    pub last_due: Date,
}

/// What is still to pay.
pub open spec fn remaining_of(plan: InstallmentProgress) -> int {
    plan.total.0 - plan.paid.0
}

/// Paid over total in basis points, rounded toward zero; a plan without a
/// positive total counts as nothing paid.
pub open spec fn paid_bp_of(plan: InstallmentProgress) -> int {
    if plan.total.0 <= 0 {
        0
    } else {
        truncated_div(plan.paid.0 * 10_000, plan.total.0 as int)
    }
}

/// A plan whose numbers the reply can hold: what is left fits an amount,
/// and the share paid can be computed.
pub open spec fn plan_fits(plan: InstallmentProgress) -> bool {
    &&& i64::MIN <= remaining_of(plan) <= i64::MAX
    &&& -(i64::MAX / 10_000) <= plan.paid.0 <= i64::MAX / 10_000
}

impl InstallmentProgress {
    /// What is still to pay.
    pub fn remaining(&self) -> (left: Cents)
        requires
            plan_fits(*self),
        ensures
            left.0 == remaining_of(*self),
    {
        Cents(self.total.0 - self.paid.0)
    }

    /// Paid over total in basis points.
    pub fn paid_bp(&self) -> (bp: i64)
        requires
            plan_fits(*self),
        ensures
            bp == paid_bp_of(*self),
            -10_000 * (i64::MAX / 10_000) <= bp <= 10_000 * (i64::MAX / 10_000),
    {
        if self.total.0 <= 0 {
            return 0;
        }
        let scaled: i64 = self.paid.0 * 10_000;
        let total = self.total.0;
        if scaled >= 0 {
            proof {
                assert(scaled / total <= scaled) by (nonlinear_arith)
                    requires scaled >= 0, total > 0;
            }
            scaled / total
        } else {
            let magnitude: i64 = -scaled;
            proof {
                assert(magnitude / total <= magnitude) by (nonlinear_arith)
                    requires magnitude >= 0, total > 0;
            }
            -(magnitude / total)
        }
    }
}

/// The sum of what is left over `plans`.
pub open spec fn left_sum(plans: Seq<InstallmentProgress>) -> int
    decreases plans.len(),
{
    if plans.len() == 0 {
        0
    } else {
        left_sum(plans.drop_last()) + remaining_of(plans.last())
    }
}

/// The sum of the monthly installments of `plans`.
pub open spec fn monthly_sum(plans: Seq<InstallmentProgress>) -> int
    decreases plans.len(),
{
    if plans.len() == 0 {
        0
    } else {
        monthly_sum(plans.drop_last()) + plans.last().installment.0
    }
}

pub open spec fn source_text(source: PlanSource) -> Seq<char> {
    match source {
        PlanSource::Card(name) => "💳 "@ + escaped(name@),
        PlanSource::Account(name) => "🏦 "@ + escaped(name@),
    }
}

/// `<b>Enoxaparina</b> · 💳 Itau Black · 💊 saúde`.
pub open spec fn plan_title_text(plan: InstallmentProgress, categories: Seq<Category>) -> Seq<char> {
    let title = if plan.description@.len() == 0 {
        "Compra parcelada"@
    } else {
        escaped(plan.description@)
    };
    let category = match category_with(categories, plan.category_id) {
        Some(found) => " · "@ + category_label_text(found),
        None => Seq::empty(),
    };
    "<b>"@ + title + "</b> · "@ + source_text(plan.source) + category
}

/// Four lines per plan, in the style of `/metas`.
pub open spec fn plan_block_text(plan: InstallmentProgress, categories: Seq<Category>) -> Seq<char> {
    let bp = paid_bp_of(plan);
    plan_title_text(plan, categories) + "\n"@ + brl_text(plan.paid.0 as int) + " de "@ + brl_text(plan.total.0 as int)
        + " ("@ + signed_decimal(truncated_div(bp, 100)) + "%) · parcela "@ + decimal(plan.paid_count as nat) + " de "@
        + decimal(plan.count as nat) + "\n"@ + bar_text(bp as i64) + " faltam "@ + brl_text(remaining_of(plan))
        + "\n"@ + brl_text(plan.installment.0 as int) + "/mês até "@ + month_year_text(plan.last_due)
}

/// `/parcelas`: what is left in total and per month, then one block per
/// plan.
pub open spec fn installments_message(plans: Seq<InstallmentProgress>, categories: Seq<Category>) -> Seq<char> {
    if plans.len() == 0 {
        "<b>💳 Parcelamentos</b>\nNenhum parcelamento em andamento."@
    } else {
        "<b>💳 Parcelamentos</b>\nFalta pagar: "@ + brl_text(left_sum(plans)) + " · por mês: "@ + brl_text(
            monthly_sum(plans),
        ) + "\n\n"@ + joined(plans.map_values(|plan: InstallmentProgress| plan_block_text(plan, categories)), "\n\n"@)
    }
}

fn source_label(source: &PlanSource) -> (text: String)
    ensures
        text@ == source_text(*source),
{
    let mut out: Vec<char> = Vec::new();
    match source {
        PlanSource::Card(name) => {
            push_str(&mut out, "💳 ");
            let shown = escape(name.as_str());
            push_str(&mut out, shown.as_str());
        },
        PlanSource::Account(name) => {
            push_str(&mut out, "🏦 ");
            let shown = escape(name.as_str());
            push_str(&mut out, shown.as_str());
        },
    }
    string_of(&out)
}

/// The first category with `id`.
fn find_category(categories: &[Category], id: CategoryId) -> (found: Option<&Category>)
    ensures
        match found {
            Some(category) => category_with(categories@, id) == Some(*category),
            None => category_with(categories@, id) is None,
        },
{
    let mut i: usize = 0;
    assert(categories@.skip(0) =~= categories@);
    while i < categories.len()
        invariant
            i <= categories@.len(),
            category_with(categories@, id) == category_with(categories@.skip(i as int), id),
        decreases categories@.len() - i,
    {
        assert(categories@.skip(i as int)[0] == categories@[i as int]);
        if categories[i].id == id {
            return Some(&categories[i]);
        }
        assert(categories@.skip(i as int).drop_first() =~= categories@.skip(i + 1));
        i = i + 1;
    }
    None
}

fn plan_title(plan: &InstallmentProgress, categories: &[Category]) -> (text: String)
    ensures
        text@ == plan_title_text(*plan, categories@),
{
    let mut out: Vec<char> = Vec::new();
    push_str(&mut out, "<b>");
    if plan.description.as_str().unicode_len() == 0 {
        push_str(&mut out, "Compra parcelada");
    } else {
        let shown = escape(plan.description.as_str());
        push_str(&mut out, shown.as_str());
    }
    push_str(&mut out, "</b> · ");
    let source = source_label(&plan.source);
    push_str(&mut out, source.as_str());
    match find_category(categories, plan.category_id) {
        Some(category) => {
            push_str(&mut out, " · ");
            let label = category_label(category);
            push_str(&mut out, label.as_str());
        },
        None => {},
    }
    string_of(&out)
}

fn plan_block(plan: &InstallmentProgress, categories: &[Category]) -> (text: String)
    requires
        plan_fits(*plan),
        plan.last_due.valid(),
    ensures
        text@ == plan_block_text(*plan, categories@),
{
    let bp = plan.paid_bp();
    let percent: i64 = if bp >= 0 {
        bp / 100
    } else {
        -((-bp) / 100)
    };
    let mut out: Vec<char> = Vec::new();
    let title = plan_title(plan, categories);
    push_str(&mut out, title.as_str());
    push_str(&mut out, "\n");
    let paid = format_brl(plan.paid);
    push_str(&mut out, paid.as_str());
    push_str(&mut out, " de ");
    let total = format_brl(plan.total);
    push_str(&mut out, total.as_str());
    push_str(&mut out, " (");
    push_signed_decimal(&mut out, percent);
    push_str(&mut out, "%) · parcela ");
    push_decimal(&mut out, plan.paid_count as u64);
    push_str(&mut out, " de ");
    push_decimal(&mut out, plan.count as u64);
    push_str(&mut out, "\n");
    let bar = progress_bar(bp);
    push_str(&mut out, bar.as_str());
    push_str(&mut out, " faltam ");
    let left = format_brl(plan.remaining());
    push_str(&mut out, left.as_str());
    push_str(&mut out, "\n");
    let monthly = format_brl(plan.installment);
    push_str(&mut out, monthly.as_str());
    push_str(&mut out, "/mês até ");
    let until = format_month_year(plan.last_due);
    push_str(&mut out, until.as_str());
    string_of(&out)
}

/// `/parcelas`: what is left in total and per month, then one block per
/// plan.
pub fn installments_text(plans: &[InstallmentProgress], categories: &[Category]) -> (text: String)
    requires
        forall|i: int| 0 <= i < plans@.len() ==> plan_fits(#[trigger] plans@[i]),
        forall|i: int| 0 <= i < plans@.len() ==> (#[trigger] plans@[i]).last_due.valid(),
        i64::MIN <= left_sum(plans@) <= i64::MAX,
        i64::MIN <= monthly_sum(plans@) <= i64::MAX,
        plans@.len() <= usize::MAX / 2,
    ensures
        text@ == installments_message(plans@, categories@),
{
    if plans.len() == 0 {
        return "<b>💳 Parcelamentos</b>\nNenhum parcelamento em andamento.".to_owned();
    }
    let mut left: i128 = 0;
    let mut monthly: i128 = 0;
    let mut blocks: Vec<String> = Vec::new();
    let mut i: usize = 0;
    while i < plans.len()
        invariant
            i <= plans@.len(),
            plans@.len() <= usize::MAX / 2,
            forall|k: int| 0 <= k < plans@.len() ==> plan_fits(#[trigger] plans@[k]),
            forall|k: int| 0 <= k < plans@.len() ==> (#[trigger] plans@[k]).last_due.valid(),
            left == left_sum(plans@.take(i as int)),
            monthly == monthly_sum(plans@.take(i as int)),
            -(i as int) * 0x1_0000_0000_0000_0000 <= left <= (i as int) * 0x1_0000_0000_0000_0000,
            -(i as int) * 0x1_0000_0000_0000_0000 <= monthly <= (i as int) * 0x1_0000_0000_0000_0000,
            blocks@.map_values(|block: String| block@) == plans@.take(i as int).map_values(
                |plan: InstallmentProgress| plan_block_text(plan, categories@),
            ),
        decreases plans@.len() - i,
    {
        let plan = &plans[i];
        assert(plans@.take(i + 1).drop_last() =~= plans@.take(i as int));
        assert(plans@.take(i + 1).last() == *plan);
        left = left + (plan.total.0 as i128 - plan.paid.0 as i128);
        monthly = monthly + plan.installment.0 as i128;
        let ghost before = blocks@;
        blocks.push(plan_block(plan, categories));
        assert(blocks@.map_values(|block: String| block@) =~= before.map_values(|block: String| block@).push(
            plan_block_text(*plan, categories@),
        ));
        assert(plans@.take(i + 1).map_values(|plan: InstallmentProgress| plan_block_text(plan, categories@))
            =~= plans@.take(i as int).map_values(|plan: InstallmentProgress| plan_block_text(plan, categories@)).push(
            plan_block_text(*plan, categories@),
        ));
        i = i + 1;
    }
    assert(plans@.take(i as int) =~= plans@);
    let mut out: Vec<char> = Vec::new();
    push_str(&mut out, "<b>💳 Parcelamentos</b>\nFalta pagar: ");
    let left_text = format_brl(Cents(left as i64));
    push_str(&mut out, left_text.as_str());
    push_str(&mut out, " · por mês: ");
    let monthly_text = format_brl(Cents(monthly as i64));
    push_str(&mut out, monthly_text.as_str());
    push_str(&mut out, "\n\n");
    push_joined(&mut out, &blocks, "\n\n");
    string_of(&out)
}

} // verus!
