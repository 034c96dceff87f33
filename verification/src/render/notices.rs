//! One-off messages from scheduled jobs.

use vstd::prelude::*;

use super::catalog::{Category, CreditCard, InvoiceView, Recurrence, category_label, category_label_text};
use super::reports::{bar_text, progress_bar, truncated_div};
use super::help::{joined, push_joined};
use crate::calendar::{Date, Time, day_month_text, format_day_month, format_hour_minute, hour_minute_text};
use crate::html::{escape, escaped};
use crate::model::Cents;
use crate::money::{brl_text, format_brl};
use crate::numbers::{push_signed_decimal, signed_decimal};
use crate::text::{push_str, string_of};

verus! {

/// A spending limit for one category per cycle.
#[derive(Clone, Copy, Debug, PartialEq, Eq, Structural)]
pub struct Budget {
    pub limit: Cents,
}

/// How much of a budget the cycle used.
#[derive(Clone, Debug, PartialEq, Eq)]
pub struct BudgetStatus {
    pub category: Category,
    pub spent: Cents,
    pub budget: Budget,
    /// Spent over limit, in basis points.
    pub used_bp: i64,
}

/// A budget crossing one of its warning thresholds (in percent).
#[derive(Clone, Debug, PartialEq, Eq)]
pub struct BudgetAlert {
    pub status: BudgetStatus,
    pub threshold: u32,
}

pub open spec fn percent_of(basis_points: i64) -> Seq<char> {
    signed_decimal(truncated_div(basis_points as int, 100))
}

fn push_percent(out: &mut Vec<char>, basis_points: i64)
    ensures
        final(out)@ == old(out)@ + percent_of(basis_points),
{
    let percent: i64 = if basis_points >= 0 {
        basis_points / 100
    } else {
        let magnitude: i128 = -(basis_points as i128);
        -((magnitude / 100) as i64)
    };
    push_signed_decimal(out, percent);
}

/// `🛒 mercado ▓▓▓▓▓▓▓▓░░ 85% (R$ 850,00 de R$ 1.000,00)`.
pub open spec fn budget_line_text(status: BudgetStatus) -> Seq<char> {
    category_label_text(status.category) + " "@ + bar_text(status.used_bp) + " "@ + percent_of(status.used_bp)
        + "% ("@ + brl_text(status.spent.0 as int) + " de "@ + brl_text(status.budget.limit.0 as int) + ")"@
}

pub fn budget_line(status: &BudgetStatus) -> (line: String)
    ensures
        line@ == budget_line_text(*status),
{
    let mut out: Vec<char> = Vec::new();
    let label = category_label(&status.category);
    push_str(&mut out, label.as_str());
    push_str(&mut out, " ");
    let bar = progress_bar(status.used_bp);
    push_str(&mut out, bar.as_str());
    push_str(&mut out, " ");
    push_percent(&mut out, status.used_bp);
    push_str(&mut out, "% (");
    let spent = format_brl(status.spent);
    push_str(&mut out, spent.as_str());
    push_str(&mut out, " de ");
    let limit = format_brl(status.budget.limit);
    push_str(&mut out, limit.as_str());
    push_str(&mut out, ")");
    string_of(&out)
}

/// Over the limit from 100% on; a warning below.
pub open spec fn budget_alert_message(alert: BudgetAlert) -> Seq<char> {
    let status = alert.status;
    let name = category_label_text(status.category);
    let spent = brl_text(status.spent.0 as int);
    let limit = brl_text(status.budget.limit.0 as int);
    if alert.threshold >= 100 {
        "🚨 Orçamento de <b>"@ + name + "</b> estourado: "@ + spent + " de "@ + limit + " ("@ + percent_of(
            status.used_bp,
        ) + "%)."@
    } else {
        "⚠️ Orçamento de <b>"@ + name + "</b> em "@ + percent_of(status.used_bp) + "%: "@ + spent + " de "@ + limit
            + " neste ciclo."@
    }
}

pub fn budget_alert_text(alert: &BudgetAlert) -> (text: String)
    ensures
        text@ == budget_alert_message(*alert),
{
    let status = &alert.status;
    let name = category_label(&status.category);
    let spent = format_brl(status.spent);
    let limit = format_brl(status.budget.limit);
    let mut out: Vec<char> = Vec::new();
    if alert.threshold >= 100 {
        push_str(&mut out, "🚨 Orçamento de <b>");
        push_str(&mut out, name.as_str());
        push_str(&mut out, "</b> estourado: ");
        push_str(&mut out, spent.as_str());
        push_str(&mut out, " de ");
        push_str(&mut out, limit.as_str());
        push_str(&mut out, " (");
        push_percent(&mut out, status.used_bp);
        push_str(&mut out, "%).");
    } else {
        push_str(&mut out, "⚠️ Orçamento de <b>");
        push_str(&mut out, name.as_str());
        push_str(&mut out, "</b> em ");
        push_percent(&mut out, status.used_bp);
        push_str(&mut out, "%: ");
        push_str(&mut out, spent.as_str());
        push_str(&mut out, " de ");
        push_str(&mut out, limit.as_str());
        push_str(&mut out, " neste ciclo.");
    }
    string_of(&out)
}

/// Every alert, one per line; `None` when there is nothing to say.
pub fn budget_alerts_text(alerts: &[BudgetAlert]) -> (text: Option<String>)
    ensures
        alerts@.len() == 0 ==> text is None,
        alerts@.len() > 0 ==> (text matches Some(message) && message@ == joined(
            alerts@.map_values(|alert: BudgetAlert| budget_alert_message(alert)),
            "\n"@,
        )),
{
    if alerts.len() == 0 {
        return None;
    }
    let mut lines: Vec<String> = Vec::new();
    let mut i: usize = 0;
    while i < alerts.len()
        invariant
            i <= alerts@.len(),
            lines@.map_values(|line: String| line@) == alerts@.take(i as int).map_values(
                |alert: BudgetAlert| budget_alert_message(alert),
            ),
        decreases alerts@.len() - i,
    {
        let ghost before = lines@;
        lines.push(budget_alert_text(&alerts[i]));
        assert(lines@.map_values(|line: String| line@) =~= before.map_values(|line: String| line@).push(
            budget_alert_message(alerts@[i as int]),
        ));
        assert(alerts@.take(i + 1).map_values(|alert: BudgetAlert| budget_alert_message(alert)) =~= alerts@.take(
            i as int,
        ).map_values(|alert: BudgetAlert| budget_alert_message(alert)).push(budget_alert_message(alerts@[i as int])));
        i = i + 1;
    }
    assert(alerts@.take(i as int) =~= alerts@);
    let mut out: Vec<char> = Vec::new();
    push_joined(&mut out, &lines, "\n");
    Some(string_of(&out))
}

/// A moment in UTC, to the minute.
#[derive(Clone, Copy, Debug, PartialEq, Eq, Structural)]
pub struct UtcMinute {
    pub date: Date,
    pub time: Time,
}

/// Sent to each member who receives backups when the backup job has not
/// succeeded for too long.
pub open spec fn backup_missing_message(last_success: Option<UtcMinute>) -> Seq<char> {
    let since = match last_success {
        Some(at) => "não roda com sucesso desde "@ + day_month_text(at.date) + " "@ + hour_minute_text(at.time)
            + " UTC"@,
        None => "nunca rodou com sucesso"@,
    };
    "⚠️ O backup do finbot "@ + since + ". Veja os logs do container backup."@
}

pub fn backup_missing_text(last_success: Option<UtcMinute>) -> (text: String)
    requires
        last_success matches Some(at) ==> at.date.valid() && at.time.valid(),
    ensures
        text@ == backup_missing_message(last_success),
{
    let mut out: Vec<char> = Vec::new();
    push_str(&mut out, "⚠️ O backup do finbot ");
    match last_success {
        Some(at) => {
            push_str(&mut out, "não roda com sucesso desde ");
            let day = format_day_month(at.date);
            push_str(&mut out, day.as_str());
            push_str(&mut out, " ");
            let time = format_hour_minute(at.time);
            push_str(&mut out, time.as_str());
            push_str(&mut out, " UTC");
        },
        None => push_str(&mut out, "nunca rodou com sucesso"),
    }
    push_str(&mut out, ". Veja os logs do container backup.");
    string_of(&out)
}

pub open spec fn recurrence_recorded_message(recurrence: Recurrence, date: Date) -> Seq<char> {
    "🔁 Registrado automaticamente: <b>"@ + escaped(recurrence.description@) + "</b> "@ + brl_text(
        recurrence.amount.0 as int,
    ) + " ("@ + day_month_text(date) + ")"@
}

/// A recurring entry the bot recorded by itself.
pub fn recurrence_recorded_text(recurrence: &Recurrence, date: Date) -> (text: String)
    requires
        date.valid(),
    ensures
        text@ == recurrence_recorded_message(*recurrence, date),
{
    let mut out: Vec<char> = Vec::new();
    push_str(&mut out, "🔁 Registrado automaticamente: <b>");
    let name = escape(recurrence.description.as_str());
    push_str(&mut out, name.as_str());
    push_str(&mut out, "</b> ");
    let amount = format_brl(recurrence.amount);
    push_str(&mut out, amount.as_str());
    push_str(&mut out, " (");
    let day = format_day_month(date);
    push_str(&mut out, day.as_str());
    push_str(&mut out, ")");
    string_of(&out)
}

pub open spec fn recurrence_confirm_message(recurrence: Recurrence, date: Date) -> Seq<char> {
    "🔁 <b>"@ + escaped(recurrence.description@) + "</b> (dia "@ + day_month_text(date) + "), valor previsto "@
        + brl_text(recurrence.amount.0 as int)
        + ".\nRegistrar? Se o valor mudou, toque em Pular e use /gasto."@
}

/// A recurring entry that asks before being recorded.
pub fn recurrence_confirm_text(recurrence: &Recurrence, date: Date) -> (text: String)
    requires
        date.valid(),
    ensures
        text@ == recurrence_confirm_message(*recurrence, date),
{
    let mut out: Vec<char> = Vec::new();
    push_str(&mut out, "🔁 <b>");
    let name = escape(recurrence.description.as_str());
    push_str(&mut out, name.as_str());
    push_str(&mut out, "</b> (dia ");
    let day = format_day_month(date);
    push_str(&mut out, day.as_str());
    push_str(&mut out, "), valor previsto ");
    let amount = format_brl(recurrence.amount);
    push_str(&mut out, amount.as_str());
    push_str(&mut out, ".\nRegistrar? Se o valor mudou, toque em Pular e use /gasto.");
    string_of(&out)
}

pub open spec fn invoice_closed_message(card: CreditCard, invoice: InvoiceView) -> Seq<char> {
    "💳 A fatura do <b>"@ + escaped(card.name@) + "</b> fechou: "@ + brl_text(
        invoice.statement.outstanding.0 as int,
    ) + ", vence "@ + day_month_text(invoice.invoice.due_date) + ".\nPara pagar: /pagarfatura"@
}

/// A card invoice just closed.
pub fn invoice_closed_text(card: &CreditCard, invoice: &InvoiceView) -> (text: String)
    requires
        invoice.invoice.due_date.valid(),
    ensures
        text@ == invoice_closed_message(*card, *invoice),
{
    let mut out: Vec<char> = Vec::new();
    push_str(&mut out, "💳 A fatura do <b>");
    let name = escape(card.name.as_str());
    push_str(&mut out, name.as_str());
    push_str(&mut out, "</b> fechou: ");
    let owed = format_brl(invoice.statement.outstanding);
    push_str(&mut out, owed.as_str());
    push_str(&mut out, ", vence ");
    let due = format_day_month(invoice.invoice.due_date);
    push_str(&mut out, due.as_str());
    push_str(&mut out, ".\nPara pagar: /pagarfatura");
    string_of(&out)
}

/// Due today, or in so many days.
pub open spec fn invoice_due_message(card: CreditCard, invoice: InvoiceView, days_left: i64) -> Seq<char> {
    let name = escaped(card.name@);
    let owed = brl_text(invoice.statement.outstanding.0 as int);
    if days_left == 0 {
        "⚠️ A fatura do <b>"@ + name + "</b> ("@ + owed + ") vence <b>hoje</b>! /pagarfatura"@
    } else {
        "⏰ A fatura do <b>"@ + name + "</b> ("@ + owed + ") vence em "@ + signed_decimal(days_left as int)
            + " dias ("@ + day_month_text(invoice.invoice.due_date) + "). /pagarfatura"@
    }
}

/// A card invoice coming due.
pub fn invoice_due_text(card: &CreditCard, invoice: &InvoiceView, days_left: i64) -> (text: String)
    requires
        invoice.invoice.due_date.valid(),
    ensures
        text@ == invoice_due_message(*card, *invoice, days_left),
{
    let name = escape(card.name.as_str());
    let owed = format_brl(invoice.statement.outstanding);
    let mut out: Vec<char> = Vec::new();
    if days_left == 0 {
        push_str(&mut out, "⚠️ A fatura do <b>");
        push_str(&mut out, name.as_str());
        push_str(&mut out, "</b> (");
        push_str(&mut out, owed.as_str());
        push_str(&mut out, ") vence <b>hoje</b>! /pagarfatura");
        return string_of(&out);
    }
    push_str(&mut out, "⏰ A fatura do <b>");
    push_str(&mut out, name.as_str());
    push_str(&mut out, "</b> (");
    push_str(&mut out, owed.as_str());
    push_str(&mut out, ") vence em ");
    push_signed_decimal(&mut out, days_left);
    push_str(&mut out, " dias (");
    let due = format_day_month(invoice.invoice.due_date);
    push_str(&mut out, due.as_str());
    push_str(&mut out, "). /pagarfatura");
    string_of(&out)
}

} // verus!
