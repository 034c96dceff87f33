//! Replies of the instant commands: balances, accounts, goals, categories.

use vstd::prelude::*;

use super::catalog::{
    Account, Category, Goal, account_label, account_label_text, category_label,
    category_label_text, kind_name, kind_name_text,
};
use super::help::{joined, push_joined};
use crate::calendar::Date;
use crate::flows::dates::{short_date, short_date_text};
use crate::html::{escape, escaped};
use crate::model::{AccountKind, CategoryKind, Cents};
use crate::money::{brl_text, format_brl};
use crate::numbers::{push_signed_decimal, signed_decimal};
use crate::text::{push_str, string_of};

verus! {

/// Slots filled for `progress_bp` basis points: one per 10%, 0 to 10.
pub open spec fn filled_slots(progress_bp: i64) -> int {
    if progress_bp <= 0 {
        0
    } else if progress_bp >= 10_000 {
        10
    } else {
        progress_bp / 1_000
    }
}

/// Ten slots, the filled ones first: `▓▓▓░░░░░░░`.
pub open spec fn bar_text(progress_bp: i64) -> Seq<char> {
    Seq::new(filled_slots(progress_bp) as nat, |i: int| '▓') + Seq::new(
        (10 - filled_slots(progress_bp)) as nat,
        |i: int| '░',
    )
}

/// Ten-slot bar: `▓▓▓░░░░░░░`.
pub fn progress_bar(progress_bp: i64) -> (bar: String)
    ensures
        bar@ == bar_text(progress_bp),
{
    let clamped: i64 = if progress_bp < 0 {
        0
    } else if progress_bp > 10_000 {
        10_000
    } else {
        progress_bp
    };
    let filled = (clamped / 1_000) as usize;
    let mut out: Vec<char> = Vec::new();
    let mut i: usize = 0;
    while i < 10
        invariant
            i <= 10,
            filled == filled_slots(progress_bp),
            filled <= 10,
            out@.len() == i,
            forall|k: int| 0 <= k < i ==> out@[k] == (if k < filled { '▓' } else { '░' }),
        decreases 10 - i,
    {
        if i < filled {
            out.push('▓');
        } else {
            out.push('░');
        }
        i = i + 1;
    }
    assert(out@ =~= bar_text(progress_bp));
    string_of(&out)
}

/// An account with its balance.
#[derive(Clone, Debug, PartialEq, Eq)]
pub struct AccountBalance {
    pub account: Account,
    pub balance: Cents,
}

/// Money free to spend and money set aside in goal pots.
#[derive(Clone, Copy, Debug, PartialEq, Eq, Structural)]
pub struct MoneyPosition {
    pub available: Cents,
    pub reserved_in_pots: Cents,
}

/// Every account's balance on a day.
#[derive(Clone, Debug, PartialEq, Eq)]
pub struct BalanceSheet {
    pub as_of: Date,
    pub accounts: Vec<AccountBalance>,
    pub position: MoneyPosition,
}

/// How far a goal is.
#[derive(Clone, Debug, PartialEq, Eq)]
pub struct GoalProgress {
    pub goal: Goal,
    pub saved: Cents,
    pub remaining: Cents,
    /// Saved over target, in basis points.
    pub progress_bp: i64,
}

/// `a / b` rounded toward zero, as Rust divides integers.
pub open spec fn truncated_div(a: int, b: int) -> int {
    if a >= 0 { a / b } else { -((-a) / b) }
}

/// The lines of the spendable accounts: pots are left out.
pub open spec fn balance_lines(accounts: Seq<AccountBalance>) -> Seq<Seq<char>>
    decreases accounts.len(),
{
    if accounts.len() == 0 {
        Seq::empty()
    } else {
        balance_lines(accounts.drop_last()) + if accounts.last().account.kind != AccountKind::Pot {
            seq![account_label_text(accounts.last().account) + ": "@ + brl_text(accounts.last().balance.0 as int)]
        } else {
            Seq::empty()
        }
    }
}

pub open spec fn reserved_text(reserved: Cents) -> Seq<char> {
    if reserved.0 == 0 {
        Seq::empty()
    } else {
        "\n🎯 Reservado em metas: "@ + brl_text(reserved.0 as int)
    }
}

/// `/saldo`: spendable accounts, "Disponível" and pots apart.
pub open spec fn balance_message(sheet: BalanceSheet) -> Seq<char> {
    let lines = balance_lines(sheet.accounts@);
    if lines.len() == 0 {
        "Nenhuma conta ainda. Crie uma com /novaconta."@
    } else {
        "<b>💰 Saldo</b> · "@ + short_date_text(sheet.as_of, sheet.as_of) + "\n"@ + joined(lines, "\n"@)
            + "\n\n<b>Disponível: "@ + brl_text(sheet.position.available.0 as int) + "</b>"@
            + reserved_text(sheet.position.reserved_in_pots)
    }
}

/// `/saldo`: spendable accounts, "Disponível" and pots apart.
pub fn balance_text(sheet: &BalanceSheet) -> (text: String)
    requires
        sheet.as_of.valid(),
    ensures
        text@ == balance_message(*sheet),
{
    let mut lines: Vec<String> = Vec::new();
    let mut i: usize = 0;
    while i < sheet.accounts.len()
        invariant
            i <= sheet.accounts@.len(),
            lines@.map_values(|line: String| line@) == balance_lines(sheet.accounts@.take(i as int)),
        decreases sheet.accounts@.len() - i,
    {
        let item = &sheet.accounts[i];
        assert(sheet.accounts@.take(i + 1).drop_last() =~= sheet.accounts@.take(i as int));
        assert(sheet.accounts@.take(i + 1).last() == *item);
        let ghost before = lines@;
        if item.account.kind != AccountKind::Pot {
            let mut line: Vec<char> = Vec::new();
            let label = account_label(&item.account);
            push_str(&mut line, label.as_str());
            push_str(&mut line, ": ");
            let amount = format_brl(item.balance);
            push_str(&mut line, amount.as_str());
            lines.push(string_of(&line));
            assert(lines@.map_values(|line: String| line@) =~= before.map_values(|line: String| line@).push(
                account_label_text(item.account) + ": "@ + brl_text(item.balance.0 as int),
            ));
        }
        i = i + 1;
    }
    assert(sheet.accounts@.take(i as int) =~= sheet.accounts@);
    if lines.len() == 0 {
        return "Nenhuma conta ainda. Crie uma com /novaconta.".to_owned();
    }
    let mut out: Vec<char> = Vec::new();
    push_str(&mut out, "<b>💰 Saldo</b> · ");
    let date = short_date(sheet.as_of, sheet.as_of);
    push_str(&mut out, date.as_str());
    push_str(&mut out, "\n");
    push_joined(&mut out, &lines, "\n");
    push_str(&mut out, "\n\n<b>Disponível: ");
    let available = format_brl(sheet.position.available);
    push_str(&mut out, available.as_str());
    push_str(&mut out, "</b>");
    if sheet.position.reserved_in_pots.0 != 0 {
        push_str(&mut out, "\n🎯 Reservado em metas: ");
        let reserved = format_brl(sheet.position.reserved_in_pots);
        push_str(&mut out, reserved.as_str());
    }
    string_of(&out)
}

/// One line per account: label, kind and balance.
pub open spec fn account_lines(accounts: Seq<AccountBalance>) -> Seq<Seq<char>> {
    accounts.map_values(
        |item: AccountBalance| account_label_text(item.account) + " ("@ + kind_name_text(item.account.kind) + "): "@
            + brl_text(item.balance.0 as int),
    )
}

/// `/contas`: every active account with its kind.
pub open spec fn accounts_message(sheet: BalanceSheet) -> Seq<char> {
    if sheet.accounts@.len() == 0 {
        "Nenhuma conta ainda. Crie uma com /novaconta."@
    } else {
        "<b>🏦 Contas</b>\n"@ + joined(account_lines(sheet.accounts@), "\n"@) + "\n\nNova conta: /novaconta"@
    }
}

/// `/contas`: every active account with its kind.
pub fn accounts_text(sheet: &BalanceSheet) -> (text: String)
    ensures
        text@ == accounts_message(*sheet),
{
    if sheet.accounts.len() == 0 {
        return "Nenhuma conta ainda. Crie uma com /novaconta.".to_owned();
    }
    let mut lines: Vec<String> = Vec::new();
    let mut i: usize = 0;
    while i < sheet.accounts.len()
        invariant
            i <= sheet.accounts@.len(),
            lines@.map_values(|line: String| line@) == account_lines(sheet.accounts@.take(i as int)),
        decreases sheet.accounts@.len() - i,
    {
        let item = &sheet.accounts[i];
        let mut line: Vec<char> = Vec::new();
        let label = account_label(&item.account);
        push_str(&mut line, label.as_str());
        push_str(&mut line, " (");
        push_str(&mut line, kind_name(item.account.kind));
        push_str(&mut line, "): ");
        let amount = format_brl(item.balance);
        push_str(&mut line, amount.as_str());
        let ghost before = lines@;
        lines.push(string_of(&line));
        assert(lines@.map_values(|line: String| line@) =~= before.map_values(|line: String| line@).push(
            account_lines(sheet.accounts@)[i as int],
        ));
        assert(account_lines(sheet.accounts@.take(i + 1)) =~= account_lines(sheet.accounts@.take(i as int)).push(
            account_lines(sheet.accounts@)[i as int],
        ));
        i = i + 1;
    }
    assert(sheet.accounts@.take(i as int) =~= sheet.accounts@);
    let mut out: Vec<char> = Vec::new();
    push_str(&mut out, "<b>🏦 Contas</b>\n");
    push_joined(&mut out, &lines, "\n");
    push_str(&mut out, "\n\nNova conta: /novaconta");
    string_of(&out)
}

/// `<b>Casa</b>: R$ 20.000,00 de R$ 100.000,00 (20%)`, then the bar and
/// what is missing.
pub open spec fn goal_block_text(progress: GoalProgress) -> Seq<char> {
    "<b>"@ + escaped(progress.goal.pot.name@) + "</b>: "@ + brl_text(progress.saved.0 as int) + " de "@
        + brl_text(progress.goal.target.target.0 as int) + " ("@ + signed_decimal(
        truncated_div(progress.progress_bp as int, 100),
    ) + "%)\n"@ + bar_text(progress.progress_bp) + " faltam "@ + brl_text(progress.remaining.0 as int)
}

/// `/metas`: progress bar per goal.
pub open spec fn goals_message(goals: Seq<GoalProgress>) -> Seq<char> {
    if goals.len() == 0 {
        "Nenhuma meta ainda. Crie uma com /novameta."@
    } else {
        "<b>🎯 Metas</b>\n\n"@ + joined(goals.map_values(|progress: GoalProgress| goal_block_text(progress)), "\n\n"@)
    }
}

fn goal_block(progress: &GoalProgress) -> (text: String)
    ensures
        text@ == goal_block_text(*progress),
{
    let bp = progress.progress_bp;
    let percent: i64 = if bp >= 0 {
        bp / 100
    } else {
        let magnitude: i128 = -(bp as i128);
        -((magnitude / 100) as i64)
    };
    let mut out: Vec<char> = Vec::new();
    push_str(&mut out, "<b>");
    let name = escape(progress.goal.pot.name.as_str());
    push_str(&mut out, name.as_str());
    push_str(&mut out, "</b>: ");
    let saved = format_brl(progress.saved);
    push_str(&mut out, saved.as_str());
    push_str(&mut out, " de ");
    let target = format_brl(progress.goal.target.target);
    push_str(&mut out, target.as_str());
    push_str(&mut out, " (");
    push_signed_decimal(&mut out, percent);
    push_str(&mut out, "%)\n");
    let bar = progress_bar(bp);
    push_str(&mut out, bar.as_str());
    push_str(&mut out, " faltam ");
    let remaining = format_brl(progress.remaining);
    push_str(&mut out, remaining.as_str());
    string_of(&out)
}

/// `/metas`: progress bar per goal.
pub fn goals_text(goals: &[GoalProgress]) -> (text: String)
    ensures
        text@ == goals_message(goals@),
{
    if goals.len() == 0 {
        return "Nenhuma meta ainda. Crie uma com /novameta.".to_owned();
    }
    let mut blocks: Vec<String> = Vec::new();
    let mut i: usize = 0;
    while i < goals.len()
        invariant
            i <= goals@.len(),
            blocks@.map_values(|block: String| block@) == goals@.take(i as int).map_values(
                |progress: GoalProgress| goal_block_text(progress),
            ),
        decreases goals@.len() - i,
    {
        let ghost before = blocks@;
        blocks.push(goal_block(&goals[i]));
        assert(blocks@.map_values(|block: String| block@) =~= before.map_values(|block: String| block@).push(
            goal_block_text(goals@[i as int]),
        ));
        assert(goals@.take(i + 1) =~= goals@.take(i as int).push(goals@[i as int]));
        i = i + 1;
    }
    assert(goals@.take(i as int) =~= goals@);
    let mut out: Vec<char> = Vec::new();
    push_str(&mut out, "<b>🎯 Metas</b>\n\n");
    push_joined(&mut out, &blocks, "\n\n");
    string_of(&out)
}

/// The labels of the categories of `kind`, in order.
pub open spec fn kind_labels(categories: Seq<Category>, kind: CategoryKind) -> Seq<Seq<char>>
    decreases categories.len(),
{
    if categories.len() == 0 {
        Seq::empty()
    } else {
        kind_labels(categories.drop_last(), kind) + if categories.last().kind == kind {
            seq![category_label_text(categories.last())]
        } else {
            Seq::empty()
        }
    }
}

/// The names joined with commas, or `—` when there are none.
pub open spec fn listed_names(labels: Seq<Seq<char>>) -> Seq<char> {
    if labels.len() == 0 { "—"@ } else { joined(labels, ", "@) }
}

/// `/categorias`: expense and income categories.
pub open spec fn categories_message(categories: Seq<Category>) -> Seq<char> {
    "<b>🏷️ Categorias</b>\nGastos: "@ + listed_names(kind_labels(categories, CategoryKind::Expense))
        + "\nEntradas: "@ + listed_names(kind_labels(categories, CategoryKind::Income))
}

fn kind_list(categories: &[Category], kind: CategoryKind) -> (text: String)
    ensures
        text@ == listed_names(kind_labels(categories@, kind)),
{
    let mut names: Vec<String> = Vec::new();
    let mut i: usize = 0;
    while i < categories.len()
        invariant
            i <= categories@.len(),
            names@.map_values(|name: String| name@) == kind_labels(categories@.take(i as int), kind),
        decreases categories@.len() - i,
    {
        assert(categories@.take(i + 1).drop_last() =~= categories@.take(i as int));
        assert(categories@.take(i + 1).last() == categories@[i as int]);
        let ghost before = names@;
        if categories[i].kind == kind {
            names.push(category_label(&categories[i]));
            assert(names@.map_values(|name: String| name@) =~= before.map_values(|name: String| name@).push(
                category_label_text(categories@[i as int]),
            ));
        }
        i = i + 1;
    }
    assert(categories@.take(i as int) =~= categories@);
    if names.len() == 0 {
        return "—".to_owned();
    }
    let mut out: Vec<char> = Vec::new();
    push_joined(&mut out, &names, ", ");
    string_of(&out)
}

/// `/categorias`: expense and income categories.
pub fn categories_text(categories: &[Category]) -> (text: String)
    ensures
        text@ == categories_message(categories@),
{
    let mut out: Vec<char> = Vec::new();
    push_str(&mut out, "<b>🏷️ Categorias</b>\nGastos: ");
    let expenses = kind_list(categories, CategoryKind::Expense);
    push_str(&mut out, expenses.as_str());
    push_str(&mut out, "\nEntradas: ");
    let incomes = kind_list(categories, CategoryKind::Income);
    push_str(&mut out, incomes.as_str());
    string_of(&out)
}

} // verus!
