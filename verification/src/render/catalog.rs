//! Names for the ids a flow stores, loaded fresh for each card.

use vstd::prelude::*;

use crate::calendar::Date;
use crate::flows::form::FormKind;
use crate::html::{escape, escaped};
use crate::model::{
    AccountId, AccountKind, CardId, CategoryId, CategoryKind, Cents, GoalId, InvoiceId, RecurrenceId,
};
use crate::money::{brl_text, format_brl};
use crate::text::{push_str, string_of};

verus! {

#[derive(Clone, Debug, PartialEq, Eq)]
pub struct Category {
    pub id: CategoryId,
    pub name: String,
    pub kind: CategoryKind,
    pub emoji: Option<String>,
    pub archived: bool,
    /// Part of the basic cost of living (`/essenciais`).
    pub essential: bool,
}

#[derive(Clone, Debug, PartialEq, Eq)]
pub struct Account {
    pub id: AccountId,
    pub name: String,
    pub kind: AccountKind,
    pub initial_balance: Cents,
    pub opened_on: Date,
    pub archived: bool,
}

/// What a goal aims at: an amount, and maybe a day to reach it.
#[derive(Clone, Copy, Debug, PartialEq, Eq, Structural)]
pub struct GoalTarget {
    pub target: Cents,
    pub target_date: Option<Date>,
}

/// A savings goal and the pot account that holds its money.
#[derive(Clone, Debug, PartialEq, Eq)]
pub struct Goal {
    pub id: GoalId,
    pub pot: Account,
    pub target: GoalTarget,
}

#[derive(Clone, Debug, PartialEq, Eq)]
pub struct CreditCard {
    pub id: CardId,
    pub name: String,
}

/// A card invoice and the day it is due.
#[derive(Clone, Copy, Debug, PartialEq, Eq, Structural)]
pub struct Invoice {
    pub id: InvoiceId,
    pub due_date: Date,
}

/// What is still owed on an invoice.
#[derive(Clone, Copy, Debug, PartialEq, Eq, Structural)]
pub struct InvoiceStatement {
    pub outstanding: Cents,
}

/// An invoice and what is still owed on it.
#[derive(Clone, Copy, Debug, PartialEq, Eq, Structural)]
pub struct InvoiceView {
    pub invoice: Invoice,
    pub statement: InvoiceStatement,
}

/// A card's open invoices: the unpaid closed one and the current one.
#[derive(Clone, Copy, Debug, PartialEq, Eq, Structural)]
pub struct CardSummary {
    pub card: CardId,
    pub unpaid: Option<InvoiceView>,
    pub current: Option<InvoiceView>,
}

#[derive(Clone, Debug, PartialEq, Eq)]
pub struct Recurrence {
    pub id: RecurrenceId,
    pub description: String,
    pub amount: Cents,
}

#[derive(Clone, Debug, Default, PartialEq, Eq)]
pub struct Catalog {
    pub categories: Vec<Category>,
    pub accounts: Vec<Account>,
    pub goals: Vec<Goal>,
    pub cards: Vec<CreditCard>,
    /// Loaded only for forms that pick an invoice.
    pub card_summaries: Vec<CardSummary>,
    /// Loaded only when a record to change is picked.
    pub recurrences: Vec<Recurrence>,
}

/// The lists a card needs beyond names; each one costs a query.
#[derive(Clone, Copy, Debug, Default, PartialEq, Eq, Structural)]
pub struct CatalogNeeds {
    pub invoices: bool,
    pub recurrences: bool,
}

impl CatalogNeeds {
    /// Invoices for paying one; no form here picks a recurring entry.
    pub fn of(form: FormKind) -> (needs: CatalogNeeds)
        ensures
            needs == (CatalogNeeds { invoices: form == FormKind::PayInvoice, recurrences: false }),
    {
        CatalogNeeds { invoices: form == FormKind::PayInvoice, recurrences: false }
    }
}

pub open spec fn kind_emoji_text(kind: AccountKind) -> Seq<char> {
    match kind {
        AccountKind::Checking => "🏦"@,
        AccountKind::Savings => "🐷"@,
        AccountKind::Cash => "💵"@,
        AccountKind::Pot => "🎯"@,
    }
}

pub fn kind_emoji(kind: AccountKind) -> (emoji: &'static str)
    ensures
        emoji@ == kind_emoji_text(kind),
{
    match kind {
        AccountKind::Checking => "🏦",
        AccountKind::Savings => "🐷",
        AccountKind::Cash => "💵",
        AccountKind::Pot => "🎯",
    }
}

pub open spec fn kind_name_text(kind: AccountKind) -> Seq<char> {
    match kind {
        AccountKind::Checking => "Conta corrente"@,
        AccountKind::Savings => "Poupança"@,
        AccountKind::Cash => "Dinheiro"@,
        AccountKind::Pot => "Caixinha"@,
    }
}

pub fn kind_name(kind: AccountKind) -> (name: &'static str)
    ensures
        name@ == kind_name_text(kind),
{
    match kind {
        AccountKind::Checking => "Conta corrente",
        AccountKind::Savings => "Poupança",
        AccountKind::Cash => "Dinheiro",
        AccountKind::Pot => "Caixinha",
    }
}

/// The emoji, when the category has one, then the name; both escaped.
pub open spec fn category_label_text(category: Category) -> Seq<char> {
    match category.emoji {
        Some(emoji) => escaped(emoji@) + " "@ + escaped(category.name@),
        None => escaped(category.name@),
    }
}

pub fn category_label(category: &Category) -> (label: String)
    ensures
        label@ == category_label_text(*category),
{
    let name = escape(category.name.as_str());
    match &category.emoji {
        Some(emoji) => {
            let mut out: Vec<char> = Vec::new();
            let shown = escape(emoji.as_str());
            push_str(&mut out, shown.as_str());
            push_str(&mut out, " ");
            push_str(&mut out, name.as_str());
            string_of(&out)
        },
        None => name,
    }
}

/// The kind's emoji, then the escaped name.
pub open spec fn account_label_text(account: Account) -> Seq<char> {
    kind_emoji_text(account.kind) + " "@ + escaped(account.name@)
}

pub fn account_label(account: &Account) -> (label: String)
    ensures
        label@ == account_label_text(*account),
{
    let mut out: Vec<char> = Vec::new();
    push_str(&mut out, kind_emoji(account.kind));
    push_str(&mut out, " ");
    let name = escape(account.name.as_str());
    push_str(&mut out, name.as_str());
    string_of(&out)
}

pub open spec fn card_label_text(card: CreditCard) -> Seq<char> {
    "💳 "@ + escaped(card.name@)
}

pub fn card_label(card: &CreditCard) -> (label: String)
    ensures
        label@ == card_label_text(*card),
{
    let mut out: Vec<char> = Vec::new();
    push_str(&mut out, "💳 ");
    let name = escape(card.name.as_str());
    push_str(&mut out, name.as_str());
    string_of(&out)
}

pub open spec fn goal_label_text(goal: Goal) -> Seq<char> {
    "🎯 "@ + escaped(goal.pot.name@)
}

pub fn goal_label(goal: &Goal) -> (label: String)
    ensures
        label@ == goal_label_text(*goal),
{
    let mut out: Vec<char> = Vec::new();
    push_str(&mut out, "🎯 ");
    let name = escape(goal.pot.name.as_str());
    push_str(&mut out, name.as_str());
    string_of(&out)
}

/// An invoice button: what is still owed on it.
pub open spec fn invoice_label_text(view: InvoiceView) -> Seq<char> {
    "🧾 "@ + brl_text(view.statement.outstanding.0 as int)
}

pub fn invoice_label(view: &InvoiceView) -> (label: String)
    ensures
        label@ == invoice_label_text(*view),
{
    let mut out: Vec<char> = Vec::new();
    push_str(&mut out, "🧾 ");
    let owed = format_brl(view.statement.outstanding);
    push_str(&mut out, owed.as_str());
    string_of(&out)
}

/// The first of `records` with `id`.
pub open spec fn category_with(records: Seq<Category>, id: CategoryId) -> Option<Category>
    decreases records.len(),
{
    if records.len() == 0 {
        None
    } else if records[0].id == id {
        Some(records[0])
    } else {
        category_with(records.drop_first(), id)
    }
}

/// The first of `records` with `id`.
pub open spec fn account_with(records: Seq<Account>, id: AccountId) -> Option<Account>
    decreases records.len(),
{
    if records.len() == 0 {
        None
    } else if records[0].id == id {
        Some(records[0])
    } else {
        account_with(records.drop_first(), id)
    }
}

/// The first of `records` with `id`.
pub open spec fn recurrence_with(records: Seq<Recurrence>, id: RecurrenceId) -> Option<Recurrence>
    decreases records.len(),
{
    if records.len() == 0 {
        None
    } else if records[0].id == id {
        Some(records[0])
    } else {
        recurrence_with(records.drop_first(), id)
    }
}

/// The first of `records` with `id`.
pub open spec fn card_with(records: Seq<CreditCard>, id: CardId) -> Option<CreditCard>
    decreases records.len(),
{
    if records.len() == 0 {
        None
    } else if records[0].id == id {
        Some(records[0])
    } else {
        card_with(records.drop_first(), id)
    }
}

/// The first of `records` with `id`.
pub open spec fn goal_with(records: Seq<Goal>, id: GoalId) -> Option<Goal>
    decreases records.len(),
{
    if records.len() == 0 {
        None
    } else if records[0].id == id {
        Some(records[0])
    } else {
        goal_with(records.drop_first(), id)
    }
}

/// The records of `records` whose kind is `kind`, in order.
pub open spec fn categories_of_kind(records: Seq<Category>, kind: CategoryKind) -> Seq<Category>
    decreases records.len(),
{
    if records.len() == 0 {
        Seq::empty()
    } else if records.last().kind == kind {
        categories_of_kind(records.drop_last(), kind).push(records.last())
    } else {
        categories_of_kind(records.drop_last(), kind)
    }
}

/// Accounts money can be spent from or land in (pots left out), in order.
pub open spec fn spendable_of(records: Seq<Account>) -> Seq<Account>
    decreases records.len(),
{
    if records.len() == 0 {
        Seq::empty()
    } else if records.last().kind != AccountKind::Pot {
        spendable_of(records.drop_last()).push(records.last())
    } else {
        spendable_of(records.drop_last())
    }
}

/// The invoices of `summaries` in order: each card's unpaid, then current.
pub open spec fn all_invoices(summaries: Seq<CardSummary>) -> Seq<InvoiceView>
    decreases summaries.len(),
{
    if summaries.len() == 0 {
        Seq::empty()
    } else {
        all_invoices(summaries.drop_last()) + summary_invoices(summaries.last())
    }
}

pub open spec fn summary_invoices(summary: CardSummary) -> Seq<InvoiceView> {
    (match summary.unpaid {
        Some(view) => seq![view],
        None => Seq::empty(),
    }) + (match summary.current {
        Some(view) => seq![view],
        None => Seq::empty(),
    })
}

/// The first invoice of `views` with `id`.
pub open spec fn invoice_with(views: Seq<InvoiceView>, id: InvoiceId) -> Option<InvoiceView>
    decreases views.len(),
{
    if views.len() == 0 {
        None
    } else if views[0].invoice.id == id {
        Some(views[0])
    } else {
        invoice_with(views.drop_first(), id)
    }
}

/// The first summary of `summaries` for `card`.
pub open spec fn summary_of(summaries: Seq<CardSummary>, card: CardId) -> Option<CardSummary>
    decreases summaries.len(),
{
    if summaries.len() == 0 {
        None
    } else if summaries[0].card == card {
        Some(summaries[0])
    } else {
        summary_of(summaries.drop_first(), card)
    }
}

/// Invoices of `card` that still have money owed, newest last.
pub open spec fn payable_of(summaries: Seq<CardSummary>, card: CardId) -> Seq<InvoiceView> {
    match summary_of(summaries, card) {
        Some(summary) => summary_invoices(summary).filter(|view: InvoiceView| view.statement.outstanding.0 > 0),
        None => Seq::empty(),
    }
}

impl Catalog {
    pub fn category_label(&self, id: CategoryId) -> (label: String)
        ensures
            label@ == match category_with(self.categories@, id) {
                Some(found) => category_label_text(found),
                None => "categoria removida"@,
            },
    {
        let mut i: usize = 0;
        assert(self.categories@.skip(0) =~= self.categories@);
        while i < self.categories.len()
            invariant
                i <= self.categories@.len(),
                category_with(self.categories@, id) == category_with(self.categories@.skip(i as int), id),
            decreases self.categories@.len() - i,
        {
            let found = &self.categories[i];
            assert(self.categories@.skip(i as int)[0] == self.categories@[i as int]);
            if found.id == id {
                return category_label(found);
            }
            assert(self.categories@.skip(i as int).drop_first() =~= self.categories@.skip(i + 1));
            i = i + 1;
        }
        "categoria removida".to_owned()
    }

    pub fn account_label(&self, id: AccountId) -> (label: String)
        ensures
            label@ == match account_with(self.accounts@, id) {
                Some(found) => account_label_text(found),
                None => "conta removida"@,
            },
    {
        let mut i: usize = 0;
        assert(self.accounts@.skip(0) =~= self.accounts@);
        while i < self.accounts.len()
            invariant
                i <= self.accounts@.len(),
                account_with(self.accounts@, id) == account_with(self.accounts@.skip(i as int), id),
            decreases self.accounts@.len() - i,
        {
            let found = &self.accounts[i];
            assert(self.accounts@.skip(i as int)[0] == self.accounts@[i as int]);
            if found.id == id {
                return account_label(found);
            }
            assert(self.accounts@.skip(i as int).drop_first() =~= self.accounts@.skip(i + 1));
            i = i + 1;
        }
        "conta removida".to_owned()
    }

    pub fn recurrence_label(&self, id: RecurrenceId) -> (label: String)
        ensures
            label@ == match recurrence_with(self.recurrences@, id) {
                Some(found) => escaped(found.description@),
                None => "recorrente removida"@,
            },
    {
        let mut i: usize = 0;
        assert(self.recurrences@.skip(0) =~= self.recurrences@);
        while i < self.recurrences.len()
            invariant
                i <= self.recurrences@.len(),
                recurrence_with(self.recurrences@, id) == recurrence_with(self.recurrences@.skip(i as int), id),
            decreases self.recurrences@.len() - i,
        {
            let found = &self.recurrences[i];
            assert(self.recurrences@.skip(i as int)[0] == self.recurrences@[i as int]);
            if found.id == id {
                return escape(found.description.as_str());
            }
            assert(self.recurrences@.skip(i as int).drop_first() =~= self.recurrences@.skip(i + 1));
            i = i + 1;
        }
        "recorrente removida".to_owned()
    }

    pub fn card_label(&self, id: CardId) -> (label: String)
        ensures
            label@ == match card_with(self.cards@, id) {
                Some(found) => card_label_text(found),
                None => "cartão removido"@,
            },
    {
        let mut i: usize = 0;
        assert(self.cards@.skip(0) =~= self.cards@);
        while i < self.cards.len()
            invariant
                i <= self.cards@.len(),
                card_with(self.cards@, id) == card_with(self.cards@.skip(i as int), id),
            decreases self.cards@.len() - i,
        {
            let found = &self.cards[i];
            assert(self.cards@.skip(i as int)[0] == self.cards@[i as int]);
            if found.id == id {
                return card_label(found);
            }
            assert(self.cards@.skip(i as int).drop_first() =~= self.cards@.skip(i + 1));
            i = i + 1;
        }
        "cartão removido".to_owned()
    }

    pub fn goal_label(&self, id: GoalId) -> (label: String)
        ensures
            label@ == match goal_with(self.goals@, id) {
                Some(found) => goal_label_text(found),
                None => "meta removida"@,
            },
    {
        let mut i: usize = 0;
        assert(self.goals@.skip(0) =~= self.goals@);
        while i < self.goals.len()
            invariant
                i <= self.goals@.len(),
                goal_with(self.goals@, id) == goal_with(self.goals@.skip(i as int), id),
            decreases self.goals@.len() - i,
        {
            let found = &self.goals[i];
            assert(self.goals@.skip(i as int)[0] == self.goals@[i as int]);
            if found.id == id {
                return goal_label(found);
            }
            assert(self.goals@.skip(i as int).drop_first() =~= self.goals@.skip(i + 1));
            i = i + 1;
        }
        "meta removida".to_owned()
    }

    pub fn categories_of(&self, kind: CategoryKind) -> (found: Vec<&Category>)
        ensures
            found@.map_values(|c: &Category| *c) == categories_of_kind(self.categories@, kind),
    {
        let mut found: Vec<&Category> = Vec::new();
        let mut i: usize = 0;
        while i < self.categories.len()
            invariant
                i <= self.categories@.len(),
                found@.map_values(|c: &Category| *c) == categories_of_kind(self.categories@.take(i as int), kind),
            decreases self.categories@.len() - i,
        {
            assert(self.categories@.take(i + 1).drop_last() =~= self.categories@.take(i as int));
            assert(self.categories@.take(i + 1).last() == self.categories@[i as int]);
            let ghost before = found@;
            if self.categories[i].kind == kind {
                found.push(&self.categories[i]);
                assert(found@.map_values(|c: &Category| *c) =~= before.map_values(|c: &Category| *c).push(self.categories@[i as int]));
            }
            i = i + 1;
        }
        assert(self.categories@.take(i as int) =~= self.categories@);
        found
    }

    /// Accounts money can be spent from or land in (pots excluded).
    pub fn spendable_accounts(&self) -> (found: Vec<&Account>)
        ensures
            found@.map_values(|a: &Account| *a) == spendable_of(self.accounts@),
    {
        let mut found: Vec<&Account> = Vec::new();
        let mut i: usize = 0;
        while i < self.accounts.len()
            invariant
                i <= self.accounts@.len(),
                found@.map_values(|a: &Account| *a) == spendable_of(self.accounts@.take(i as int)),
            decreases self.accounts@.len() - i,
        {
            assert(self.accounts@.take(i + 1).drop_last() =~= self.accounts@.take(i as int));
            assert(self.accounts@.take(i + 1).last() == self.accounts@[i as int]);
            let ghost before = found@;
            if self.accounts[i].kind.is_spendable() {
                found.push(&self.accounts[i]);
                assert(found@.map_values(|a: &Account| *a) =~= before.map_values(|a: &Account| *a).push(self.accounts@[i as int]));
            }
            i = i + 1;
        }
        assert(self.accounts@.take(i as int) =~= self.accounts@);
        found
    }

    /// Invoices of `card` that still have money owed, newest last.
    pub fn payable_invoices(&self, card: CardId) -> (views: Vec<InvoiceView>)
        ensures
            views@ == payable_of(self.card_summaries@, card),
    {
        let mut i: usize = 0;
        assert(self.card_summaries@.skip(0) =~= self.card_summaries@);
        while i < self.card_summaries.len()
            invariant
                i <= self.card_summaries@.len(),
                summary_of(self.card_summaries@, card) == summary_of(self.card_summaries@.skip(i as int), card),
            decreases self.card_summaries@.len() - i,
        {
            let summary = self.card_summaries[i];
            assert(self.card_summaries@.skip(i as int)[0] == summary);
            if summary.card == card {
                let mut views: Vec<InvoiceView> = Vec::new();
                let ghost all = summary_invoices(summary);
                match summary.unpaid {
                    Some(view) => if view.statement.outstanding.0 > 0 {
                        views.push(view);
                    },
                    None => {},
                }
                match summary.current {
                    Some(view) => if view.statement.outstanding.0 > 0 {
                        views.push(view);
                    },
                    None => {},
                }
                proof {
                    reveal_with_fuel(Seq::filter, 3);
                    if summary.unpaid is Some && summary.current is Some {
                        assert(all.drop_last() =~= seq![summary.unpaid.unwrap()]);
                        assert(all.drop_last().drop_last() =~= Seq::<InvoiceView>::empty());
                    } else if summary.unpaid is Some || summary.current is Some {
                        assert(all.drop_last() =~= Seq::<InvoiceView>::empty());
                    }
                    assert(views@ =~= all.filter(|view: InvoiceView| view.statement.outstanding.0 > 0));
                }
                return views;
            }
            assert(self.card_summaries@.skip(i as int).drop_first() =~= self.card_summaries@.skip(i + 1));
            i = i + 1;
        }
        Vec::new()
    }

    /// The invoice with `id` among the loaded summaries.
    pub fn invoice(&self, id: InvoiceId) -> (view: Option<InvoiceView>)
        ensures
            view == invoice_with(all_invoices(self.card_summaries@), id),
    {
        let ghost all = all_invoices(self.card_summaries@);
        let mut i: usize = 0;
        let mut seen: Vec<InvoiceView> = Vec::new();
        while i < self.card_summaries.len()
            invariant
                i <= self.card_summaries@.len(),
                all == all_invoices(self.card_summaries@),
                seen@ == all_invoices(self.card_summaries@.take(i as int)),
            decreases self.card_summaries@.len() - i,
        {
            let summary = self.card_summaries[i];
            assert(self.card_summaries@.take(i + 1).drop_last() =~= self.card_summaries@.take(i as int));
            assert(self.card_summaries@.take(i + 1).last() == summary);
            let ghost before = seen@;
            match summary.unpaid {
                Some(view) => seen.push(view),
                None => {},
            }
            match summary.current {
                Some(view) => seen.push(view),
                None => {},
            }
            assert(seen@ =~= before + summary_invoices(summary));
            i = i + 1;
        }
        assert(self.card_summaries@.take(i as int) =~= self.card_summaries@);
        let mut k: usize = 0;
        assert(seen@.skip(0) =~= seen@);
        while k < seen.len()
            invariant
                k <= seen@.len(),
                seen@ == all_invoices(self.card_summaries@),
                invoice_with(seen@, id) == invoice_with(seen@.skip(k as int), id),
            decreases seen@.len() - k,
        {
            assert(seen@.skip(k as int)[0] == seen@[k as int]);
            if seen[k].invoice.id == id {
                return Some(seen[k]);
            }
            assert(seen@.skip(k as int).drop_first() =~= seen@.skip(k + 1));
            k = k + 1;
        }
        None
    }
}

} // verus!
