//! Turns a confirmed form into the request it stands for.

use vstd::prelude::*;

use super::answers::{Answer, Answers, lookup};
use super::engine::FormState;
use super::form::{Field, FormKind};
use crate::calendar::Date;
use crate::model::{
    AccountId, AccountKind, CardId, CategoryId, Cents, GoalId, InvoiceId, RecurrenceKind,
    RecurrenceMode,
};

verus! {

/// A day of the month, 1 to 31.
#[derive(Clone, Copy, Debug, PartialEq, Eq, Structural)]
pub struct DayOfMonth(pub u8);

impl DayOfMonth {
    pub fn new(day: u8) -> (value: Option<DayOfMonth>)
        ensures
            value == (if 1 <= day <= 31 { Some(DayOfMonth(day)) } else { None }),
    {
        if 1 <= day && day <= 31 {
            Some(DayOfMonth(day))
        } else {
            None
        }
    }
}

/// An expense, income or refund on an account.
#[derive(Clone, Debug, PartialEq, Eq)]
pub struct AccountEntry {
    pub account_id: AccountId,
    pub category_id: CategoryId,
    pub amount: Cents,
    pub description: String,
    pub date: Option<Date>,
}

#[derive(Clone, Debug, PartialEq, Eq)]
pub struct TransferEntry {
    pub from_account_id: AccountId,
    pub to_account_id: AccountId,
    pub amount: Cents,
    pub description: String,
    pub date: Option<Date>,
}

#[derive(Clone, Debug, PartialEq, Eq)]
pub enum EntryRequest {
    Expense(AccountEntry),
    Income(AccountEntry),
    Refund(AccountEntry),
    Transfer(TransferEntry),
}

/// Money into or out of a goal's pot.
#[derive(Clone, Debug, PartialEq, Eq)]
pub struct PotMove {
    pub goal_id: GoalId,
    pub account_id: AccountId,
    pub amount: Cents,
    pub description: String,
}

#[derive(Clone, Debug, PartialEq, Eq)]
pub struct OpenAccount {
    pub name: String,
    pub kind: AccountKind,
    pub initial_balance: Cents,
    pub opened_on: Option<Date>,
}

#[derive(Clone, Debug, PartialEq, Eq)]
pub struct CreateGoal {
    pub name: String,
    pub target: Cents,
    pub target_date: Option<Date>,
    pub already_saved: Cents,
}

#[derive(Clone, Debug, PartialEq, Eq)]
pub struct CardPurchaseRequest {
    pub card_id: CardId,
    pub category_id: CategoryId,
    pub total: Cents,
    pub installments: u32,
    pub first_installment_no: u32,
    pub description: String,
    pub purchased_on: Option<Date>,
}

/// A refund credited on a card invoice.
#[derive(Clone, Debug, PartialEq, Eq)]
pub struct CardCreditRequest {
    pub card_id: CardId,
    pub category_id: CategoryId,
    pub amount: Cents,
    pub description: String,
    pub date: Option<Date>,
}

#[derive(Clone, Debug, PartialEq, Eq)]
pub struct InvoicePaymentRequest {
    pub invoice_id: InvoiceId,
    pub account_id: AccountId,
    pub amount: Cents,
    pub date: Option<Date>,
}

#[derive(Clone, Debug, PartialEq, Eq)]
pub struct OpenCard {
    pub name: String,
    pub closing_day: DayOfMonth,
    pub due_day: DayOfMonth,
    pub closing_day_goes_next: bool,
    pub limit: Option<Cents>,
    pub default_payment_account_id: Option<AccountId>,
}

/// Where a recurring entry is paid from or lands.
#[derive(Clone, Copy, Debug, PartialEq, Eq, Structural)]
pub enum RecurrenceTarget {
    Account(AccountId),
    Card(CardId),
}

#[derive(Clone, Debug, PartialEq, Eq)]
pub struct CreateRecurrence {
    pub kind: RecurrenceKind,
    pub amount: Cents,
    pub description: String,
    pub category_id: CategoryId,
    pub target: RecurrenceTarget,
    pub day: DayOfMonth,
    pub mode: RecurrenceMode,
    pub starts_on: Option<Date>,
}

#[derive(Clone, Debug, PartialEq, Eq)]
pub enum FormCommand {
    Record(EntryRequest),
    PotDeposit(PotMove),
    PotWithdraw(PotMove),
    OpenAccount(OpenAccount),
    CreateGoal(CreateGoal),
    CardPurchase(CardPurchaseRequest),
    CardCredit(CardCreditRequest),
    PayInvoice(InvoicePaymentRequest),
    OpenCard(OpenCard),
    CreateRecurrence(CreateRecurrence),
    /// A zero limit removes the budget.
    SetBudget { category: CategoryId, limit: Cents },
}

pub open spec fn money_in(entries: Seq<(Field, Answer)>, field: Field) -> Option<Cents> {
    match lookup(entries, field) {
        Some(Answer::Money(amount)) => Some(amount),
        _ => None,
    }
}

pub open spec fn account_in(entries: Seq<(Field, Answer)>, field: Field) -> Option<AccountId> {
    match lookup(entries, field) {
        Some(Answer::Account(id)) => Some(id),
        _ => None,
    }
}

pub open spec fn category_in(entries: Seq<(Field, Answer)>, field: Field) -> Option<CategoryId> {
    match lookup(entries, field) {
        Some(Answer::Category(id)) => Some(id),
        _ => None,
    }
}

pub open spec fn card_in(entries: Seq<(Field, Answer)>, field: Field) -> Option<CardId> {
    match lookup(entries, field) {
        Some(Answer::Card(id)) => Some(id),
        _ => None,
    }
}

pub open spec fn day_in(entries: Seq<(Field, Answer)>, field: Field) -> Option<DayOfMonth> {
    match lookup(entries, field) {
        Some(Answer::Day(day)) => if 1 <= day <= 31 { Some(DayOfMonth(day)) } else { None },
        _ => None,
    }
}

pub open spec fn date_in(entries: Seq<(Field, Answer)>) -> Option<Date> {
    match lookup(entries, Field::Date) {
        Some(Answer::Date(date)) => Some(date),
        _ => None,
    }
}

/// A text answer; skipped reads as empty.
pub open spec fn text_in(entries: Seq<(Field, Answer)>, field: Field) -> Option<Seq<char>> {
    match lookup(entries, field) {
        Some(Answer::Text(text)) => Some(text@),
        Some(Answer::Skipped) => Some(Seq::empty()),
        _ => None,
    }
}

/// Installments of a card purchase; without the step it is paid at once.
pub open spec fn installments_in(entries: Seq<(Field, Answer)>) -> u32 {
    match lookup(entries, Field::Installments) {
        Some(Answer::Installments(count)) => count,
        Some(Answer::InstallmentsFrom { total, .. }) => total,
        _ => 1,
    }
}

/// `description` and `date` are those answered.
pub open spec fn described(entries: Seq<(Field, Answer)>, description: String, date: Option<Date>) -> bool {
    &&& text_in(entries, Field::Description) == Some(description@)
    &&& date_in(entries) is Some
    &&& date == date_in(entries)
}

pub open spec fn account_entry_ready(entries: Seq<(Field, Answer)>, category: Field, account: Field) -> bool {
    &&& account_in(entries, account) is Some
    &&& category_in(entries, category) is Some
    &&& money_in(entries, Field::Amount) is Some
    &&& text_in(entries, Field::Description) is Some
    &&& date_in(entries) is Some
}

pub open spec fn account_entry_built(
    entry: AccountEntry,
    entries: Seq<(Field, Answer)>,
    category: Field,
    account: Field,
) -> bool {
    &&& account_in(entries, account) == Some(entry.account_id)
    &&& category_in(entries, category) == Some(entry.category_id)
    &&& money_in(entries, Field::Amount) == Some(entry.amount)
    &&& described(entries, entry.description, entry.date)
}

/// A card purchase or credit needs the category, amount, description and
/// date besides the card.
pub open spec fn card_entry_ready(entries: Seq<(Field, Answer)>) -> bool {
    &&& category_in(entries, Field::ExpenseCategory) is Some
    &&& money_in(entries, Field::Amount) is Some
    &&& text_in(entries, Field::Description) is Some
    &&& date_in(entries) is Some
}

pub open spec fn recurrence_category_field(kind: RecurrenceKind) -> Field {
    match kind {
        RecurrenceKind::Income => Field::IncomeCategory,
        RecurrenceKind::Expense => Field::ExpenseCategory,
    }
}

/// An income lands on the receiving account; an expense is paid by the
/// card or else the account picked to pay it.
pub open spec fn recurrence_target_in(entries: Seq<(Field, Answer)>, kind: RecurrenceKind) -> Option<RecurrenceTarget> {
    match kind {
        RecurrenceKind::Income => match account_in(entries, Field::ReceivingAccount) {
            Some(id) => Some(RecurrenceTarget::Account(id)),
            None => None,
        },
        RecurrenceKind::Expense => match card_in(entries, Field::PaymentAccount) {
            Some(id) => Some(RecurrenceTarget::Card(id)),
            None => match account_in(entries, Field::PaymentAccount) {
                Some(id) => Some(RecurrenceTarget::Account(id)),
                None => None,
            },
        },
    }
}

pub open spec fn recurrence_kind_in(entries: Seq<(Field, Answer)>) -> Option<RecurrenceKind> {
    match lookup(entries, Field::RecurrenceKindChoice) {
        Some(Answer::RecurrenceKind(kind)) => Some(kind),
        _ => None,
    }
}

pub open spec fn recurrence_mode_in(entries: Seq<(Field, Answer)>) -> Option<RecurrenceMode> {
    match lookup(entries, Field::RecurrenceModeChoice) {
        Some(Answer::RecurrenceMode(mode)) => Some(mode),
        _ => None,
    }
}

pub open spec fn account_kind_in(entries: Seq<(Field, Answer)>) -> Option<AccountKind> {
    match lookup(entries, Field::AccountKind) {
        Some(Answer::AccountKind(kind)) => Some(kind),
        _ => None,
    }
}

pub open spec fn goal_in(entries: Seq<(Field, Answer)>) -> Option<GoalId> {
    match lookup(entries, Field::Goal) {
        Some(Answer::Goal(id)) => Some(id),
        _ => None,
    }
}

pub open spec fn invoice_in(entries: Seq<(Field, Answer)>) -> Option<InvoiceId> {
    match lookup(entries, Field::InvoiceChoice) {
        Some(Answer::Invoice(id)) => Some(id),
        _ => None,
    }
}

/// The goal deadline; skipped or missing means none.
pub open spec fn deadline_in(entries: Seq<(Field, Answer)>) -> Option<Date> {
    match lookup(entries, Field::GoalDeadline) {
        Some(Answer::Date(date)) => Some(date),
        _ => None,
    }
}

pub open spec fn recurrence_ready(entries: Seq<(Field, Answer)>) -> bool {
    match recurrence_kind_in(entries) {
        Some(kind) => {
            &&& recurrence_target_in(entries, kind) is Some
            &&& money_in(entries, Field::Amount) is Some
            &&& text_in(entries, Field::RecurrenceName) is Some
            &&& category_in(entries, recurrence_category_field(kind)) is Some
            &&& day_in(entries, Field::RecurrenceDay) is Some
            &&& recurrence_mode_in(entries) is Some
        },
        None => false,
    }
}

pub open spec fn recurrence_built(request: CreateRecurrence, entries: Seq<(Field, Answer)>) -> bool {
    &&& recurrence_kind_in(entries) == Some(request.kind)
    &&& recurrence_target_in(entries, request.kind) == Some(request.target)
    &&& money_in(entries, Field::Amount) == Some(request.amount)
    &&& text_in(entries, Field::RecurrenceName) == Some(request.description@)
    &&& category_in(entries, recurrence_category_field(request.kind)) == Some(request.category_id)
    &&& day_in(entries, Field::RecurrenceDay) == Some(request.day)
    &&& recurrence_mode_in(entries) == Some(request.mode)
    &&& request.starts_on is None
}

/// Whether the answers hold everything `form`'s request needs.
pub open spec fn command_ready(form: FormKind, entries: Seq<(Field, Answer)>) -> bool {
    match form {
        FormKind::Expense => match card_in(entries, Field::PaymentAccount) {
            Some(_) => card_entry_ready(entries),
            None => account_entry_ready(entries, Field::ExpenseCategory, Field::PaymentAccount),
        },
        FormKind::Refund => match card_in(entries, Field::RefundTarget) {
            Some(_) => card_entry_ready(entries),
            None => account_entry_ready(entries, Field::ExpenseCategory, Field::RefundTarget),
        },
        FormKind::Income => account_entry_ready(entries, Field::IncomeCategory, Field::ReceivingAccount),
        FormKind::Transfer => {
            &&& account_in(entries, Field::FromAccount) is Some
            &&& account_in(entries, Field::ToAccount) is Some
            &&& money_in(entries, Field::Amount) is Some
            &&& text_in(entries, Field::Description) is Some
            &&& date_in(entries) is Some
        },
        FormKind::PotDeposit => goal_in(entries) is Some && account_in(entries, Field::FromAccount) is Some
            && money_in(entries, Field::Amount) is Some,
        FormKind::PotWithdraw => goal_in(entries) is Some && account_in(entries, Field::ToAccount) is Some
            && money_in(entries, Field::Amount) is Some,
        FormKind::PayInvoice => {
            &&& invoice_in(entries) is Some
            &&& account_in(entries, Field::FromAccount) is Some
            &&& money_in(entries, Field::Amount) is Some
            &&& date_in(entries) is Some
        },
        FormKind::NewAccount => text_in(entries, Field::AccountName) is Some && account_kind_in(entries) is Some
            && money_in(entries, Field::InitialBalance) is Some,
        FormKind::NewGoal => text_in(entries, Field::GoalName) is Some && money_in(entries, Field::GoalTarget) is Some
            && money_in(entries, Field::AlreadySaved) is Some,
        FormKind::NewCard => text_in(entries, Field::CardName) is Some && day_in(entries, Field::ClosingDay) is Some
            && day_in(entries, Field::DueDay) is Some,
        FormKind::NewRecurrence => recurrence_ready(entries),
        FormKind::SetBudget => category_in(entries, Field::ExpenseCategory) is Some && money_in(
            entries,
            Field::BudgetLimit,
        ) is Some,
        _ => false,
    }
}

/// `command` is the request `form` stands for with these answers.
pub open spec fn command_built(form: FormKind, entries: Seq<(Field, Answer)>, command: FormCommand) -> bool {
    match form {
        FormKind::Expense => match card_in(entries, Field::PaymentAccount) {
            Some(card) => command matches FormCommand::CardPurchase(request) && {
                &&& request.card_id == card
                &&& category_in(entries, Field::ExpenseCategory) == Some(request.category_id)
                &&& money_in(entries, Field::Amount) == Some(request.total)
                &&& request.installments == installments_in(entries)
                &&& request.first_installment_no == 1
                &&& described(entries, request.description, request.purchased_on)
            },
            None => command matches FormCommand::Record(EntryRequest::Expense(entry))
                && account_entry_built(entry, entries, Field::ExpenseCategory, Field::PaymentAccount),
        },
        FormKind::Refund => match card_in(entries, Field::RefundTarget) {
            Some(card) => command matches FormCommand::CardCredit(request) && {
                &&& request.card_id == card
                &&& category_in(entries, Field::ExpenseCategory) == Some(request.category_id)
                &&& money_in(entries, Field::Amount) == Some(request.amount)
                &&& described(entries, request.description, request.date)
            },
            None => command matches FormCommand::Record(EntryRequest::Refund(entry))
                && account_entry_built(entry, entries, Field::ExpenseCategory, Field::RefundTarget),
        },
        FormKind::Income => command matches FormCommand::Record(EntryRequest::Income(entry))
            && account_entry_built(entry, entries, Field::IncomeCategory, Field::ReceivingAccount),
        FormKind::Transfer => command matches FormCommand::Record(EntryRequest::Transfer(entry)) && {
            &&& account_in(entries, Field::FromAccount) == Some(entry.from_account_id)
            &&& account_in(entries, Field::ToAccount) == Some(entry.to_account_id)
            &&& money_in(entries, Field::Amount) == Some(entry.amount)
            &&& described(entries, entry.description, entry.date)
        },
        FormKind::PotDeposit => command matches FormCommand::PotDeposit(request) && {
            &&& goal_in(entries) == Some(request.goal_id)
            &&& account_in(entries, Field::FromAccount) == Some(request.account_id)
            &&& money_in(entries, Field::Amount) == Some(request.amount)
            &&& request.description@ == Seq::<char>::empty()
        },
        FormKind::PotWithdraw => command matches FormCommand::PotWithdraw(request) && {
            &&& goal_in(entries) == Some(request.goal_id)
            &&& account_in(entries, Field::ToAccount) == Some(request.account_id)
            &&& money_in(entries, Field::Amount) == Some(request.amount)
            &&& request.description@ == Seq::<char>::empty()
        },
        FormKind::PayInvoice => command matches FormCommand::PayInvoice(request) && {
            &&& invoice_in(entries) == Some(request.invoice_id)
            &&& account_in(entries, Field::FromAccount) == Some(request.account_id)
            &&& money_in(entries, Field::Amount) == Some(request.amount)
            &&& date_in(entries) is Some && request.date == date_in(entries)
        },
        FormKind::NewAccount => command matches FormCommand::OpenAccount(request) && {
            &&& text_in(entries, Field::AccountName) == Some(request.name@)
            &&& account_kind_in(entries) == Some(request.kind)
            &&& money_in(entries, Field::InitialBalance) == Some(request.initial_balance)
            &&& request.opened_on is None
        },
        FormKind::NewGoal => command matches FormCommand::CreateGoal(request) && {
            &&& text_in(entries, Field::GoalName) == Some(request.name@)
            &&& money_in(entries, Field::GoalTarget) == Some(request.target)
            &&& request.target_date == deadline_in(entries)
            &&& money_in(entries, Field::AlreadySaved) == Some(request.already_saved)
        },
        FormKind::NewCard => command matches FormCommand::OpenCard(request) && {
            &&& text_in(entries, Field::CardName) == Some(request.name@)
            &&& day_in(entries, Field::ClosingDay) == Some(request.closing_day)
            &&& day_in(entries, Field::DueDay) == Some(request.due_day)
            &&& request.closing_day_goes_next
            &&& request.limit is None
            &&& request.default_payment_account_id is None
        },
        FormKind::NewRecurrence => command matches FormCommand::CreateRecurrence(request)
            && recurrence_built(request, entries),
        FormKind::SetBudget => command matches FormCommand::SetBudget { category, limit }
            && category_in(entries, Field::ExpenseCategory) == Some(category) && money_in(
            entries,
            Field::BudgetLimit,
        ) == Some(limit),
        _ => false,
    }
}

/// The request a confirmed form stands for; `None` when a required answer
/// is missing (the engine never confirms such a form, so this signals a
/// corrupted stored flow).
pub fn build_command(state: &FormState) -> (command: Option<FormCommand>)
    ensures
        match command {
            Some(built) => command_ready(state.form, state.answers.0@) && command_built(
                state.form,
                state.answers.0@,
                built,
            ),
            None => !command_ready(state.form, state.answers.0@),
        },
{
    let answers = &state.answers;
    match state.form {
        FormKind::Expense => expense(answers),
        FormKind::Refund => refund(answers),
        FormKind::Income => match account_entry(answers, Field::IncomeCategory, Field::ReceivingAccount) {
            Some(entry) => Some(FormCommand::Record(EntryRequest::Income(entry))),
            None => None,
        },
        FormKind::Transfer => match transfer(answers) {
            Some(entry) => Some(FormCommand::Record(EntryRequest::Transfer(entry))),
            None => None,
        },
        FormKind::PotDeposit => match pot_move(answers, Field::FromAccount) {
            Some(request) => Some(FormCommand::PotDeposit(request)),
            None => None,
        },
        FormKind::PotWithdraw => match pot_move(answers, Field::ToAccount) {
            Some(request) => Some(FormCommand::PotWithdraw(request)),
            None => None,
        },
        FormKind::PayInvoice => match pay_invoice(answers) {
            Some(request) => Some(FormCommand::PayInvoice(request)),
            None => None,
        },
        setup => setup_command(setup, answers),
    }
}

/// Forms that configure things rather than move money.
fn setup_command(form: FormKind, answers: &Answers) -> (command: Option<FormCommand>)
    requires
        form != FormKind::Expense && form != FormKind::Refund && form != FormKind::Income && form
            != FormKind::Transfer && form != FormKind::PotDeposit && form != FormKind::PotWithdraw
            && form != FormKind::PayInvoice,
    ensures
        match command {
            Some(built) => command_ready(form, answers.0@) && command_built(form, answers.0@, built),
            None => !command_ready(form, answers.0@),
        },
{
    match form {
        FormKind::NewAccount => match open_account(answers) {
            Some(request) => Some(FormCommand::OpenAccount(request)),
            None => None,
        },
        FormKind::NewGoal => match create_goal(answers) {
            Some(request) => Some(FormCommand::CreateGoal(request)),
            None => None,
        },
        FormKind::NewCard => match open_card(answers) {
            Some(request) => Some(FormCommand::OpenCard(request)),
            None => None,
        },
        FormKind::NewRecurrence => match create_recurrence(answers) {
            Some(request) => Some(FormCommand::CreateRecurrence(request)),
            None => None,
        },
        FormKind::SetBudget => {
            let category = answers.category(Field::ExpenseCategory)?;
            let limit = answers.money(Field::BudgetLimit)?;
            Some(FormCommand::SetBudget { category, limit })
        },
        _ => None,
    }
}

/// Card payments become card purchases; the rest are account expenses.
fn expense(answers: &Answers) -> (command: Option<FormCommand>)
    ensures
        match command {
            Some(built) => command_ready(FormKind::Expense, answers.0@) && command_built(
                FormKind::Expense,
                answers.0@,
                built,
            ),
            None => !command_ready(FormKind::Expense, answers.0@),
        },
{
    let card_id = match answers.card(Field::PaymentAccount) {
        Some(card_id) => card_id,
        None => {
            let entry = account_entry(answers, Field::ExpenseCategory, Field::PaymentAccount)?;
            return Some(FormCommand::Record(EntryRequest::Expense(entry)));
        },
    };
    let category_id = answers.category(Field::ExpenseCategory)?;
    let total = answers.money(Field::Amount)?;
    let installments = answers.installments();
    let description = answers.text(Field::Description)?;
    let date = answers.date()?;
    Some(
        FormCommand::CardPurchase(
            CardPurchaseRequest {
                card_id,
                category_id,
                total,
                installments,
                first_installment_no: 1,
                description,
                purchased_on: Some(date),
            },
        ),
    )
}

/// A refund goes back to a card invoice or to an account.
fn refund(answers: &Answers) -> (command: Option<FormCommand>)
    ensures
        match command {
            Some(built) => command_ready(FormKind::Refund, answers.0@) && command_built(
                FormKind::Refund,
                answers.0@,
                built,
            ),
            None => !command_ready(FormKind::Refund, answers.0@),
        },
{
    let card_id = match answers.card(Field::RefundTarget) {
        Some(card_id) => card_id,
        None => {
            let entry = account_entry(answers, Field::ExpenseCategory, Field::RefundTarget)?;
            return Some(FormCommand::Record(EntryRequest::Refund(entry)));
        },
    };
    let category_id = answers.category(Field::ExpenseCategory)?;
    let amount = answers.money(Field::Amount)?;
    let description = answers.text(Field::Description)?;
    let date = answers.date()?;
    Some(
        FormCommand::CardCredit(
            CardCreditRequest { card_id, category_id, amount, description, date: Some(date) },
        ),
    )
}

fn create_recurrence(answers: &Answers) -> (request: Option<CreateRecurrence>)
    ensures
        match request {
            Some(built) => recurrence_ready(answers.0@) && recurrence_built(built, answers.0@),
            None => !recurrence_ready(answers.0@),
        },
{
    let kind = answers.recurrence_kind()?;
    let (category, target) = match kind {
        RecurrenceKind::Income => (
            Field::IncomeCategory,
            RecurrenceTarget::Account(answers.account(Field::ReceivingAccount)?),
        ),
        RecurrenceKind::Expense => (Field::ExpenseCategory, recurrence_target(answers)?),
    };
    let amount = answers.money(Field::Amount)?;
    let description = answers.text(Field::RecurrenceName)?;
    let category_id = answers.category(category)?;
    let day = DayOfMonth::new(answers.day(Field::RecurrenceDay)?)?;
    let mode = answers.recurrence_mode()?;
    Some(CreateRecurrence { kind, amount, description, category_id, target, day, mode, starts_on: None })
}

fn recurrence_target(answers: &Answers) -> (target: Option<RecurrenceTarget>)
    ensures
        target == recurrence_target_in(answers.0@, RecurrenceKind::Expense),
{
    match answers.card(Field::PaymentAccount) {
        Some(card) => Some(RecurrenceTarget::Card(card)),
        None => match answers.account(Field::PaymentAccount) {
            Some(account) => Some(RecurrenceTarget::Account(account)),
            None => None,
        },
    }
}

fn open_card(answers: &Answers) -> (request: Option<OpenCard>)
    ensures
        match request {
            Some(built) => command_ready(FormKind::NewCard, answers.0@) && command_built(
                FormKind::NewCard,
                answers.0@,
                FormCommand::OpenCard(built),
            ),
            None => !command_ready(FormKind::NewCard, answers.0@),
        },
{
    let name = answers.text(Field::CardName)?;
    let closing_day = DayOfMonth::new(answers.day(Field::ClosingDay)?)?;
    let due_day = DayOfMonth::new(answers.day(Field::DueDay)?)?;
    Some(
        OpenCard {
            name,
            closing_day,
            due_day,
            closing_day_goes_next: true,
            limit: None,
            default_payment_account_id: None,
        },
    )
}

fn pay_invoice(answers: &Answers) -> (request: Option<InvoicePaymentRequest>)
    ensures
        match request {
            Some(built) => command_ready(FormKind::PayInvoice, answers.0@) && command_built(
                FormKind::PayInvoice,
                answers.0@,
                FormCommand::PayInvoice(built),
            ),
            None => !command_ready(FormKind::PayInvoice, answers.0@),
        },
{
    let invoice_id = answers.invoice()?;
    let account_id = answers.account(Field::FromAccount)?;
    let amount = answers.money(Field::Amount)?;
    let date = answers.date()?;
    Some(InvoicePaymentRequest { invoice_id, account_id, amount, date: Some(date) })
}

fn account_entry(answers: &Answers, category: Field, account: Field) -> (entry: Option<AccountEntry>)
    ensures
        match entry {
            Some(built) => account_entry_ready(answers.0@, category, account) && account_entry_built(
                built,
                answers.0@,
                category,
                account,
            ),
            None => !account_entry_ready(answers.0@, category, account),
        },
{
    let account_id = answers.account(account)?;
    let category_id = answers.category(category)?;
    let amount = answers.money(Field::Amount)?;
    let description = answers.text(Field::Description)?;
    let date = answers.date()?;
    Some(AccountEntry { account_id, category_id, amount, description, date: Some(date) })
}

fn transfer(answers: &Answers) -> (entry: Option<TransferEntry>)
    ensures
        match entry {
            Some(built) => command_ready(FormKind::Transfer, answers.0@) && command_built(
                FormKind::Transfer,
                answers.0@,
                FormCommand::Record(EntryRequest::Transfer(built)),
            ),
            None => !command_ready(FormKind::Transfer, answers.0@),
        },
{
    let from_account_id = answers.account(Field::FromAccount)?;
    let to_account_id = answers.account(Field::ToAccount)?;
    let amount = answers.money(Field::Amount)?;
    let description = answers.text(Field::Description)?;
    let date = answers.date()?;
    Some(TransferEntry { from_account_id, to_account_id, amount, description, date: Some(date) })
}

fn pot_move(answers: &Answers, account: Field) -> (request: Option<PotMove>)
    ensures
        match request {
            Some(built) => {
                &&& goal_in(answers.0@) == Some(built.goal_id)
                &&& account_in(answers.0@, account) == Some(built.account_id)
                &&& money_in(answers.0@, Field::Amount) == Some(built.amount)
                &&& built.description@ == Seq::<char>::empty()
            },
            None => !(goal_in(answers.0@) is Some && account_in(answers.0@, account) is Some
                && money_in(answers.0@, Field::Amount) is Some),
        },
{
    let goal_id = answers.goal()?;
    let account_id = answers.account(account)?;
    let amount = answers.money(Field::Amount)?;
    Some(PotMove { goal_id, account_id, amount, description: String::new() })
}

fn open_account(answers: &Answers) -> (request: Option<OpenAccount>)
    ensures
        match request {
            Some(built) => command_ready(FormKind::NewAccount, answers.0@) && command_built(
                FormKind::NewAccount,
                answers.0@,
                FormCommand::OpenAccount(built),
            ),
            None => !command_ready(FormKind::NewAccount, answers.0@),
        },
{
    let name = answers.text(Field::AccountName)?;
    let kind = answers.account_kind()?;
    let initial_balance = answers.money(Field::InitialBalance)?;
    Some(OpenAccount { name, kind, initial_balance, opened_on: None })
}

fn create_goal(answers: &Answers) -> (request: Option<CreateGoal>)
    ensures
        match request {
            Some(built) => command_ready(FormKind::NewGoal, answers.0@) && command_built(
                FormKind::NewGoal,
                answers.0@,
                FormCommand::CreateGoal(built),
            ),
            None => !command_ready(FormKind::NewGoal, answers.0@),
        },
{
    let name = answers.text(Field::GoalName)?;
    let target = answers.money(Field::GoalTarget)?;
    let target_date = match answers.deadline() {
        Some(Some(date)) => Some(date),
        _ => None,
    };
    let already_saved = answers.money(Field::AlreadySaved)?;
    Some(CreateGoal { name, target, target_date, already_saved })
}

/// A transfer moves money out of the account answered for "from" and into
/// the account answered for "to", by the amount answered: the request built
/// for a transfer form never swaps the two accounts.
pub proof fn lemma_transfer_direction(entries: Seq<(Field, Answer)>, built: FormCommand)
    requires
        command_built(FormKind::Transfer, entries, built),
    ensures
        built matches FormCommand::Record(EntryRequest::Transfer(entry)) && {
            &&& lookup(entries, Field::FromAccount) == Some(Answer::Account(entry.from_account_id))
            &&& lookup(entries, Field::ToAccount) == Some(Answer::Account(entry.to_account_id))
            &&& lookup(entries, Field::Amount) == Some(Answer::Money(entry.amount))
        },
{
}

} // verus!
