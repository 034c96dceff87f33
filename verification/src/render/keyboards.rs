//! Inline keyboards for each question. Every flow keyboard ends with a
//! [Cancelar] row so the couple can always back out.

use vstd::prelude::*;

use super::catalog::{
    Account, Catalog, Category, CreditCard, Goal, InvoiceView, account_label, account_label_text,
    all_invoices, card_label, card_label_text, categories_of_kind, category_label,
    category_label_text, goal_label_text, goal_with, invoice_label, invoice_label_text, invoice_with,
    kind_name, kind_name_text, payable_of, spendable_of,
};
use crate::callback_data::{ButtonValue, flow_button, flow_text};
use crate::flows::answers::Answers;
use crate::flows::command::{account_in, card_in, invoice_in};
use crate::flows::engine::{Awaiting, FormState};
use crate::flows::form::{Field, FormKind};
use crate::gateway::{Button, Keyboard};
use crate::model::{AccountId, AccountKind, CategoryKind};
use crate::money::{brl_text, format_brl};
use crate::numbers::{decimal, push_decimal};
use crate::text::{push_str, string_of};

verus! {

/// Buttons offered for a question, with their labels.
pub open spec fn choices_view(choices: Seq<(ButtonValue, String)>) -> Seq<(ButtonValue, Seq<char>)> {
    choices.map_values(|choice: (ButtonValue, String)| (choice.0, choice.1@))
}

/// A row of buttons as (label, payload).
pub open spec fn row_view(row: Seq<Button>) -> Seq<(Seq<char>, Seq<char>)> {
    row.map_values(|button: Button| (button.label@, button.data@))
}

pub open spec fn rows_view(rows: Seq<Vec<Button>>) -> Seq<Seq<(Seq<char>, Seq<char>)>> {
    rows.map_values(|row: Vec<Button>| row_view(row@))
}

/// A keyboard as rows of (label, payload).
pub open spec fn keyboard_view(keyboard: Keyboard) -> Seq<Seq<(Seq<char>, Seq<char>)>> {
    rows_view(keyboard.rows@)
}

/// `items` in rows of `per_row`, the last row possibly shorter.
pub open spec fn chunked<A>(items: Seq<A>, per_row: nat) -> Seq<Seq<A>>
    decreases items.len(),
{
    if items.len() == 0 || per_row == 0 {
        Seq::empty()
    } else if items.len() <= per_row {
        seq![items]
    } else {
        seq![items.take(per_row as int)] + chunked(items.skip(per_row as int), per_row)
    }
}

pub open spec fn cancel_label() -> Seq<char> {
    "✖️ Cancelar"@
}

/// The choices as buttons carrying `nonce`, `per_row` to a row, then the
/// [Cancelar] row.
pub open spec fn laid_out(choices: Seq<(ButtonValue, Seq<char>)>, nonce: Seq<char>, per_row: nat) -> Seq<Seq<(Seq<char>, Seq<char>)>> {
    chunked(
        choices.map_values(|choice: (ButtonValue, Seq<char>)| (choice.1, flow_text(nonce, choice.0))),
        per_row,
    ).push(seq![(cancel_label(), flow_text(nonce, ButtonValue::Cancel))])
}

/// Every laid-out keyboard ends with the [Cancelar] row.
pub proof fn lemma_keyboard_ends_with_cancel(choices: Seq<(ButtonValue, Seq<char>)>, nonce: Seq<char>, per_row: nat)
    ensures
        laid_out(choices, nonce, per_row).len() >= 1,
        laid_out(choices, nonce, per_row).last() == seq![(cancel_label(), flow_text(nonce, ButtonValue::Cancel))],
{
}

pub open spec fn confirm_choices() -> Seq<(ButtonValue, Seq<char>)> {
    seq![(ButtonValue::Confirm, "✅ Confirmar"@)]
}

/// 1x to 12x.
pub open spec fn installment_choices_spec() -> Seq<(ButtonValue, Seq<char>)> {
    Seq::new(12, |i: int| (ButtonValue::Installments((i + 1) as u32), decimal((i + 1) as nat) + "x"@))
}

pub open spec fn date_choices_spec() -> Seq<(ButtonValue, Seq<char>)> {
    seq![(ButtonValue::Today, "Hoje"@), (ButtonValue::Yesterday, "Ontem"@), (ButtonValue::OtherDate, "Outra data"@)]
}

pub open spec fn kind_choices_spec() -> Seq<(ButtonValue, Seq<char>)> {
    seq![
        (ButtonValue::Kind(AccountKind::Checking), kind_name_text(AccountKind::Checking)),
        (ButtonValue::Kind(AccountKind::Savings), kind_name_text(AccountKind::Savings)),
        (ButtonValue::Kind(AccountKind::Cash), kind_name_text(AccountKind::Cash)),
    ]
}

pub open spec fn category_choices_spec(catalog: Catalog, kind: CategoryKind) -> Seq<(ButtonValue, Seq<char>)> {
    categories_of_kind(catalog.categories@, kind).map_values(
        |category: Category| (ButtonValue::Category(category.id), category_label_text(category)),
    )
}

/// A goal's label as the catalog finds it by id.
pub open spec fn goal_button_label(catalog: Catalog, goal: Goal) -> Seq<char> {
    match goal_with(catalog.goals@, goal.id) {
        Some(found) => goal_label_text(found),
        None => "meta removida"@,
    }
}

pub open spec fn goal_choices_spec(catalog: Catalog) -> Seq<(ButtonValue, Seq<char>)> {
    catalog.goals@.map_values(|goal: Goal| (ButtonValue::Goal(goal.id), goal_button_label(catalog, goal)))
}

/// Spendable accounts other than `excluded`, in order.
pub open spec fn accounts_but(accounts: Seq<Account>, excluded: Option<AccountId>) -> Seq<Account>
    decreases accounts.len(),
{
    if accounts.len() == 0 {
        Seq::empty()
    } else if Some(accounts.last().id) != excluded {
        accounts_but(accounts.drop_last(), excluded).push(accounts.last())
    } else {
        accounts_but(accounts.drop_last(), excluded)
    }
}

pub open spec fn account_choices_spec(catalog: Catalog, excluded: Option<AccountId>) -> Seq<(ButtonValue, Seq<char>)> {
    accounts_but(spendable_of(catalog.accounts@), excluded).map_values(
        |account: Account| (ButtonValue::Account(account.id), account_label_text(account)),
    )
}

pub open spec fn card_choices_spec(catalog: Catalog) -> Seq<(ButtonValue, Seq<char>)> {
    catalog.cards@.map_values(|card: CreditCard| (ButtonValue::Card(card.id), card_label_text(card)))
}

pub open spec fn invoice_choices_spec(entries: Seq<(Field, crate::flows::answers::Answer)>, catalog: Catalog) -> Seq<(ButtonValue, Seq<char>)> {
    match card_in(entries, Field::CardChoice) {
        Some(card) => payable_of(catalog.card_summaries@, card).map_values(
            |view: InvoiceView| (ButtonValue::Invoice(view.invoice.id), invoice_label_text(view)),
        ),
        None => Seq::empty(),
    }
}

/// [Total R$ X] for the chosen invoice, when it still owes money.
pub open spec fn full_payment_spec(entries: Seq<(Field, crate::flows::answers::Answer)>, catalog: Catalog) -> Seq<(ButtonValue, Seq<char>)> {
    match invoice_in(entries) {
        Some(id) => match invoice_with(all_invoices(catalog.card_summaries@), id) {
            Some(view) => if view.statement.outstanding.0 > 0 {
                seq![(ButtonValue::Money(view.statement.outstanding), "Total "@ + brl_text(view.statement.outstanding.0 as int))]
            } else {
                Seq::empty()
            },
            None => Seq::empty(),
        },
        None => Seq::empty(),
    }
}

/// The account a transfer leaves from is not offered as its destination.
pub open spec fn excluded_source_spec(form: FormKind, entries: Seq<(Field, crate::flows::answers::Answer)>) -> Option<AccountId> {
    if form == FormKind::Transfer {
        account_in(entries, Field::FromAccount)
    } else {
        None
    }
}

/// Choices that come from the couple's own data.
pub open spec fn catalog_choices_spec(
    form: FormKind,
    field: Field,
    entries: Seq<(Field, crate::flows::answers::Answer)>,
    catalog: Catalog,
) -> Seq<(ButtonValue, Seq<char>)> {
    match field {
        Field::ExpenseCategory => category_choices_spec(catalog, CategoryKind::Expense),
        Field::IncomeCategory => category_choices_spec(catalog, CategoryKind::Income),
        Field::Goal => goal_choices_spec(catalog),
        Field::ToAccount => account_choices_spec(catalog, excluded_source_spec(form, entries)),
        Field::CardChoice => card_choices_spec(catalog),
        Field::InvoiceChoice => invoice_choices_spec(entries, catalog),
        Field::RefundTarget => account_choices_spec(catalog, None) + card_choices_spec(catalog),
        Field::PaymentAccount => if form == FormKind::Expense {
            account_choices_spec(catalog, None) + card_choices_spec(catalog)
        } else {
            account_choices_spec(catalog, None)
        },
        _ => account_choices_spec(catalog, None),
    }
}

/// Fields answered by typing; they only get the cancel button.
pub open spec fn typed_field(field: Field) -> bool {
    ||| field == Field::Amount
    ||| field == Field::GoalTarget
    ||| field == Field::AccountName
    ||| field == Field::GoalName
    ||| field == Field::CardName
    ||| field == Field::ClosingDay
    ||| field == Field::DueDay
    ||| field == Field::Installments
}

/// The buttons for `field`; `None` when there is nothing to pick from.
pub open spec fn field_choices_spec(
    form: FormKind,
    field: Field,
    entries: Seq<(Field, crate::flows::answers::Answer)>,
    catalog: Catalog,
) -> Option<Seq<(ButtonValue, Seq<char>)>> {
    if field == Field::Amount && form == FormKind::PayInvoice {
        Some(full_payment_spec(entries, catalog))
    } else if field == Field::Description {
        Some(seq![(ButtonValue::Skip, "Pular"@)])
    } else if field == Field::InitialBalance || field == Field::AlreadySaved {
        Some(seq![(ButtonValue::Skip, "Zero"@)])
    } else if field == Field::Date {
        Some(date_choices_spec())
    } else if field == Field::AccountKind {
        Some(kind_choices_spec())
    } else if typed_field(field) {
        Some(Seq::empty())
    } else if catalog_choices_spec(form, field, entries, catalog).len() == 0 {
        None
    } else {
        Some(catalog_choices_spec(form, field, entries, catalog))
    }
}

/// The keyboard for what `state` waits for, or `None` when the flow cannot
/// go on.
pub open spec fn question_rows(state: FormState, catalog: Catalog, nonce: Seq<char>) -> Option<Seq<Seq<(Seq<char>, Seq<char>)>>> {
    match state.awaiting {
        Awaiting::Confirmation => Some(laid_out(confirm_choices(), nonce, 2)),
        Awaiting::TypedDate => Some(laid_out(Seq::empty(), nonce, 2)),
        Awaiting::Field(Field::Installments) => Some(laid_out(installment_choices_spec(), nonce, 4)),
        Awaiting::Field(field) => match field_choices_spec(state.form, field, state.answers.0@, catalog) {
            Some(choices) => Some(laid_out(choices, nonce, 2)),
            None => None,
        },
    }
}

/// Fields answered by typing; they only get the cancel button.
pub fn typed_only(field: Field) -> (typed: bool)
    ensures
        typed == typed_field(field),
{
    match field {
        Field::Amount | Field::GoalTarget | Field::AccountName | Field::GoalName | Field::CardName
        | Field::ClosingDay | Field::DueDay | Field::Installments => true,
        _ => false,
    }
}

fn one_choice(value: ButtonValue, label: &str) -> (choices: Vec<(ButtonValue, String)>)
    ensures
        choices_view(choices@) == seq![(value, label@)],
{
    let choices = vec![(value, label.to_owned())];
    assert(choices_view(choices@) =~= seq![(value, label@)]);
    choices
}

fn installment_choices() -> (choices: Vec<(ButtonValue, String)>)
    ensures
        choices_view(choices@) == installment_choices_spec(),
{
    let mut choices: Vec<(ButtonValue, String)> = Vec::new();
    let mut count: u32 = 1;
    while count <= 12
        invariant
            1 <= count <= 13,
            choices_view(choices@) == installment_choices_spec().take(count - 1),
        decreases 13 - count,
    {
        let mut label: Vec<char> = Vec::new();
        push_decimal(&mut label, count as u64);
        push_str(&mut label, "x");
        let ghost before = choices@;
        choices.push((ButtonValue::Installments(count), string_of(&label)));
        assert(choices_view(choices@) =~= choices_view(before).push(installment_choices_spec()[count - 1]));
        assert(installment_choices_spec().take(count as int) =~= installment_choices_spec().take(count - 1).push(
            installment_choices_spec()[count - 1],
        ));
        count = count + 1;
    }
    assert(installment_choices_spec().take(12) =~= installment_choices_spec());
    choices
}

fn date_choices() -> (choices: Vec<(ButtonValue, String)>)
    ensures
        choices_view(choices@) == date_choices_spec(),
{
    let choices = vec![
        (ButtonValue::Today, "Hoje".to_owned()),
        (ButtonValue::Yesterday, "Ontem".to_owned()),
        (ButtonValue::OtherDate, "Outra data".to_owned()),
    ];
    assert(choices_view(choices@) =~= date_choices_spec());
    choices
}

fn kind_choices() -> (choices: Vec<(ButtonValue, String)>)
    ensures
        choices_view(choices@) == kind_choices_spec(),
{
    let choices = vec![
        (ButtonValue::Kind(AccountKind::Checking), kind_name(AccountKind::Checking).to_owned()),
        (ButtonValue::Kind(AccountKind::Savings), kind_name(AccountKind::Savings).to_owned()),
        (ButtonValue::Kind(AccountKind::Cash), kind_name(AccountKind::Cash).to_owned()),
    ];
    assert(choices_view(choices@) =~= kind_choices_spec());
    choices
}

fn category_choices(catalog: &Catalog, kind: CategoryKind) -> (choices: Vec<(ButtonValue, String)>)
    ensures
        choices_view(choices@) == category_choices_spec(*catalog, kind),
{
    let categories = catalog.categories_of(kind);
    let ghost shown = categories_of_kind(catalog.categories@, kind);
    let mut choices: Vec<(ButtonValue, String)> = Vec::new();
    let mut i: usize = 0;
    while i < categories.len()
        invariant
            i <= categories@.len(),
            categories@.map_values(|c: &Category| *c) == shown,
            shown == categories_of_kind(catalog.categories@, kind),
            choices_view(choices@) == shown.take(i as int).map_values(
                |category: Category| (ButtonValue::Category(category.id), category_label_text(category)),
            ),
        decreases categories@.len() - i,
    {
        let category = categories[i];
        assert(*category == shown[i as int]);
        let ghost before = choices@;
        choices.push((ButtonValue::Category(category.id), category_label(category)));
        assert(choices_view(choices@) =~= choices_view(before).push(
            (ButtonValue::Category(shown[i as int].id), category_label_text(shown[i as int])),
        ));
        assert(shown.take(i + 1) =~= shown.take(i as int).push(shown[i as int]));
        i = i + 1;
    }
    assert(shown.take(i as int) =~= shown);
    choices
}

fn goal_choices(catalog: &Catalog) -> (choices: Vec<(ButtonValue, String)>)
    ensures
        choices_view(choices@) == goal_choices_spec(*catalog),
{
    let mut choices: Vec<(ButtonValue, String)> = Vec::new();
    let mut i: usize = 0;
    while i < catalog.goals.len()
        invariant
            i <= catalog.goals@.len(),
            choices_view(choices@) == catalog.goals@.take(i as int).map_values(
                |goal: Goal| (ButtonValue::Goal(goal.id), goal_button_label(*catalog, goal)),
            ),
        decreases catalog.goals@.len() - i,
    {
        let id = catalog.goals[i].id;
        let ghost before = choices@;
        choices.push((ButtonValue::Goal(id), catalog.goal_label(id)));
        assert(choices_view(choices@) =~= choices_view(before).push(
            (ButtonValue::Goal(catalog.goals@[i as int].id), goal_button_label(*catalog, catalog.goals@[i as int])),
        ));
        assert(catalog.goals@.take(i + 1) =~= catalog.goals@.take(i as int).push(catalog.goals@[i as int]));
        i = i + 1;
    }
    assert(catalog.goals@.take(i as int) =~= catalog.goals@);
    choices
}

fn account_choices(catalog: &Catalog, excluded: Option<AccountId>) -> (choices: Vec<(ButtonValue, String)>)
    ensures
        choices_view(choices@) == account_choices_spec(*catalog, excluded),
{
    let accounts = catalog.spendable_accounts();
    let ghost spendable = spendable_of(catalog.accounts@);
    let mut choices: Vec<(ButtonValue, String)> = Vec::new();
    let mut i: usize = 0;
    while i < accounts.len()
        invariant
            i <= accounts@.len(),
            accounts@.map_values(|a: &Account| *a) == spendable,
            spendable == spendable_of(catalog.accounts@),
            choices_view(choices@) == accounts_but(spendable.take(i as int), excluded).map_values(
                |account: Account| (ButtonValue::Account(account.id), account_label_text(account)),
            ),
        decreases accounts@.len() - i,
    {
        let account = accounts[i];
        assert(*account == spendable[i as int]);
        assert(spendable.take(i + 1).drop_last() =~= spendable.take(i as int));
        assert(spendable.take(i + 1).last() == spendable[i as int]);
        let ghost before = choices@;
        if Some(account.id) != excluded {
            choices.push((ButtonValue::Account(account.id), account_label(account)));
            assert(choices_view(choices@) =~= choices_view(before).push(
                (ButtonValue::Account(spendable[i as int].id), account_label_text(spendable[i as int])),
            ));
        }
        i = i + 1;
    }
    assert(spendable.take(i as int) =~= spendable);
    choices
}

fn card_choices(catalog: &Catalog) -> (choices: Vec<(ButtonValue, String)>)
    ensures
        choices_view(choices@) == card_choices_spec(*catalog),
{
    let mut choices: Vec<(ButtonValue, String)> = Vec::new();
    let mut i: usize = 0;
    while i < catalog.cards.len()
        invariant
            i <= catalog.cards@.len(),
            choices_view(choices@) == catalog.cards@.take(i as int).map_values(
                |card: CreditCard| (ButtonValue::Card(card.id), card_label_text(card)),
            ),
        decreases catalog.cards@.len() - i,
    {
        let card = &catalog.cards[i];
        let ghost before = choices@;
        choices.push((ButtonValue::Card(card.id), card_label(card)));
        assert(choices_view(choices@) =~= choices_view(before).push(
            (ButtonValue::Card(catalog.cards@[i as int].id), card_label_text(catalog.cards@[i as int])),
        ));
        assert(catalog.cards@.take(i + 1) =~= catalog.cards@.take(i as int).push(catalog.cards@[i as int]));
        i = i + 1;
    }
    assert(catalog.cards@.take(i as int) =~= catalog.cards@);
    choices
}

fn invoice_choices(answers: &Answers, catalog: &Catalog) -> (choices: Vec<(ButtonValue, String)>)
    ensures
        choices_view(choices@) == invoice_choices_spec(answers.0@, *catalog),
{
    let card = match answers.card(Field::CardChoice) {
        Some(card) => card,
        None => {
            let choices: Vec<(ButtonValue, String)> = Vec::new();
            assert(choices_view(choices@) =~= Seq::<(ButtonValue, Seq<char>)>::empty());
            return choices;
        },
    };
    let views = catalog.payable_invoices(card);
    let mut choices: Vec<(ButtonValue, String)> = Vec::new();
    let mut i: usize = 0;
    while i < views.len()
        invariant
            i <= views@.len(),
            choices_view(choices@) == views@.take(i as int).map_values(
                |view: InvoiceView| (ButtonValue::Invoice(view.invoice.id), invoice_label_text(view)),
            ),
        decreases views@.len() - i,
    {
        let view = views[i];
        let ghost before = choices@;
        choices.push((ButtonValue::Invoice(view.invoice.id), invoice_label(&view)));
        assert(choices_view(choices@) =~= choices_view(before).push(
            (ButtonValue::Invoice(views@[i as int].invoice.id), invoice_label_text(views@[i as int])),
        ));
        assert(views@.take(i + 1) =~= views@.take(i as int).push(views@[i as int]));
        i = i + 1;
    }
    assert(views@.take(i as int) =~= views@);
    choices
}

/// [Total R$ X] for the chosen invoice, when it still owes money.
fn full_payment_choice(answers: &Answers, catalog: &Catalog) -> (choices: Vec<(ButtonValue, String)>)
    ensures
        choices_view(choices@) == full_payment_spec(answers.0@, *catalog),
{
    let owed = match answers.invoice() {
        Some(id) => match catalog.invoice(id) {
            Some(view) => if view.statement.outstanding.is_positive() {
                Some(view.statement.outstanding)
            } else {
                None
            },
            None => None,
        },
        None => None,
    };
    match owed {
        Some(amount) => {
            let mut label: Vec<char> = Vec::new();
            push_str(&mut label, "Total ");
            let shown = format_brl(amount);
            push_str(&mut label, shown.as_str());
            let choices = vec![(ButtonValue::Money(amount), string_of(&label))];
            assert(choices_view(choices@) =~= full_payment_spec(answers.0@, *catalog));
            choices
        },
        None => {
            let choices: Vec<(ButtonValue, String)> = Vec::new();
            assert(choices_view(choices@) =~= full_payment_spec(answers.0@, *catalog));
            choices
        },
    }
}

fn excluded_source(form: FormKind, answers: &Answers) -> (excluded: Option<AccountId>)
    ensures
        excluded == excluded_source_spec(form, answers.0@),
{
    if form == FormKind::Transfer {
        answers.account(Field::FromAccount)
    } else {
        None
    }
}

fn joined_choices(first: Vec<(ButtonValue, String)>, second: Vec<(ButtonValue, String)>) -> (choices: Vec<(ButtonValue, String)>)
    ensures
        choices_view(choices@) == choices_view(first@) + choices_view(second@),
{
    let mut choices = first;
    let mut rest = second;
    let ghost start = choices@;
    choices.append(&mut rest);
    assert(choices_view(choices@) =~= choices_view(start) + choices_view(second@));
    choices
}

/// Choices that come from the couple's own data.
fn catalog_choices(form: FormKind, field: Field, answers: &Answers, catalog: &Catalog) -> (choices: Vec<(ButtonValue, String)>)
    ensures
        choices_view(choices@) == catalog_choices_spec(form, field, answers.0@, *catalog),
{
    match field {
        Field::ExpenseCategory => category_choices(catalog, CategoryKind::Expense),
        Field::IncomeCategory => category_choices(catalog, CategoryKind::Income),
        Field::Goal => goal_choices(catalog),
        Field::ToAccount => account_choices(catalog, excluded_source(form, answers)),
        Field::CardChoice => card_choices(catalog),
        Field::InvoiceChoice => invoice_choices(answers, catalog),
        Field::RefundTarget => joined_choices(account_choices(catalog, None), card_choices(catalog)),
        Field::PaymentAccount => if form == FormKind::Expense {
            joined_choices(account_choices(catalog, None), card_choices(catalog))
        } else {
            account_choices(catalog, None)
        },
        _ => account_choices(catalog, None),
    }
}

fn field_choices(form: FormKind, field: Field, answers: &Answers, catalog: &Catalog) -> (choices: Option<Vec<(ButtonValue, String)>>)
    ensures
        match choices {
            Some(found) => field_choices_spec(form, field, answers.0@, *catalog) == Some(choices_view(found@)),
            None => field_choices_spec(form, field, answers.0@, *catalog) is None,
        },
{
    if field == Field::Amount && form == FormKind::PayInvoice {
        return Some(full_payment_choice(answers, catalog));
    }
    let choices = if field == Field::Description {
        one_choice(ButtonValue::Skip, "Pular")
    } else if field == Field::InitialBalance || field == Field::AlreadySaved {
        one_choice(ButtonValue::Skip, "Zero")
    } else if field == Field::Date {
        date_choices()
    } else if field == Field::AccountKind {
        kind_choices()
    } else if typed_only(field) {
        let none: Vec<(ButtonValue, String)> = Vec::new();
        assert(choices_view(none@) =~= Seq::<(ButtonValue, Seq<char>)>::empty());
        return Some(none);
    } else {
        let found = catalog_choices(form, field, answers, catalog);
        if found.len() == 0 {
            return None;
        }
        found
    };
    Some(choices)
}

/// `per_row` buttons per row, then the cancel row.
fn with_cancel(choices: Vec<(ButtonValue, String)>, nonce: &str, per_row: usize) -> (keyboard: Keyboard)
    requires
        per_row > 0,
    ensures
        keyboard_view(keyboard) == laid_out(choices_view(choices@), nonce@, per_row as nat),
{
    let ghost buttons = choices_view(choices@).map_values(
        |choice: (ButtonValue, Seq<char>)| (choice.1, flow_text(nonce@, choice.0)),
    );
    let n = choices.len();
    let mut rows: Vec<Vec<Button>> = Vec::new();
    let mut start: usize = 0;
    assert(buttons.skip(0) =~= buttons);
    while start < n
        invariant
            start <= n,
            n == choices@.len(),
            per_row > 0,
            buttons == choices_view(choices@).map_values(
                |choice: (ButtonValue, Seq<char>)| (choice.1, flow_text(nonce@, choice.0)),
            ),
            chunked(buttons, per_row as nat) == rows_view(rows@) + chunked(
                buttons.skip(start as int),
                per_row as nat,
            ),
        decreases n - start,
    {
        let end = if n - start <= per_row {
            n
        } else {
            start + per_row
        };
        let mut row: Vec<Button> = Vec::new();
        let mut k = start;
        while k < end
            invariant
                start <= k <= end <= n,
                n == choices@.len(),
                buttons == choices_view(choices@).map_values(
                    |choice: (ButtonValue, Seq<char>)| (choice.1, flow_text(nonce@, choice.0)),
                ),
                row_view(row@) == buttons.subrange(start as int, k as int),
            decreases end - k,
        {
            let label = choices[k].1.clone();
            let data = flow_button(nonce, choices[k].0);
            let ghost before = row@;
            row.push(Button { label, data });
            assert(row_view(row@) =~= row_view(before).push(buttons[k as int]));
            assert(buttons.subrange(start as int, k + 1) =~= buttons.subrange(start as int, k as int).push(
                buttons[k as int],
            ));
            k = k + 1;
        }
        proof {
            let rest = buttons.skip(start as int);
            assert(buttons.subrange(start as int, end as int) =~= rest.take(end - start));
            assert(rest.skip(end - start) =~= buttons.skip(end as int));
            if end == n {
                assert(rest.take(end - start) =~= rest);
                assert(buttons.skip(end as int).len() == 0);
                assert(chunked(rest, per_row as nat) == seq![rest]);
                assert(chunked(buttons.skip(end as int), per_row as nat) =~= Seq::<Seq<(Seq<char>, Seq<char>)>>::empty());
            }
            assert(chunked(rest, per_row as nat) =~= seq![rest.take(end - start)] + chunked(
                buttons.skip(end as int),
                per_row as nat,
            ));
        }
        let ghost before_rows = rows@;
        rows.push(row);
        proof {
            assert(rows_view(rows@) =~= rows_view(before_rows).push(buttons.subrange(start as int, end as int)));
            assert(rows_view(before_rows) + (seq![buttons.subrange(start as int, end as int)] + chunked(
                buttons.skip(end as int),
                per_row as nat,
            )) =~= rows_view(rows@) + chunked(buttons.skip(end as int), per_row as nat));
        }
        start = end;
    }
    proof {
        assert(buttons.skip(start as int).len() == 0);
        assert(chunked(buttons, per_row as nat) =~= rows_view(rows@));
    }
    let cancel = Button { label: "✖️ Cancelar".to_owned(), data: flow_button(nonce, ButtonValue::Cancel) };
    let ghost before_rows = rows@;
    rows.push(vec![cancel]);
    proof {
        assert(row_view(rows@[rows@.len() - 1]@) =~= seq![(cancel_label(), flow_text(nonce@, ButtonValue::Cancel))]);
        assert(rows_view(rows@) =~= rows_view(before_rows).push(
            seq![(cancel_label(), flow_text(nonce@, ButtonValue::Cancel))],
        ));
    }
    Keyboard { rows }
}

/// Buttons for the current question; `None` when the flow cannot go on
/// (for example, no accounts exist yet).
pub fn question_keyboard(state: &FormState, catalog: &Catalog, nonce: &str) -> (keyboard: Option<Keyboard>)
    ensures
        match keyboard {
            Some(shown) => question_rows(*state, *catalog, nonce@) == Some(keyboard_view(shown)),
            None => question_rows(*state, *catalog, nonce@) is None,
        },
{
    let (choices, per_row) = match state.awaiting {
        Awaiting::Confirmation => (one_choice(ButtonValue::Confirm, "✅ Confirmar"), 2),
        Awaiting::TypedDate => {
            let none: Vec<(ButtonValue, String)> = Vec::new();
            assert(choices_view(none@) =~= Seq::<(ButtonValue, Seq<char>)>::empty());
            (none, 2)
        },
        Awaiting::Field(Field::Installments) => (installment_choices(), 4),
        Awaiting::Field(field) => match field_choices(state.form, field, &state.answers, catalog) {
            Some(choices) => (choices, 2),
            None => return None,
        },
    };
    Some(with_cancel(choices, nonce, per_row))
}

} // verus!
