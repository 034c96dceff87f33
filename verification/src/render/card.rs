//! The card a flow is shown as: an icon and label for each answer and the
//! question being asked.

use vstd::prelude::*;

use super::catalog::{
    Catalog, account_with, all_invoices, card_with, category_with, goal_with, invoice_label,
    invoice_label_text, invoice_with, kind_name, kind_name_text, account_label_text,
    card_label_text, category_label_text, goal_label_text,
};
use super::keyboards::{keyboard_view, question_keyboard, question_rows};
use crate::calendar::{Date, day_before, previous_day};
use crate::flows::answers::{Answer, lookup};
use crate::flows::dates::{short_date, short_date_text};
use crate::flows::engine::{Awaiting, FormState};
use crate::flows::form::{Field, FormKind, form_fields, form_title};
use crate::gateway::Keyboard;
use crate::html::{escape, escaped};
use crate::model::{RecurrenceKind, RecurrenceMode};
use crate::money::{brl_text, format_brl};
use crate::numbers::{decimal, push_decimal};
use crate::text::{push_str, string_of};

verus! {

/// Icon and label shown before each answer on a card; `None` for fields
/// a card never shows.
pub open spec fn field_label(field: Field) -> Option<(Seq<char>, Seq<char>)> {
    match field {
        Field::Amount => Some(("💰"@, "Valor"@)),
        Field::Description => Some(("📝"@, "Descrição"@)),
        Field::ExpenseCategory => Some(("🏷️"@, "Categoria"@)),
        Field::IncomeCategory => Some(("🏷️"@, "Categoria"@)),
        Field::PaymentAccount => Some(("🏦"@, "Pago com"@)),
        Field::ReceivingAccount => Some(("🏦"@, "Conta"@)),
        Field::FromAccount => Some(("↗️"@, "De"@)),
        Field::ToAccount => Some(("↘️"@, "Para"@)),
        Field::Goal => Some(("🎯"@, "Meta"@)),
        Field::Date => Some(("📅"@, "Data"@)),
        Field::AccountName => Some(("✏️"@, "Nome"@)),
        Field::AccountKind => Some(("🗂️"@, "Tipo"@)),
        Field::InitialBalance => Some(("💰"@, "Saldo atual"@)),
        Field::GoalName => Some(("✏️"@, "Nome"@)),
        Field::GoalTarget => Some(("🏁"@, "Objetivo"@)),
        Field::AlreadySaved => Some(("💰"@, "Já guardado"@)),
        Field::Installments => Some(("🔢"@, "Parcelas"@)),
        Field::CardName => Some(("✏️"@, "Nome"@)),
        Field::ClosingDay => Some(("📆"@, "Fecha"@)),
        Field::DueDay => Some(("📆"@, "Vence"@)),
        Field::CardChoice => Some(("💳"@, "Cartão"@)),
        Field::InvoiceChoice => Some(("🧾"@, "Fatura"@)),
        Field::RefundTarget => Some(("↩️"@, "Volta para"@)),
        Field::RecurrenceKindChoice => Some(("🔁"@, "Tipo"@)),
        Field::RecurrenceName => Some(("✏️"@, "Nome"@)),
        Field::RecurrenceDay => Some(("📆"@, "Todo dia"@)),
        Field::RecurrenceModeChoice => Some(("⚙️"@, "Registro"@)),
        Field::BudgetLimit => Some(("🎚️"@, "Limite"@)),
        Field::GoalDeadline => Some(("📅"@, "Prazo"@)),
        Field::EditTarget => Some(("🧾"@, "Lançamento"@)),
        Field::EditFieldChoice => Some(("✏️"@, "Alterar"@)),
        Field::ActualBalance => Some(("🏦"@, "Saldo no banco"@)),
        Field::CycleStartDay => Some(("📆"@, "Início do ciclo"@)),
        Field::YesterdayReportTime => Some(("🕘"@, "Resumo de ontem"@)),
        Field::TodayReportTime => Some(("🕘"@, "Resumo de hoje"@)),
        Field::CategoryName => Some(("✏️"@, "Nome"@)),
        Field::CategoryKindChoice => Some(("🗂️"@, "Tipo"@)),
        Field::EssentialChoice => Some(("🧺"@, "Essencial"@)),
        Field::CategoryEmoji => Some(("😀"@, "Emoji"@)),
        Field::RecurrenceInstallments => Some(("🔢"@, "Parcelas"@)),
        Field::RecurrencePaid => Some(("✅"@, "Já pagas"@)),
        _ => None,
    }
}

/// Icon and label shown before each answer on a card.
pub fn field_text(field: Field) -> (text: (&'static str, &'static str))
    ensures
        (text.0@, text.1@) == match field_label(field) {
            Some(shown) => shown,
            None => ("•"@, "Campo"@),
        },
{
    match field {
        Field::Amount => ("💰", "Valor"),
        Field::Description => ("📝", "Descrição"),
        Field::ExpenseCategory => ("🏷️", "Categoria"),
        Field::IncomeCategory => ("🏷️", "Categoria"),
        Field::PaymentAccount => ("🏦", "Pago com"),
        Field::ReceivingAccount => ("🏦", "Conta"),
        Field::FromAccount => ("↗️", "De"),
        Field::ToAccount => ("↘️", "Para"),
        Field::Goal => ("🎯", "Meta"),
        Field::Date => ("📅", "Data"),
        Field::AccountName => ("✏️", "Nome"),
        Field::AccountKind => ("🗂️", "Tipo"),
        Field::InitialBalance => ("💰", "Saldo atual"),
        Field::GoalName => ("✏️", "Nome"),
        Field::GoalTarget => ("🏁", "Objetivo"),
        Field::AlreadySaved => ("💰", "Já guardado"),
        Field::Installments => ("🔢", "Parcelas"),
        Field::CardName => ("✏️", "Nome"),
        Field::ClosingDay => ("📆", "Fecha"),
        Field::DueDay => ("📆", "Vence"),
        Field::CardChoice => ("💳", "Cartão"),
        Field::InvoiceChoice => ("🧾", "Fatura"),
        Field::RefundTarget => ("↩️", "Volta para"),
        Field::RecurrenceKindChoice => ("🔁", "Tipo"),
        Field::RecurrenceName => ("✏️", "Nome"),
        Field::RecurrenceDay => ("📆", "Todo dia"),
        Field::RecurrenceModeChoice => ("⚙️", "Registro"),
        Field::BudgetLimit => ("🎚️", "Limite"),
        Field::GoalDeadline => ("📅", "Prazo"),
        Field::EditTarget => ("🧾", "Lançamento"),
        Field::EditFieldChoice => ("✏️", "Alterar"),
        Field::ActualBalance => ("🏦", "Saldo no banco"),
        Field::CycleStartDay => ("📆", "Início do ciclo"),
        Field::YesterdayReportTime => ("🕘", "Resumo de ontem"),
        Field::TodayReportTime => ("🕘", "Resumo de hoje"),
        Field::CategoryName => ("✏️", "Nome"),
        Field::CategoryKindChoice => ("🗂️", "Tipo"),
        Field::EssentialChoice => ("🧺", "Essencial"),
        Field::CategoryEmoji => ("😀", "Emoji"),
        Field::RecurrenceInstallments => ("🔢", "Parcelas"),
        Field::RecurrencePaid => ("✅", "Já pagas"),
        _ => ("•", "Campo"),
    }
}

/// The question a form asks for `field` when it differs from the usual one.
pub open spec fn form_question(form: FormKind, field: Field) -> Option<Seq<char>> {
    match (form, field) {
        (FormKind::Income, Field::Amount) => Some("Quanto entrou?"@),
        (FormKind::Transfer, Field::Amount) => Some("Quanto vai transferir?"@),
        (FormKind::PotDeposit, Field::Amount) => Some("Quanto vai guardar?"@),
        (FormKind::PotWithdraw, Field::Amount) => Some("Quanto vai resgatar?"@),
        (FormKind::PayInvoice, Field::Amount) => Some("Quanto vai pagar? Digite ou toque em Total."@),
        (FormKind::Refund, Field::Amount) => Some("Quanto voltou?"@),
        (FormKind::PayInvoice, Field::FromAccount) => Some("Pagar com qual conta?"@),
        (FormKind::PotDeposit, Field::FromAccount) => Some("De qual conta sai o dinheiro?"@),
        (FormKind::PotWithdraw, Field::ToAccount) => Some("Para qual conta volta o dinheiro?"@),
        (FormKind::NewRecurrence, Field::Amount) => Some("Qual o valor todo mês?"@),
        (FormKind::NewRecurrence, Field::ReceivingAccount) => Some("Cai em qual conta?"@),
        (FormKind::Adjust, Field::ReceivingAccount) => Some("Qual conta?"@),
        _ => None,
    }
}

/// The usual question for `field`.
pub open spec fn generic_question(field: Field) -> Option<Seq<char>> {
    match field {
        Field::Amount => Some("Quanto foi?"@),
        Field::Description => Some("Descrição? (ex.: mercado, farmácia)"@),
        Field::ExpenseCategory => Some("Qual categoria?"@),
        Field::IncomeCategory => Some("Qual categoria?"@),
        Field::PaymentAccount => Some("Pago com qual conta ou cartão?"@),
        Field::Installments => Some("Em quantas parcelas? Toque ou digite (ex.: 18)."@),
        Field::CardName => Some("Nome do cartão? (ex.: Nubank, Itaú)"@),
        Field::ClosingDay => Some("Em que dia a fatura fecha? (1 a 31)"@),
        Field::DueDay => Some("Em que dia ela vence? (1 a 31)"@),
        Field::CardChoice => Some("Qual cartão?"@),
        Field::InvoiceChoice => Some("Qual fatura?"@),
        Field::RefundTarget => Some("Para onde o dinheiro volta?"@),
        Field::ReceivingAccount => Some("Entrou em qual conta?"@),
        Field::FromAccount => Some("De qual conta sai?"@),
        Field::ToAccount => Some("Para qual conta vai?"@),
        Field::Goal => Some("Qual meta?"@),
        Field::Date => Some("Quando foi?"@),
        Field::AccountName => Some("Nome da conta? (ex.: Nubank, Carteira)"@),
        Field::AccountKind => Some("Que tipo de conta?"@),
        Field::InitialBalance => Some("Saldo atual dela? Digite o valor ou toque em Zero."@),
        Field::GoalName => Some("Nome da meta? (ex.: Casa própria)"@),
        Field::GoalTarget => Some("Quanto quer juntar?"@),
        Field::AlreadySaved => Some("Quanto já tem guardado? Digite o valor ou toque em Zero."@),
        Field::RecurrenceKindChoice => Some("É um gasto ou uma entrada?"@),
        Field::RecurrenceName => Some("Nome? (ex.: Aluguel, Salário, Netflix)"@),
        Field::RecurrenceDay => Some("Que dia do mês? (1 a 31)"@),
        Field::RecurrenceModeChoice => Some("Registro automático ou pergunto antes? (Pergunte para contas que variam, como luz.)"@),
        Field::BudgetLimit => Some("Qual o limite por ciclo? Zero remove o orçamento."@),
        Field::GoalDeadline => Some("Até quando? (dd/mm/aaaa) Ou toque em Sem prazo."@),
        Field::EditTarget => Some("Qual lançamento?"@),
        Field::EditFieldChoice => Some("O que quer alterar?"@),
        Field::ActualBalance => Some("Qual o saldo que o banco mostra?"@),
        Field::CycleStartDay => Some("Em que dia começa o ciclo? (1 a 31)"@),
        Field::YesterdayReportTime => Some("Que horas mando o resumo de ontem? (ex.: 08:00)"@),
        Field::TodayReportTime => Some("Que horas mando o resumo de hoje? (a partir das 19:00)"@),
        Field::CategoryName => Some("Nome da categoria? (ex.: Pets)"@),
        Field::CategoryKindChoice => Some("É categoria de gasto ou de entrada?"@),
        Field::EssentialChoice => Some("Faz parte do custo de vida básico?"@),
        Field::CategoryEmoji => Some("Um emoji para ela? (ex.: 🐶) Ou toque em Pular."@),
        Field::RecurrenceInstallments => Some("Quantas parcelas ao todo? Ou toque em Pular se não termina."@),
        Field::RecurrencePaid => Some("Quantas já foram pagas?"@),
        _ => None,
    }
}

fn form_question_text(form: FormKind, field: Field) -> (question: Option<&'static str>)
    ensures
        match question {
            Some(text) => form_question(form, field) == Some(text@),
            None => form_question(form, field) is None,
        },
{
    match (form, field) {
        (FormKind::Income, Field::Amount) => Some("Quanto entrou?"),
        (FormKind::Transfer, Field::Amount) => Some("Quanto vai transferir?"),
        (FormKind::PotDeposit, Field::Amount) => Some("Quanto vai guardar?"),
        (FormKind::PotWithdraw, Field::Amount) => Some("Quanto vai resgatar?"),
        (FormKind::PayInvoice, Field::Amount) => Some("Quanto vai pagar? Digite ou toque em Total."),
        (FormKind::Refund, Field::Amount) => Some("Quanto voltou?"),
        (FormKind::PayInvoice, Field::FromAccount) => Some("Pagar com qual conta?"),
        (FormKind::PotDeposit, Field::FromAccount) => Some("De qual conta sai o dinheiro?"),
        (FormKind::PotWithdraw, Field::ToAccount) => Some("Para qual conta volta o dinheiro?"),
        (FormKind::NewRecurrence, Field::Amount) => Some("Qual o valor todo mês?"),
        (FormKind::NewRecurrence, Field::ReceivingAccount) => Some("Cai em qual conta?"),
        (FormKind::Adjust, Field::ReceivingAccount) => Some("Qual conta?"),
        _ => None,
    }
}

fn generic_question_text(field: Field) -> (question: Option<&'static str>)
    ensures
        match question {
            Some(text) => generic_question(field) == Some(text@),
            None => generic_question(field) is None,
        },
{
    match field {
        Field::Amount => Some("Quanto foi?"),
        Field::Description => Some("Descrição? (ex.: mercado, farmácia)"),
        Field::ExpenseCategory => Some("Qual categoria?"),
        Field::IncomeCategory => Some("Qual categoria?"),
        Field::PaymentAccount => Some("Pago com qual conta ou cartão?"),
        Field::Installments => Some("Em quantas parcelas? Toque ou digite (ex.: 18)."),
        Field::CardName => Some("Nome do cartão? (ex.: Nubank, Itaú)"),
        Field::ClosingDay => Some("Em que dia a fatura fecha? (1 a 31)"),
        Field::DueDay => Some("Em que dia ela vence? (1 a 31)"),
        Field::CardChoice => Some("Qual cartão?"),
        Field::InvoiceChoice => Some("Qual fatura?"),
        Field::RefundTarget => Some("Para onde o dinheiro volta?"),
        Field::ReceivingAccount => Some("Entrou em qual conta?"),
        Field::FromAccount => Some("De qual conta sai?"),
        Field::ToAccount => Some("Para qual conta vai?"),
        Field::Goal => Some("Qual meta?"),
        Field::Date => Some("Quando foi?"),
        Field::AccountName => Some("Nome da conta? (ex.: Nubank, Carteira)"),
        Field::AccountKind => Some("Que tipo de conta?"),
        Field::InitialBalance => Some("Saldo atual dela? Digite o valor ou toque em Zero."),
        Field::GoalName => Some("Nome da meta? (ex.: Casa própria)"),
        Field::GoalTarget => Some("Quanto quer juntar?"),
        Field::AlreadySaved => Some("Quanto já tem guardado? Digite o valor ou toque em Zero."),
        Field::RecurrenceKindChoice => Some("É um gasto ou uma entrada?"),
        Field::RecurrenceName => Some("Nome? (ex.: Aluguel, Salário, Netflix)"),
        Field::RecurrenceDay => Some("Que dia do mês? (1 a 31)"),
        Field::RecurrenceModeChoice => Some("Registro automático ou pergunto antes? (Pergunte para contas que variam, como luz.)"),
        Field::BudgetLimit => Some("Qual o limite por ciclo? Zero remove o orçamento."),
        Field::GoalDeadline => Some("Até quando? (dd/mm/aaaa) Ou toque em Sem prazo."),
        Field::EditTarget => Some("Qual lançamento?"),
        Field::EditFieldChoice => Some("O que quer alterar?"),
        Field::ActualBalance => Some("Qual o saldo que o banco mostra?"),
        Field::CycleStartDay => Some("Em que dia começa o ciclo? (1 a 31)"),
        Field::YesterdayReportTime => Some("Que horas mando o resumo de ontem? (ex.: 08:00)"),
        Field::TodayReportTime => Some("Que horas mando o resumo de hoje? (a partir das 19:00)"),
        Field::CategoryName => Some("Nome da categoria? (ex.: Pets)"),
        Field::CategoryKindChoice => Some("É categoria de gasto ou de entrada?"),
        Field::EssentialChoice => Some("Faz parte do custo de vida básico?"),
        Field::CategoryEmoji => Some("Um emoji para ela? (ex.: 🐶) Ou toque em Pular."),
        Field::RecurrenceInstallments => Some("Quantas parcelas ao todo? Ou toque em Pular se não termina."),
        Field::RecurrencePaid => Some("Quantas já foram pagas?"),
        _ => None,
    }
}

/// The question for `field` in `form`: the form's own wording when it has
/// one, else the usual one.
pub open spec fn question_for(form: FormKind, field: Field) -> Option<Seq<char>> {
    match form_question(form, field) {
        Some(question) => Some(question),
        None => generic_question(field),
    }
}

/// The question for `field` in `form`; `?` when there is none.
pub fn field_question(form: FormKind, field: Field) -> (question: &'static str)
    ensures
        question@ == match question_for(form, field) {
            Some(text) => text,
            None => "?"@,
        },
{
    match form_question_text(form, field) {
        Some(question) => question,
        None => match generic_question_text(field) {
            Some(question) => question,
            None => "?",
        },
    }
}

pub open spec fn awaiting_question(form: FormKind, awaiting: Awaiting) -> Seq<char> {
    match awaiting {
        Awaiting::Confirmation => "Tudo certo? Toque em ✅ Confirmar."@,
        Awaiting::TypedDate => "Digite a data (dd/mm):"@,
        Awaiting::Field(field) => match question_for(form, field) {
            Some(text) => text,
            None => "?"@,
        },
    }
}

/// What the card asks while the form waits for `awaiting`.
pub fn question(form: FormKind, awaiting: Awaiting) -> (text: &'static str)
    ensures
        text@ == awaiting_question(form, awaiting),
{
    match awaiting {
        Awaiting::Confirmation => "Tudo certo? Toque em ✅ Confirmar.",
        Awaiting::TypedDate => "Digite a data (dd/mm):",
        Awaiting::Field(field) => field_question(form, field),
    }
}

/// What is missing when a question has no buttons to offer.
pub open spec fn blocked_message(awaiting: Awaiting) -> Seq<char> {
    match awaiting {
        Awaiting::Field(Field::ToAccount) => "Para isso você precisa de pelo menos duas contas. Crie outra com /novaconta."@,
        Awaiting::Field(Field::Goal) => "Nenhuma meta ainda. Crie uma com /novameta."@,
        Awaiting::Field(Field::ExpenseCategory) | Awaiting::Field(Field::IncomeCategory) => "Nenhuma categoria ativa desse tipo."@,
        Awaiting::Field(Field::CardChoice) => "Nenhum cartão ainda. Cadastre um com /novocartao."@,
        Awaiting::Field(Field::InvoiceChoice) => "Esse cartão não tem fatura com valor a pagar. 🎉"@,
        _ => "Você ainda não tem contas. Crie uma com /novaconta."@,
    }
}

/// The card shown when the flow cannot go on.
pub fn blocked_text(awaiting: Awaiting) -> (text: &'static str)
    ensures
        text@ == blocked_message(awaiting),
{
    match awaiting {
        Awaiting::Field(Field::ToAccount) => "Para isso você precisa de pelo menos duas contas. Crie outra com /novaconta.",
        Awaiting::Field(Field::Goal) => "Nenhuma meta ainda. Crie uma com /novameta.",
        Awaiting::Field(Field::ExpenseCategory) | Awaiting::Field(Field::IncomeCategory) => "Nenhuma categoria ativa desse tipo.",
        Awaiting::Field(Field::CardChoice) => "Nenhum cartão ainda. Cadastre um com /novocartao.",
        Awaiting::Field(Field::InvoiceChoice) => "Esse cartão não tem fatura com valor a pagar. 🎉",
        _ => "Você ainda não tem contas. Crie uma com /novaconta.",
    }
}

/// `hoje`, `ontem`, or the short date.
pub open spec fn relative_date_text(date: Date, today: Date) -> Seq<char> {
    if date == today {
        "hoje"@
    } else if day_before(today) == Some(date) {
        "ontem"@
    } else {
        short_date_text(date, today)
    }
}

/// How a date answer is shown: `hoje`, `ontem`, or `dd/mm`.
pub fn relative_date(date: Date, today: Date) -> (text: String)
    requires
        date.valid(),
        today.valid(),
    ensures
        text@ == relative_date_text(date, today),
{
    if date == today {
        return "hoje".to_owned();
    }
    if previous_day(today) == Some(date) {
        return "ontem".to_owned();
    }
    short_date(date, today)
}

#[derive(Clone, Debug, PartialEq, Eq)]
pub enum CardView {
    /// The card with the current question and its buttons.
    Ask { html: String, keyboard: Keyboard },
    /// The flow cannot continue; `html` says what to set up first.
    Blocked { html: String },
}

/// Everything a card needs besides the form itself.
#[derive(Clone, Copy)]
pub struct CardContext<'a> {
    pub owner: &'a str,
    pub catalog: &'a Catalog,
    pub nonce: &'a str,
    pub today: Date,
}

pub open spec fn recurrence_kind_name(kind: RecurrenceKind) -> Seq<char> {
    match kind {
        RecurrenceKind::Income => "Entrada"@,
        RecurrenceKind::Expense => "Gasto"@,
    }
}

pub open spec fn recurrence_mode_name(mode: RecurrenceMode) -> Seq<char> {
    match mode {
        RecurrenceMode::Auto => "Automático"@,
        RecurrenceMode::Confirm => "Perguntar antes"@,
    }
}

/// Every date answer is a real day (dates typed or picked always are).
pub open spec fn dates_valid(entries: Seq<(Field, Answer)>) -> bool {
    forall|i: int| 0 <= i < entries.len() ==> ((#[trigger] entries[i]).1 matches Answer::Date(date) ==> date.valid())
}

/// How an answer is shown on the card.
pub open spec fn answer_value_text(answer: Answer, catalog: Catalog, today: Date) -> Seq<char> {
    match answer {
        Answer::Money(amount) => brl_text(amount.0 as int),
        Answer::Text(text) => if text@.len() > 0 { escaped(text@) } else { "—"@ },
        Answer::Skipped => "—"@,
        Answer::Date(date) => relative_date_text(date, today),
        Answer::AccountKind(kind) => kind_name_text(kind),
        Answer::Installments(count) => decimal(count as nat) + "x"@,
        Answer::Day(day) => "dia "@ + decimal(day as nat),
        Answer::RecurrenceKind(kind) => recurrence_kind_name(kind),
        Answer::RecurrenceMode(mode) => recurrence_mode_name(mode),
        Answer::Category(id) => match category_with(catalog.categories@, id) {
            Some(found) => category_label_text(found),
            None => "categoria removida"@,
        },
        Answer::Account(id) => match account_with(catalog.accounts@, id) {
            Some(found) => account_label_text(found),
            None => "conta removida"@,
        },
        Answer::Goal(id) => match goal_with(catalog.goals@, id) {
            Some(found) => goal_label_text(found),
            None => "meta removida"@,
        },
        Answer::Card(id) => match card_with(catalog.cards@, id) {
            Some(found) => card_label_text(found),
            None => "cartão removido"@,
        },
        Answer::Invoice(id) => match invoice_with(all_invoices(catalog.card_summaries@), id) {
            Some(view) => invoice_label_text(view),
            None => "fatura"@,
        },
        _ => Seq::empty(),
    }
}

/// How an answer is shown on the card.
pub fn answer_value(answer: &Answer, context: CardContext<'_>) -> (text: String)
    requires
        context.today.valid(),
        answer matches Answer::Date(date) ==> date.valid(),
    ensures
        text@ == answer_value_text(*answer, *context.catalog, context.today),
{
    match answer {
        Answer::Money(amount) => format_brl(*amount),
        Answer::Text(text) => if text.as_str().unicode_len() > 0 {
            escape(text.as_str())
        } else {
            "—".to_owned()
        },
        Answer::Skipped => "—".to_owned(),
        Answer::Date(date) => relative_date(*date, context.today),
        Answer::AccountKind(kind) => kind_name(*kind).to_owned(),
        Answer::Installments(count) => {
            let mut out: Vec<char> = Vec::new();
            push_decimal(&mut out, *count as u64);
            push_str(&mut out, "x");
            string_of(&out)
        },
        Answer::Day(day) => {
            let mut out: Vec<char> = Vec::new();
            push_str(&mut out, "dia ");
            push_decimal(&mut out, *day as u64);
            string_of(&out)
        },
        Answer::RecurrenceKind(kind) => match kind {
            RecurrenceKind::Income => "Entrada".to_owned(),
            RecurrenceKind::Expense => "Gasto".to_owned(),
        },
        Answer::RecurrenceMode(mode) => match mode {
            RecurrenceMode::Auto => "Automático".to_owned(),
            RecurrenceMode::Confirm => "Perguntar antes".to_owned(),
        },
        Answer::Category(id) => context.catalog.category_label(*id),
        Answer::Account(id) => context.catalog.account_label(*id),
        Answer::Goal(id) => context.catalog.goal_label(*id),
        Answer::Card(id) => context.catalog.card_label(*id),
        Answer::Invoice(id) => match context.catalog.invoice(*id) {
            Some(view) => invoice_label(&view),
            None => "fatura".to_owned(),
        },
        _ => String::new(),
    }
}

/// `💰 Valor: R$ 10,50`.
pub open spec fn answer_line_text(field: Field, answer: Answer, catalog: Catalog, today: Date) -> Seq<char> {
    let shown = match field_label(field) {
        Some(shown) => shown,
        None => ("•"@, "Campo"@),
    };
    shown.0 + " "@ + shown.1 + ": "@ + answer_value_text(answer, catalog, today)
}

/// One line per answered field of `fields`, in order.
pub open spec fn answer_lines(fields: Seq<Field>, entries: Seq<(Field, Answer)>, catalog: Catalog, today: Date) -> Seq<Seq<char>>
    decreases fields.len(),
{
    if fields.len() == 0 {
        Seq::empty()
    } else {
        answer_lines(fields.drop_last(), entries, catalog, today) + match lookup(entries, fields.last()) {
            Some(answer) => seq![answer_line_text(fields.last(), answer, catalog, today)],
            None => Seq::empty(),
        }
    }
}

/// `header · owner`, then one line per answer.
pub open spec fn answered_text(state: FormState, owner: Seq<char>, catalog: Catalog, today: Date, header: Seq<char>) -> Seq<char> {
    let lines = answer_lines(form_fields(state.form), state.answers.0@, catalog, today);
    if lines.len() == 0 {
        header + " · "@ + escaped(owner)
    } else {
        header + " · "@ + escaped(owner) + "\n"@ + super::help::joined(lines, "\n"@)
    }
}

proof fn lemma_lookup_in(entries: Seq<(Field, Answer)>, field: Field)
    ensures
        lookup(entries, field) matches Some(answer) ==> exists|i: int| 0 <= i < entries.len() && entries[i] == (field, answer),
    decreases entries.len(),
{
    if entries.len() > 0 && entries[0].0 != field {
        lemma_lookup_in(entries.drop_first(), field);
        if let Some(answer) = lookup(entries, field) {
            let i = choose|i: int| 0 <= i < entries.drop_first().len() && entries.drop_first()[i] == (field, answer);
            assert(entries[i + 1] == (field, answer));
        }
    } else if entries.len() > 0 {
        assert(entries[0] == (field, entries[0].1));
    }
}

fn answered_card(state: &FormState, context: CardContext<'_>, header: &str) -> (text: String)
    requires
        context.today.valid(),
        dates_valid(state.answers.0@),
    ensures
        text@ == answered_text(*state, context.owner@, *context.catalog, context.today, header@),
{
    let fields = state.form.fields();
    let ghost entries = state.answers.0@;
    let mut lines: Vec<String> = Vec::new();
    let mut i: usize = 0;
    while i < fields.len()
        invariant
            i <= fields@.len(),
            fields@ == form_fields(state.form),
            entries == state.answers.0@,
            context.today.valid(),
            dates_valid(entries),
            lines@.map_values(|line: String| line@) == answer_lines(
                fields@.take(i as int),
                entries,
                *context.catalog,
                context.today,
            ),
        decreases fields@.len() - i,
    {
        let field = fields[i];
        assert(fields@.take(i + 1).drop_last() =~= fields@.take(i as int));
        assert(fields@.take(i + 1).last() == field);
        let ghost before = lines@;
        match state.answers.get(field) {
            Some(answer) => {
                proof {
                    lemma_lookup_in(entries, field);
                    let k = choose|k: int| 0 <= k < entries.len() && entries[k] == (field, *answer);
                    assert(entries[k].1 == *answer);
                }
                let (icon, label) = field_text(field);
                let mut line: Vec<char> = Vec::new();
                push_str(&mut line, icon);
                push_str(&mut line, " ");
                push_str(&mut line, label);
                push_str(&mut line, ": ");
                let value = answer_value(answer, context);
                push_str(&mut line, value.as_str());
                lines.push(string_of(&line));
                assert(lines@.map_values(|line: String| line@) =~= before.map_values(|line: String| line@).push(
                    answer_line_text(field, *answer, *context.catalog, context.today),
                ));
            },
            None => {},
        }
        i = i + 1;
    }
    assert(fields@.take(i as int) =~= fields@);
    let mut out: Vec<char> = Vec::new();
    push_str(&mut out, header);
    push_str(&mut out, " · ");
    let owner = escape(context.owner);
    push_str(&mut out, owner.as_str());
    if lines.len() == 0 {
        return string_of(&out);
    }
    push_str(&mut out, "\n");
    super::help::push_joined(&mut out, &lines, "\n");
    string_of(&out)
}

/// The card with the question being asked, or what to set up first when
/// the question has nothing to offer.
pub open spec fn card_view_is(view: CardView, state: FormState, owner: Seq<char>, catalog: Catalog, nonce: Seq<char>, today: Date, problem: Option<Seq<char>>) -> bool {
    match question_rows(state, catalog, nonce) {
        None => view matches CardView::Blocked { html } && html@ == blocked_message(state.awaiting),
        Some(rows) => view matches CardView::Ask { html, keyboard } && keyboard_view(keyboard) == rows
            && html@ == (match problem {
                Some(text) => "⚠️ "@ + escaped(text) + "\n\n"@,
                None => Seq::empty(),
            }) + answered_text(state, owner, catalog, today, "<b>"@ + form_title(state.form) + "</b>"@)
            + "\n\n"@ + awaiting_question(state.form, state.awaiting),
    }
}

/// The card for the current question, with `problem` on top when the last
/// input was refused.
pub fn card_view(state: &FormState, context: CardContext<'_>, problem: Option<&str>) -> (view: CardView)
    requires
        context.today.valid(),
        dates_valid(state.answers.0@),
    ensures
        card_view_is(view, *state, context.owner@, *context.catalog, context.nonce@, context.today, match problem {
            Some(text) => Some(text@),
            None => None,
        }),
{
    let keyboard = match question_keyboard(state, context.catalog, context.nonce) {
        Some(keyboard) => keyboard,
        None => return CardView::Blocked { html: blocked_text(state.awaiting).to_owned() },
    };
    let mut out: Vec<char> = Vec::new();
    match problem {
        Some(text) => {
            push_str(&mut out, "⚠️ ");
            let shown = escape(text);
            push_str(&mut out, shown.as_str());
            push_str(&mut out, "\n\n");
        },
        None => {},
    }
    let mut header: Vec<char> = Vec::new();
    push_str(&mut header, "<b>");
    push_str(&mut header, state.form.title());
    push_str(&mut header, "</b>");
    let header = string_of(&header);
    let body = answered_card(state, context, header.as_str());
    push_str(&mut out, body.as_str());
    push_str(&mut out, "\n\n");
    push_str(&mut out, question(state.form, state.awaiting));
    CardView::Ask { html: string_of(&out), keyboard }
}

/// The card after the command ran, headed by `headline`.
pub fn committed_card(state: &FormState, context: CardContext<'_>, headline: &str) -> (text: String)
    requires
        context.today.valid(),
        dates_valid(state.answers.0@),
    ensures
        text@ == answered_text(*state, context.owner@, *context.catalog, context.today, "✅ <b>"@ + headline@ + "</b>"@),
{
    let mut header: Vec<char> = Vec::new();
    push_str(&mut header, "✅ <b>");
    push_str(&mut header, headline);
    push_str(&mut header, "</b>");
    let header = string_of(&header);
    answered_card(state, context, header.as_str())
}

/// Every field any form asks has a question of its own and an icon and
/// label for the card.
pub proof fn lemma_every_field_has_text(form: FormKind)
    ensures
        forall|i: int| 0 <= i < form_fields(form).len() ==> question_for(form, #[trigger] form_fields(form)[i]) is Some
            && field_label(form_fields(form)[i]) is Some,
{
    assert forall|i: int| 0 <= i < form_fields(form).len() implies question_for(form, #[trigger] form_fields(form)[i]) is Some
        && field_label(form_fields(form)[i]) is Some by {
        match form {
            FormKind::Expense => {},
            FormKind::Income => {},
            FormKind::Transfer => {},
            FormKind::PotDeposit => {},
            FormKind::PotWithdraw => {},
            FormKind::NewAccount => {},
            FormKind::NewGoal => {},
            FormKind::NewCard => {},
            FormKind::PayInvoice => {},
            FormKind::Refund => {},
            FormKind::NewRecurrence => {},
            FormKind::SetBudget => {},
            FormKind::EditEntry => {},
            FormKind::Adjust => {},
            FormKind::Settings => {},
            FormKind::NewCategory => {},
        }
    }
}

} // verus!
