//! The guided commands and the fields each one asks.

use vstd::prelude::*;

use super::answers::{Answers, EditChoice, lookup, Answer};
use crate::model::{CategoryKind, RecurrenceKind};
use crate::text::range_is;

verus! {

/// The guided commands. Each is a fixed sequence of [`Field`]s.
#[derive(Clone, Copy, Debug, PartialEq, Eq, Hash, Structural)]
pub enum FormKind {
    Expense,
    Income,
    Transfer,
    PotDeposit,
    PotWithdraw,
    NewAccount,
    NewGoal,
    NewCard,
    PayInvoice,
    Refund,
    NewRecurrence,
    SetBudget,
    /// Started from `/ultimos`, never by typing a command.
    EditEntry,
    /// Makes an account's balance match the bank.
    Adjust,
    Settings,
    NewCategory,
}

#[derive(Clone, Copy, Debug, PartialEq, Eq, Hash, Structural)]
pub enum Field {
    Amount,
    Description,
    ExpenseCategory,
    IncomeCategory,
    /// Where an expense is paid from.
    PaymentAccount,
    /// Where income lands.
    ReceivingAccount,
    FromAccount,
    ToAccount,
    Goal,
    Date,
    AccountName,
    AccountKind,
    /// Zero allowed.
    InitialBalance,
    GoalName,
    GoalTarget,
    /// Zero allowed.
    AlreadySaved,
    /// Only asked when the expense is paid with a card.
    Installments,
    CardName,
    ClosingDay,
    DueDay,
    /// Which card's invoice to pay.
    CardChoice,
    InvoiceChoice,
    /// Where a refund goes back to: an account or a card.
    RefundTarget,
    RecurrenceKindChoice,
    RecurrenceName,
    RecurrenceDay,
    RecurrenceModeChoice,
    /// Zero (or the remove button) removes the budget.
    BudgetLimit,
    /// Optional; skipped means no deadline.
    GoalDeadline,
    /// Filled in when the edit starts.
    EditTarget,
    EditFieldChoice,
    /// The balance the bank shows; may be zero or negative.
    ActualBalance,
    /// Skippable, like the report times: skipped keeps the current value.
    CycleStartDay,
    /// Any hour.
    YesterdayReportTime,
    /// 19:00 or later.
    TodayReportTime,
    CategoryName,
    CategoryKindChoice,
    /// Only asked for expense categories.
    EssentialChoice,
    /// Total installments of a financing; skipped means it never ends.
    RecurrenceInstallments,
    /// Installments of that financing already paid; only asked with a total.
    RecurrencePaid,
    /// Optional; skipped means no emoji.
    CategoryEmoji,
    /// Which kind of record `/editar` changes.
    RecordKindChoice,
    /// Which field of that record.
    RecordFieldChoice,
    /// The recurring entry being changed.
    RecordTarget,
}

/// The fields of each form, in the order they are asked.
pub open spec fn form_fields(form: FormKind) -> Seq<Field> {
    match form {
        FormKind::Expense => seq![Field::Amount, Field::Description, Field::ExpenseCategory, Field::PaymentAccount, Field::Installments, Field::Date],
        FormKind::Income => seq![Field::Amount, Field::Description, Field::IncomeCategory, Field::ReceivingAccount, Field::Date],
        FormKind::Transfer => seq![Field::Amount, Field::FromAccount, Field::ToAccount, Field::Description, Field::Date],
        FormKind::PotDeposit => seq![Field::Goal, Field::Amount, Field::FromAccount],
        FormKind::PotWithdraw => seq![Field::Goal, Field::Amount, Field::ToAccount],
        FormKind::NewAccount => seq![Field::AccountName, Field::AccountKind, Field::InitialBalance],
        FormKind::NewGoal => seq![Field::GoalName, Field::GoalTarget, Field::AlreadySaved, Field::GoalDeadline],
        FormKind::NewCard => seq![Field::CardName, Field::ClosingDay, Field::DueDay],
        FormKind::PayInvoice => seq![Field::CardChoice, Field::InvoiceChoice, Field::Amount, Field::FromAccount, Field::Date],
        FormKind::Refund => seq![Field::Amount, Field::Description, Field::ExpenseCategory, Field::RefundTarget, Field::Date],
        FormKind::NewRecurrence => seq![Field::RecurrenceKindChoice, Field::RecurrenceName, Field::Amount, Field::ExpenseCategory, Field::IncomeCategory, Field::PaymentAccount, Field::ReceivingAccount, Field::RecurrenceDay, Field::RecurrenceInstallments, Field::RecurrencePaid, Field::RecurrenceModeChoice],
        FormKind::SetBudget => seq![Field::ExpenseCategory, Field::BudgetLimit],
        FormKind::EditEntry => seq![Field::EditTarget, Field::EditFieldChoice, Field::Amount, Field::Description, Field::ExpenseCategory, Field::IncomeCategory, Field::Date],
        FormKind::Adjust => seq![Field::ReceivingAccount, Field::ActualBalance],
        FormKind::Settings => seq![Field::CycleStartDay, Field::YesterdayReportTime, Field::TodayReportTime],
        FormKind::NewCategory => seq![Field::CategoryName, Field::CategoryKindChoice, Field::EssentialChoice, Field::CategoryEmoji],
    }
}

pub open spec fn form_command(form: FormKind) -> Seq<char> {
    match form {
        FormKind::Expense => "gasto"@,
        FormKind::Income => "entrada"@,
        FormKind::Transfer => "transferir"@,
        FormKind::PotDeposit => "guardar"@,
        FormKind::PotWithdraw => "resgatar"@,
        FormKind::NewAccount => "novaconta"@,
        FormKind::NewGoal => "novameta"@,
        FormKind::NewCard => "novocartao"@,
        FormKind::PayInvoice => "pagarfatura"@,
        FormKind::Refund => "estorno"@,
        FormKind::NewRecurrence => "recorrente"@,
        FormKind::SetBudget => "orcamento"@,
        FormKind::EditEntry => "editar"@,
        FormKind::Adjust => "ajuste"@,
        FormKind::Settings => "config"@,
        FormKind::NewCategory => "novacategoria"@,
    }
}

pub open spec fn form_title(form: FormKind) -> Seq<char> {
    match form {
        FormKind::Expense => "Novo gasto"@,
        FormKind::Income => "Nova entrada"@,
        FormKind::Transfer => "Transferência"@,
        FormKind::PotDeposit => "Guardar na meta"@,
        FormKind::PotWithdraw => "Resgatar da meta"@,
        FormKind::NewAccount => "Nova conta"@,
        FormKind::NewGoal => "Nova meta"@,
        FormKind::NewCard => "Novo cartão"@,
        FormKind::PayInvoice => "Pagar fatura"@,
        FormKind::Refund => "Estorno"@,
        FormKind::NewRecurrence => "Nova recorrência"@,
        FormKind::SetBudget => "Orçamento mensal"@,
        FormKind::EditEntry => "Editar lançamento"@,
        FormKind::Adjust => "Ajustar saldo"@,
        FormKind::Settings => "Configurações"@,
        FormKind::NewCategory => "Nova categoria"@,
    }
}

/// The forms in their fixed order.
pub open spec fn all_forms() -> Seq<FormKind> {
    seq![FormKind::Expense, FormKind::Income, FormKind::Transfer, FormKind::PotDeposit, FormKind::PotWithdraw, FormKind::NewAccount, FormKind::NewGoal, FormKind::NewCard, FormKind::PayInvoice, FormKind::Refund, FormKind::NewRecurrence, FormKind::SetBudget, FormKind::EditEntry, FormKind::Adjust, FormKind::Settings, FormKind::NewCategory]
}

impl FormKind {
    /// Every form, in the order the command list shows them.
    pub fn all() -> (forms: Vec<FormKind>)
        ensures
            forms@ == all_forms(),
    {
        vec![FormKind::Expense, FormKind::Income, FormKind::Transfer, FormKind::PotDeposit, FormKind::PotWithdraw, FormKind::NewAccount, FormKind::NewGoal, FormKind::NewCard, FormKind::PayInvoice, FormKind::Refund, FormKind::NewRecurrence, FormKind::SetBudget, FormKind::EditEntry, FormKind::Adjust, FormKind::Settings, FormKind::NewCategory]
    }

    pub fn fields(self) -> (fields: Vec<Field>)
        ensures
            fields@ == form_fields(self),
    {
        match self {
            FormKind::Expense => vec![Field::Amount, Field::Description, Field::ExpenseCategory, Field::PaymentAccount, Field::Installments, Field::Date],
            FormKind::Income => vec![Field::Amount, Field::Description, Field::IncomeCategory, Field::ReceivingAccount, Field::Date],
            FormKind::Transfer => vec![Field::Amount, Field::FromAccount, Field::ToAccount, Field::Description, Field::Date],
            FormKind::PotDeposit => vec![Field::Goal, Field::Amount, Field::FromAccount],
            FormKind::PotWithdraw => vec![Field::Goal, Field::Amount, Field::ToAccount],
            FormKind::NewAccount => vec![Field::AccountName, Field::AccountKind, Field::InitialBalance],
            FormKind::NewGoal => vec![Field::GoalName, Field::GoalTarget, Field::AlreadySaved, Field::GoalDeadline],
            FormKind::NewCard => vec![Field::CardName, Field::ClosingDay, Field::DueDay],
            FormKind::PayInvoice => vec![Field::CardChoice, Field::InvoiceChoice, Field::Amount, Field::FromAccount, Field::Date],
            FormKind::Refund => vec![Field::Amount, Field::Description, Field::ExpenseCategory, Field::RefundTarget, Field::Date],
            FormKind::NewRecurrence => vec![Field::RecurrenceKindChoice, Field::RecurrenceName, Field::Amount, Field::ExpenseCategory, Field::IncomeCategory, Field::PaymentAccount, Field::ReceivingAccount, Field::RecurrenceDay, Field::RecurrenceInstallments, Field::RecurrencePaid, Field::RecurrenceModeChoice],
            FormKind::SetBudget => vec![Field::ExpenseCategory, Field::BudgetLimit],
            FormKind::EditEntry => vec![Field::EditTarget, Field::EditFieldChoice, Field::Amount, Field::Description, Field::ExpenseCategory, Field::IncomeCategory, Field::Date],
            FormKind::Adjust => vec![Field::ReceivingAccount, Field::ActualBalance],
            FormKind::Settings => vec![Field::CycleStartDay, Field::YesterdayReportTime, Field::TodayReportTime],
            FormKind::NewCategory => vec![Field::CategoryName, Field::CategoryKindChoice, Field::EssentialChoice, Field::CategoryEmoji],
        }
    }

    /// The slash command (without `/`) that starts this form.
    pub fn command(self) -> (command: &'static str)
        ensures
            command@ == form_command(self),
    {
        match self {
            FormKind::Expense => "gasto",
            FormKind::Income => "entrada",
            FormKind::Transfer => "transferir",
            FormKind::PotDeposit => "guardar",
            FormKind::PotWithdraw => "resgatar",
            FormKind::NewAccount => "novaconta",
            FormKind::NewGoal => "novameta",
            FormKind::NewCard => "novocartao",
            FormKind::PayInvoice => "pagarfatura",
            FormKind::Refund => "estorno",
            FormKind::NewRecurrence => "recorrente",
            FormKind::SetBudget => "orcamento",
            FormKind::EditEntry => "editar",
            FormKind::Adjust => "ajuste",
            FormKind::Settings => "config",
            FormKind::NewCategory => "novacategoria",
        }
    }

    pub fn title(self) -> (title: &'static str)
        ensures
            title@ == form_title(self),
    {
        match self {
            FormKind::Expense => "Novo gasto",
            FormKind::Income => "Nova entrada",
            FormKind::Transfer => "Transferência",
            FormKind::PotDeposit => "Guardar na meta",
            FormKind::PotWithdraw => "Resgatar da meta",
            FormKind::NewAccount => "Nova conta",
            FormKind::NewGoal => "Nova meta",
            FormKind::NewCard => "Novo cartão",
            FormKind::PayInvoice => "Pagar fatura",
            FormKind::Refund => "Estorno",
            FormKind::NewRecurrence => "Nova recorrência",
            FormKind::SetBudget => "Orçamento mensal",
            FormKind::EditEntry => "Editar lançamento",
            FormKind::Adjust => "Ajustar saldo",
            FormKind::Settings => "Configurações",
            FormKind::NewCategory => "Nova categoria",
        }
    }

    /// The form a typed command starts; the edit form needs an entry and
    /// only starts from `/ultimos`.
    pub fn from_command(command: &str) -> (form: Option<FormKind>)
        ensures
            form == form_named(command@),
    {
        let chars = crate::text::chars_of(command);
        let n = chars.len();
        proof {
            assert(chars@.subrange(0, n as int) =~= command@);
        }
        if range_is(&chars, 0, n, "gasto") {
            Some(FormKind::Expense)
        } else if range_is(&chars, 0, n, "entrada") {
            Some(FormKind::Income)
        } else if range_is(&chars, 0, n, "transferir") {
            Some(FormKind::Transfer)
        } else if range_is(&chars, 0, n, "guardar") {
            Some(FormKind::PotDeposit)
        } else if range_is(&chars, 0, n, "resgatar") {
            Some(FormKind::PotWithdraw)
        } else if range_is(&chars, 0, n, "novaconta") {
            Some(FormKind::NewAccount)
        } else if range_is(&chars, 0, n, "novameta") {
            Some(FormKind::NewGoal)
        } else if range_is(&chars, 0, n, "novocartao") {
            Some(FormKind::NewCard)
        } else if range_is(&chars, 0, n, "pagarfatura") {
            Some(FormKind::PayInvoice)
        } else if range_is(&chars, 0, n, "estorno") {
            Some(FormKind::Refund)
        } else if range_is(&chars, 0, n, "recorrente") {
            Some(FormKind::NewRecurrence)
        } else if range_is(&chars, 0, n, "orcamento") {
            Some(FormKind::SetBudget)
        } else if range_is(&chars, 0, n, "ajuste") {
            Some(FormKind::Adjust)
        } else if range_is(&chars, 0, n, "config") {
            Some(FormKind::Settings)
        } else if range_is(&chars, 0, n, "novacategoria") {
            Some(FormKind::NewCategory)
        } else {
            None
        }
    }
}

/// The form a typed command names; `/editar` names none.
pub open spec fn form_named(command: Seq<char>) -> Option<FormKind> {
    if command == "gasto"@ {
        Some(FormKind::Expense)
    } else if command == "entrada"@ {
        Some(FormKind::Income)
    } else if command == "transferir"@ {
        Some(FormKind::Transfer)
    } else if command == "guardar"@ {
        Some(FormKind::PotDeposit)
    } else if command == "resgatar"@ {
        Some(FormKind::PotWithdraw)
    } else if command == "novaconta"@ {
        Some(FormKind::NewAccount)
    } else if command == "novameta"@ {
        Some(FormKind::NewGoal)
    } else if command == "novocartao"@ {
        Some(FormKind::NewCard)
    } else if command == "pagarfatura"@ {
        Some(FormKind::PayInvoice)
    } else if command == "estorno"@ {
        Some(FormKind::Refund)
    } else if command == "recorrente"@ {
        Some(FormKind::NewRecurrence)
    } else if command == "orcamento"@ {
        Some(FormKind::SetBudget)
    } else if command == "ajuste"@ {
        Some(FormKind::Adjust)
    } else if command == "config"@ {
        Some(FormKind::Settings)
    } else if command == "novacategoria"@ {
        Some(FormKind::NewCategory)
    } else {
        None
    }
}

/// Each typed form's command starts that form, and the edit form's
/// command starts none.
pub proof fn lemma_form_commands(form: FormKind)
    ensures
        form_named(form_command(form)) == if form == FormKind::EditEntry { None } else { Some(form) },
{
    reveal_strlit("gasto");
    reveal_strlit("entrada");
    reveal_strlit("transferir");
    reveal_strlit("guardar");
    reveal_strlit("resgatar");
    reveal_strlit("novaconta");
    reveal_strlit("novameta");
    reveal_strlit("novocartao");
    reveal_strlit("pagarfatura");
    reveal_strlit("estorno");
    reveal_strlit("recorrente");
    reveal_strlit("orcamento");
    reveal_strlit("editar");
    reveal_strlit("ajuste");
    reveal_strlit("config");
    reveal_strlit("novacategoria");
    match form {
        FormKind::Expense => {
            assert("gasto"@.len() != "entrada"@.len());
            assert("gasto"@.len() != "transferir"@.len());
            assert("gasto"@.len() != "guardar"@.len());
            assert("gasto"@.len() != "resgatar"@.len());
            assert("gasto"@.len() != "novaconta"@.len());
            assert("gasto"@.len() != "novameta"@.len());
            assert("gasto"@.len() != "novocartao"@.len());
            assert("gasto"@.len() != "pagarfatura"@.len());
            assert("gasto"@.len() != "estorno"@.len());
            assert("gasto"@.len() != "recorrente"@.len());
            assert("gasto"@.len() != "orcamento"@.len());
            assert("gasto"@.len() != "editar"@.len());
            assert("gasto"@.len() != "ajuste"@.len());
            assert("gasto"@.len() != "config"@.len());
            assert("gasto"@.len() != "novacategoria"@.len());
        },
        FormKind::Income => {
            assert("entrada"@.len() != "gasto"@.len());
            assert("entrada"@.len() != "transferir"@.len());
            assert("entrada"@[0] != "guardar"@[0]);
            assert("entrada"@.len() != "resgatar"@.len());
            assert("entrada"@.len() != "novaconta"@.len());
            assert("entrada"@.len() != "novameta"@.len());
            assert("entrada"@.len() != "novocartao"@.len());
            assert("entrada"@.len() != "pagarfatura"@.len());
            assert("entrada"@[1] != "estorno"@[1]);
            assert("entrada"@.len() != "recorrente"@.len());
            assert("entrada"@.len() != "orcamento"@.len());
            assert("entrada"@.len() != "editar"@.len());
            assert("entrada"@.len() != "ajuste"@.len());
            assert("entrada"@.len() != "config"@.len());
            assert("entrada"@.len() != "novacategoria"@.len());
        },
        FormKind::Transfer => {
            assert("transferir"@.len() != "gasto"@.len());
            assert("transferir"@.len() != "entrada"@.len());
            assert("transferir"@.len() != "guardar"@.len());
            assert("transferir"@.len() != "resgatar"@.len());
            assert("transferir"@.len() != "novaconta"@.len());
            assert("transferir"@.len() != "novameta"@.len());
            assert("transferir"@[0] != "novocartao"@[0]);
            assert("transferir"@.len() != "pagarfatura"@.len());
            assert("transferir"@.len() != "estorno"@.len());
            assert("transferir"@[0] != "recorrente"@[0]);
            assert("transferir"@.len() != "orcamento"@.len());
            assert("transferir"@.len() != "editar"@.len());
            assert("transferir"@.len() != "ajuste"@.len());
            assert("transferir"@.len() != "config"@.len());
            assert("transferir"@.len() != "novacategoria"@.len());
        },
        FormKind::PotDeposit => {
            assert("guardar"@.len() != "gasto"@.len());
            assert("guardar"@[0] != "entrada"@[0]);
            assert("guardar"@.len() != "transferir"@.len());
            assert("guardar"@.len() != "resgatar"@.len());
            assert("guardar"@.len() != "novaconta"@.len());
            assert("guardar"@.len() != "novameta"@.len());
            assert("guardar"@.len() != "novocartao"@.len());
            assert("guardar"@.len() != "pagarfatura"@.len());
            assert("guardar"@[0] != "estorno"@[0]);
            assert("guardar"@.len() != "recorrente"@.len());
            assert("guardar"@.len() != "orcamento"@.len());
            assert("guardar"@.len() != "editar"@.len());
            assert("guardar"@.len() != "ajuste"@.len());
            assert("guardar"@.len() != "config"@.len());
            assert("guardar"@.len() != "novacategoria"@.len());
        },
        FormKind::PotWithdraw => {
            assert("resgatar"@.len() != "gasto"@.len());
            assert("resgatar"@.len() != "entrada"@.len());
            assert("resgatar"@.len() != "transferir"@.len());
            assert("resgatar"@.len() != "guardar"@.len());
            assert("resgatar"@.len() != "novaconta"@.len());
            assert("resgatar"@[0] != "novameta"@[0]);
            assert("resgatar"@.len() != "novocartao"@.len());
            assert("resgatar"@.len() != "pagarfatura"@.len());
            assert("resgatar"@.len() != "estorno"@.len());
            assert("resgatar"@.len() != "recorrente"@.len());
            assert("resgatar"@.len() != "orcamento"@.len());
            assert("resgatar"@.len() != "editar"@.len());
            assert("resgatar"@.len() != "ajuste"@.len());
            assert("resgatar"@.len() != "config"@.len());
            assert("resgatar"@.len() != "novacategoria"@.len());
        },
        FormKind::NewAccount => {
            assert("novaconta"@.len() != "gasto"@.len());
            assert("novaconta"@.len() != "entrada"@.len());
            assert("novaconta"@.len() != "transferir"@.len());
            assert("novaconta"@.len() != "guardar"@.len());
            assert("novaconta"@.len() != "resgatar"@.len());
            assert("novaconta"@.len() != "novameta"@.len());
            assert("novaconta"@.len() != "novocartao"@.len());
            assert("novaconta"@.len() != "pagarfatura"@.len());
            assert("novaconta"@.len() != "estorno"@.len());
            assert("novaconta"@.len() != "recorrente"@.len());
            assert("novaconta"@[0] != "orcamento"@[0]);
            assert("novaconta"@.len() != "editar"@.len());
            assert("novaconta"@.len() != "ajuste"@.len());
            assert("novaconta"@.len() != "config"@.len());
            assert("novaconta"@.len() != "novacategoria"@.len());
        },
        FormKind::NewGoal => {
            assert("novameta"@.len() != "gasto"@.len());
            assert("novameta"@.len() != "entrada"@.len());
            assert("novameta"@.len() != "transferir"@.len());
            assert("novameta"@.len() != "guardar"@.len());
            assert("novameta"@[0] != "resgatar"@[0]);
            assert("novameta"@.len() != "novaconta"@.len());
            assert("novameta"@.len() != "novocartao"@.len());
            assert("novameta"@.len() != "pagarfatura"@.len());
            assert("novameta"@.len() != "estorno"@.len());
            assert("novameta"@.len() != "recorrente"@.len());
            assert("novameta"@.len() != "orcamento"@.len());
            assert("novameta"@.len() != "editar"@.len());
            assert("novameta"@.len() != "ajuste"@.len());
            assert("novameta"@.len() != "config"@.len());
            assert("novameta"@.len() != "novacategoria"@.len());
        },
        FormKind::NewCard => {
            assert("novocartao"@.len() != "gasto"@.len());
            assert("novocartao"@.len() != "entrada"@.len());
            assert("novocartao"@[0] != "transferir"@[0]);
            assert("novocartao"@.len() != "guardar"@.len());
            assert("novocartao"@.len() != "resgatar"@.len());
            assert("novocartao"@.len() != "novaconta"@.len());
            assert("novocartao"@.len() != "novameta"@.len());
            assert("novocartao"@.len() != "pagarfatura"@.len());
            assert("novocartao"@.len() != "estorno"@.len());
            assert("novocartao"@[0] != "recorrente"@[0]);
            assert("novocartao"@.len() != "orcamento"@.len());
            assert("novocartao"@.len() != "editar"@.len());
            assert("novocartao"@.len() != "ajuste"@.len());
            assert("novocartao"@.len() != "config"@.len());
            assert("novocartao"@.len() != "novacategoria"@.len());
        },
        FormKind::PayInvoice => {
            assert("pagarfatura"@.len() != "gasto"@.len());
            assert("pagarfatura"@.len() != "entrada"@.len());
            assert("pagarfatura"@.len() != "transferir"@.len());
            assert("pagarfatura"@.len() != "guardar"@.len());
            assert("pagarfatura"@.len() != "resgatar"@.len());
            assert("pagarfatura"@.len() != "novaconta"@.len());
            assert("pagarfatura"@.len() != "novameta"@.len());
            assert("pagarfatura"@.len() != "novocartao"@.len());
            assert("pagarfatura"@.len() != "estorno"@.len());
            assert("pagarfatura"@.len() != "recorrente"@.len());
            assert("pagarfatura"@.len() != "orcamento"@.len());
            assert("pagarfatura"@.len() != "editar"@.len());
            assert("pagarfatura"@.len() != "ajuste"@.len());
            assert("pagarfatura"@.len() != "config"@.len());
            assert("pagarfatura"@.len() != "novacategoria"@.len());
        },
        FormKind::Refund => {
            assert("estorno"@.len() != "gasto"@.len());
            assert("estorno"@[1] != "entrada"@[1]);
            assert("estorno"@.len() != "transferir"@.len());
            assert("estorno"@[0] != "guardar"@[0]);
            assert("estorno"@.len() != "resgatar"@.len());
            assert("estorno"@.len() != "novaconta"@.len());
            assert("estorno"@.len() != "novameta"@.len());
            assert("estorno"@.len() != "novocartao"@.len());
            assert("estorno"@.len() != "pagarfatura"@.len());
            assert("estorno"@.len() != "recorrente"@.len());
            assert("estorno"@.len() != "orcamento"@.len());
            assert("estorno"@.len() != "editar"@.len());
            assert("estorno"@.len() != "ajuste"@.len());
            assert("estorno"@.len() != "config"@.len());
            assert("estorno"@.len() != "novacategoria"@.len());
        },
        FormKind::NewRecurrence => {
            assert("recorrente"@.len() != "gasto"@.len());
            assert("recorrente"@.len() != "entrada"@.len());
            assert("recorrente"@[0] != "transferir"@[0]);
            assert("recorrente"@.len() != "guardar"@.len());
            assert("recorrente"@.len() != "resgatar"@.len());
            assert("recorrente"@.len() != "novaconta"@.len());
            assert("recorrente"@.len() != "novameta"@.len());
            assert("recorrente"@[0] != "novocartao"@[0]);
            assert("recorrente"@.len() != "pagarfatura"@.len());
            assert("recorrente"@.len() != "estorno"@.len());
            assert("recorrente"@.len() != "orcamento"@.len());
            assert("recorrente"@.len() != "editar"@.len());
            assert("recorrente"@.len() != "ajuste"@.len());
            assert("recorrente"@.len() != "config"@.len());
            assert("recorrente"@.len() != "novacategoria"@.len());
        },
        FormKind::SetBudget => {
            assert("orcamento"@.len() != "gasto"@.len());
            assert("orcamento"@.len() != "entrada"@.len());
            assert("orcamento"@.len() != "transferir"@.len());
            assert("orcamento"@.len() != "guardar"@.len());
            assert("orcamento"@.len() != "resgatar"@.len());
            assert("orcamento"@[0] != "novaconta"@[0]);
            assert("orcamento"@.len() != "novameta"@.len());
            assert("orcamento"@.len() != "novocartao"@.len());
            assert("orcamento"@.len() != "pagarfatura"@.len());
            assert("orcamento"@.len() != "estorno"@.len());
            assert("orcamento"@.len() != "recorrente"@.len());
            assert("orcamento"@.len() != "editar"@.len());
            assert("orcamento"@.len() != "ajuste"@.len());
            assert("orcamento"@.len() != "config"@.len());
            assert("orcamento"@.len() != "novacategoria"@.len());
        },
        FormKind::EditEntry => {
            assert("editar"@.len() != "gasto"@.len());
            assert("editar"@.len() != "entrada"@.len());
            assert("editar"@.len() != "transferir"@.len());
            assert("editar"@.len() != "guardar"@.len());
            assert("editar"@.len() != "resgatar"@.len());
            assert("editar"@.len() != "novaconta"@.len());
            assert("editar"@.len() != "novameta"@.len());
            assert("editar"@.len() != "novocartao"@.len());
            assert("editar"@.len() != "pagarfatura"@.len());
            assert("editar"@.len() != "estorno"@.len());
            assert("editar"@.len() != "recorrente"@.len());
            assert("editar"@.len() != "orcamento"@.len());
            assert("editar"@[0] != "ajuste"@[0]);
            assert("editar"@[0] != "config"@[0]);
            assert("editar"@.len() != "novacategoria"@.len());
        },
        FormKind::Adjust => {
            assert("ajuste"@.len() != "gasto"@.len());
            assert("ajuste"@.len() != "entrada"@.len());
            assert("ajuste"@.len() != "transferir"@.len());
            assert("ajuste"@.len() != "guardar"@.len());
            assert("ajuste"@.len() != "resgatar"@.len());
            assert("ajuste"@.len() != "novaconta"@.len());
            assert("ajuste"@.len() != "novameta"@.len());
            assert("ajuste"@.len() != "novocartao"@.len());
            assert("ajuste"@.len() != "pagarfatura"@.len());
            assert("ajuste"@.len() != "estorno"@.len());
            assert("ajuste"@.len() != "recorrente"@.len());
            assert("ajuste"@.len() != "orcamento"@.len());
            assert("ajuste"@[0] != "editar"@[0]);
            assert("ajuste"@[0] != "config"@[0]);
            assert("ajuste"@.len() != "novacategoria"@.len());
        },
        FormKind::Settings => {
            assert("config"@.len() != "gasto"@.len());
            assert("config"@.len() != "entrada"@.len());
            assert("config"@.len() != "transferir"@.len());
            assert("config"@.len() != "guardar"@.len());
            assert("config"@.len() != "resgatar"@.len());
            assert("config"@.len() != "novaconta"@.len());
            assert("config"@.len() != "novameta"@.len());
            assert("config"@.len() != "novocartao"@.len());
            assert("config"@.len() != "pagarfatura"@.len());
            assert("config"@.len() != "estorno"@.len());
            assert("config"@.len() != "recorrente"@.len());
            assert("config"@.len() != "orcamento"@.len());
            assert("config"@[0] != "editar"@[0]);
            assert("config"@[0] != "ajuste"@[0]);
            assert("config"@.len() != "novacategoria"@.len());
        },
        FormKind::NewCategory => {
            assert("novacategoria"@.len() != "gasto"@.len());
            assert("novacategoria"@.len() != "entrada"@.len());
            assert("novacategoria"@.len() != "transferir"@.len());
            assert("novacategoria"@.len() != "guardar"@.len());
            assert("novacategoria"@.len() != "resgatar"@.len());
            assert("novacategoria"@.len() != "novaconta"@.len());
            assert("novacategoria"@.len() != "novameta"@.len());
            assert("novacategoria"@.len() != "novocartao"@.len());
            assert("novacategoria"@.len() != "pagarfatura"@.len());
            assert("novacategoria"@.len() != "estorno"@.len());
            assert("novacategoria"@.len() != "recorrente"@.len());
            assert("novacategoria"@.len() != "orcamento"@.len());
            assert("novacategoria"@.len() != "editar"@.len());
            assert("novacategoria"@.len() != "ajuste"@.len());
            assert("novacategoria"@.len() != "config"@.len());
        },
    }
}

/// The choice recorded in `field`, when it is that kind of answer.
pub open spec fn edit_choice_of(entries: Seq<(Field, Answer)>) -> Option<EditChoice> {
    match lookup(entries, Field::EditFieldChoice) {
        Some(Answer::EditChoice(choice)) => Some(choice),
        _ => None,
    }
}

/// Whether the entry being edited is income.
pub open spec fn edits_income(entries: Seq<(Field, Answer)>) -> bool {
    match lookup(entries, Field::EditTarget) {
        Some(Answer::Entry { income, .. }) => income,
        _ => false,
    }
}

/// In an edit, only the picked field is asked; income picks income
/// categories.
pub open spec fn edit_field_applies(field: Field, entries: Seq<(Field, Answer)>) -> bool {
    let choice = edit_choice_of(entries);
    if field == Field::EditTarget || field == Field::EditFieldChoice {
        true
    } else if field == Field::Amount {
        choice == Some(EditChoice::Amount)
    } else if field == Field::Description {
        choice == Some(EditChoice::Description)
    } else if field == Field::Date {
        choice == Some(EditChoice::Date)
    } else if field == Field::ExpenseCategory {
        choice == Some(EditChoice::Category) && !edits_income(entries)
    } else if field == Field::IncomeCategory {
        choice == Some(EditChoice::Category) && edits_income(entries)
    } else {
        false
    }
}

/// Whether `field` is asked in `form` given the answers so far.
pub open spec fn field_applies(field: Field, form: FormKind, entries: Seq<(Field, Answer)>) -> bool {
    if form == FormKind::EditEntry {
        edit_field_applies(field, entries)
    } else if field == Field::RecurrencePaid {
        lookup(entries, Field::RecurrenceInstallments) matches Some(Answer::Count(_))
    } else if field == Field::EssentialChoice {
        lookup(entries, Field::CategoryKindChoice) == Some(Answer::CategoryKind(CategoryKind::Expense))
    } else if field == Field::Installments {
        lookup(entries, Field::PaymentAccount) matches Some(Answer::Card(_))
    } else if form == FormKind::NewRecurrence && (field == Field::ExpenseCategory || field == Field::PaymentAccount) {
        lookup(entries, Field::RecurrenceKindChoice) == Some(Answer::RecurrenceKind(RecurrenceKind::Expense))
    } else if form == FormKind::NewRecurrence && (field == Field::IncomeCategory || field == Field::ReceivingAccount) {
        lookup(entries, Field::RecurrenceKindChoice) == Some(Answer::RecurrenceKind(RecurrenceKind::Income))
    } else {
        true
    }
}

impl Field {
    /// Whether this field is asked given the answers so far. Installments
    /// only make sense for an expense paid by card.
    pub fn applies(self, form: FormKind, answers: &Answers) -> (asked: bool)
        ensures
            asked == field_applies(self, form, answers.0@),
    {
        let recurrence_kind = answers.recurrence_kind();
        if form == FormKind::EditEntry {
            return edit_applies(self, answers);
        }
        match self {
            Field::RecurrencePaid => answers.count(Field::RecurrenceInstallments).is_some(),
            Field::EssentialChoice => answers.category_kind() == Some(CategoryKind::Expense),
            Field::Installments => answers.card(Field::PaymentAccount).is_some(),
            Field::ExpenseCategory | Field::PaymentAccount => {
                form != FormKind::NewRecurrence || recurrence_kind == Some(RecurrenceKind::Expense)
            },
            Field::IncomeCategory | Field::ReceivingAccount => {
                form != FormKind::NewRecurrence || recurrence_kind == Some(RecurrenceKind::Income)
            },
            _ => true,
        }
    }
}

/// In an edit, only the picked field is asked; income picks income
/// categories.
pub fn edit_applies(field: Field, answers: &Answers) -> (asked: bool)
    ensures
        asked == edit_field_applies(field, answers.0@),
{
    let income = match answers.edited_entry() {
        Some((_, income)) => income,
        None => false,
    };
    let choice = answers.edit_choice();
    match field {
        Field::EditTarget | Field::EditFieldChoice => true,
        Field::Amount => choice == Some(EditChoice::Amount),
        Field::Description => choice == Some(EditChoice::Description),
        Field::Date => choice == Some(EditChoice::Date),
        Field::ExpenseCategory => choice == Some(EditChoice::Category) && !income,
        Field::IncomeCategory => choice == Some(EditChoice::Category) && income,
        _ => false,
    }
}

} // verus!
