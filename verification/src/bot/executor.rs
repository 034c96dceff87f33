//! What a confirmed form created, and the headline of its card.

use vstd::prelude::*;

use crate::flows::form::FormKind;
use crate::model::{AccountId, CardId, EntryId, GoalId, PurchaseId, RecurrenceId};

verus! {

/// What running a confirmed form created.
#[derive(Clone, Copy, Debug, PartialEq, Eq, Structural)]
pub enum Committed {
    Entry(EntryId),
    Purchase(PurchaseId),
    Account(AccountId),
    Goal(GoalId),
    Card(CardId),
    Recurrence(RecurrenceId),
}

pub open spec fn headline_text(form: FormKind) -> Seq<char> {
    match form {
        FormKind::Expense => "Gasto registrado"@,
        FormKind::Income => "Entrada registrada"@,
        FormKind::Transfer => "Transferência registrada"@,
        FormKind::PotDeposit => "Guardado na meta"@,
        FormKind::PotWithdraw => "Resgatado da meta"@,
        FormKind::NewAccount => "Conta criada"@,
        FormKind::NewGoal => "Meta criada"@,
        FormKind::NewCard => "Cartão cadastrado"@,
        FormKind::PayInvoice => "Pagamento registrado"@,
        FormKind::Refund => "Estorno registrado"@,
        FormKind::NewRecurrence => "Recorrência criada"@,
        FormKind::SetBudget => "Orçamento definido"@,
        FormKind::EditEntry => "Lançamento alterado"@,
        FormKind::Adjust => "Saldo ajustado"@,
        FormKind::Settings => "Configurações salvas"@,
        FormKind::NewCategory => "Categoria criada"@,
    }
}

/// The headline of the card once `form` ran.
pub fn headline(form: FormKind) -> (text: &'static str)
    ensures
        text@ == headline_text(form),
{
    match form {
        FormKind::Expense => "Gasto registrado",
        FormKind::Income => "Entrada registrada",
        FormKind::Transfer => "Transferência registrada",
        FormKind::PotDeposit => "Guardado na meta",
        FormKind::PotWithdraw => "Resgatado da meta",
        FormKind::NewAccount => "Conta criada",
        FormKind::NewGoal => "Meta criada",
        FormKind::NewCard => "Cartão cadastrado",
        FormKind::PayInvoice => "Pagamento registrado",
        FormKind::Refund => "Estorno registrado",
        FormKind::NewRecurrence => "Recorrência criada",
        FormKind::SetBudget => "Orçamento definido",
        FormKind::EditEntry => "Lançamento alterado",
        FormKind::Adjust => "Saldo ajustado",
        FormKind::Settings => "Configurações salvas",
        FormKind::NewCategory => "Categoria criada",
    }
}

} // verus!
