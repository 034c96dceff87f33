//! Use-case errors as chat replies (pt-BR). Storage details stay in logs.

use vstd::prelude::*;

use crate::html::{escape, escaped};
use crate::text::{chars_of, push_str, range_is, string_of};

verus! {

/// Why a use case failed.
#[derive(Clone, Debug, PartialEq, Eq)]
pub enum AppError {
    NotFound { entity: String, id: String },
    Invalid { field: String, value: String, rule: String },
    Conflict(String),
    AlreadyCommitted,
    Unauthorized,
    Forbidden(i64),
    Storage(String),
}

/// The pt-BR name of a field named in an error; unknown names pass as they are.
pub open spec fn field_name_text(field: Seq<char>) -> Seq<char> {
    if field == "amount"@ {
        "valor"@
    } else if field == "description"@ {
        "descrição"@
    } else if field == "category"@ {
        "categoria"@
    } else if field == "destination account"@ {
        "conta de destino"@
    } else if field == "account kind"@ {
        "tipo de conta"@
    } else if field == "account name"@ || field == "goal name"@ {
        "nome"@
    } else if field == "goal target"@ {
        "objetivo"@
    } else {
        field
    }
}

/// The pt-BR name of a field named in an error.
pub fn field_name(field: &str) -> (name: String)
    ensures
        name@ == field_name_text(field@),
{
    let chars = chars_of(field);
    let n = chars.len();
    assert(chars@.subrange(0, n as int) =~= chars@);
    if range_is(&chars, 0, n, "amount") {
        "valor".to_owned()
    } else if range_is(&chars, 0, n, "description") {
        "descrição".to_owned()
    } else if range_is(&chars, 0, n, "category") {
        "categoria".to_owned()
    } else if range_is(&chars, 0, n, "destination account") {
        "conta de destino".to_owned()
    } else if range_is(&chars, 0, n, "account kind") {
        "tipo de conta".to_owned()
    } else if range_is(&chars, 0, n, "account name") || range_is(&chars, 0, n, "goal name") {
        "nome".to_owned()
    } else if range_is(&chars, 0, n, "goal target") {
        "objetivo".to_owned()
    } else {
        field.to_owned()
    }
}

/// The reply for each kind of error.
pub open spec fn error_message(error: AppError) -> Seq<char> {
    match error {
        AppError::NotFound { .. } => "Não encontrei esse registro. Pode ter sido apagado."@,
        AppError::Invalid { field, value, .. } => "Não deu certo: "@ + field_name_text(field@)
            + " inválido ("@ + escaped(value@) + ")."@,
        AppError::Conflict(_) => "Já existe um registro com esse nome."@,
        AppError::AlreadyCommitted => "Isso já foi registrado ✅"@,
        AppError::Unauthorized | AppError::Forbidden(_) => "Você não tem acesso a este bot. 🔒"@,
        AppError::Storage(_) => "Estou com problema para acessar os dados. Tente de novo em instantes."@,
    }
}

/// A use-case error as a chat reply.
pub fn error_text(error: &AppError) -> (text: String)
    ensures
        text@ == error_message(*error),
{
    match error {
        AppError::NotFound { .. } => "Não encontrei esse registro. Pode ter sido apagado.".to_owned(),
        AppError::Invalid { field, value, .. } => {
            let mut out: Vec<char> = Vec::new();
            push_str(&mut out, "Não deu certo: ");
            let name = field_name(field.as_str());
            push_str(&mut out, name.as_str());
            push_str(&mut out, " inválido (");
            let shown = escape(value.as_str());
            push_str(&mut out, shown.as_str());
            push_str(&mut out, ").");
            string_of(&out)
        },
        AppError::Conflict(_) => "Já existe um registro com esse nome.".to_owned(),
        AppError::AlreadyCommitted => "Isso já foi registrado ✅".to_owned(),
        AppError::Unauthorized | AppError::Forbidden(_) => "Você não tem acesso a este bot. 🔒".to_owned(),
        AppError::Storage(_) => "Estou com problema para acessar os dados. Tente de novo em instantes.".to_owned(),
    }
}

} // verus!
