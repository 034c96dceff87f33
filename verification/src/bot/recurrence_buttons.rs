//! What the buttons on recurrence messages leave behind: the edited bill
//! message after [Registrar] or [Pular], and the toast after [Desativar].

use vstd::prelude::*;

use super::access::Member;
use crate::calendar::{Date, day_month_text, format_day_month};
use crate::html::{escape, escaped};
use crate::money::{brl_text, format_brl};
use crate::render::catalog::Recurrence;
use crate::text::{push_str, string_of};

verus! {

/// `✅ Registrado por Ana: <b>Luz</b> R$ 120,00 (05/03)`, or
/// `✅ Já estava registrado: ...` when the bill was already in the ledger.
pub open spec fn recorded_message(member: Member, new: bool, recurrence: Recurrence, date: Date) -> Seq<char> {
    let status = if new {
        "✅ Registrado por "@ + escaped(member.display_name@)
    } else {
        "✅ Já estava registrado"@
    };
    status + ": <b>"@ + escaped(recurrence.description@) + "</b> "@ + brl_text(recurrence.amount.0 as int) + " ("@
        + day_month_text(date) + ")"@
}

pub fn recorded_html(member: &Member, new: bool, recurrence: &Recurrence, date: Date) -> (html: String)
    requires
        date.valid(),
    ensures
        html@ == recorded_message(*member, new, *recurrence, date),
{
    let mut out: Vec<char> = Vec::new();
    if new {
        push_str(&mut out, "✅ Registrado por ");
        let name = escape(member.display_name.as_str());
        push_str(&mut out, name.as_str());
    } else {
        push_str(&mut out, "✅ Já estava registrado");
    }
    push_str(&mut out, ": <b>");
    let description = escape(recurrence.description.as_str());
    push_str(&mut out, description.as_str());
    push_str(&mut out, "</b> ");
    let amount = format_brl(recurrence.amount);
    push_str(&mut out, amount.as_str());
    push_str(&mut out, " (");
    let day = format_day_month(date);
    push_str(&mut out, day.as_str());
    push_str(&mut out, ")");
    string_of(&out)
}

/// The bill's name, or `recorrência` when it is gone.
pub open spec fn recurrence_name(found: Option<Recurrence>) -> Seq<char> {
    match found {
        Some(recurrence) => escaped(recurrence.description@),
        None => "recorrência"@,
    }
}

fn name_of(found: Option<&Recurrence>) -> (name: String)
    ensures
        name@ == recurrence_name(match found {
            Some(recurrence) => Some(*recurrence),
            None => None,
        }),
{
    match found {
        Some(recurrence) => escape(recurrence.description.as_str()),
        None => "recorrência".to_owned(),
    }
}

/// `⏭️ Pulado por Ana: <b>Luz</b> (05/03)`.
pub open spec fn skipped_message(member: Member, found: Option<Recurrence>, date: Date) -> Seq<char> {
    "⏭️ Pulado por "@ + escaped(member.display_name@) + ": <b>"@ + recurrence_name(found) + "</b> ("@
        + day_month_text(date) + ")"@
}

pub fn skipped_html(member: &Member, found: Option<&Recurrence>, date: Date) -> (html: String)
    requires
        date.valid(),
    ensures
        html@ == skipped_message(*member, match found {
            Some(recurrence) => Some(*recurrence),
            None => None,
        }, date),
{
    let mut out: Vec<char> = Vec::new();
    push_str(&mut out, "⏭️ Pulado por ");
    let who = escape(member.display_name.as_str());
    push_str(&mut out, who.as_str());
    push_str(&mut out, ": <b>");
    let name = name_of(found);
    push_str(&mut out, name.as_str());
    push_str(&mut out, "</b> (");
    let day = format_day_month(date);
    push_str(&mut out, day.as_str());
    push_str(&mut out, ")");
    string_of(&out)
}

/// `Luz desativada`, or `Já estava desativada` when the service refused.
pub open spec fn deactivated_message(found: Option<Recurrence>, deactivated: bool) -> Seq<char> {
    if deactivated {
        recurrence_name(found) + " desativada"@
    } else {
        "Já estava desativada"@
    }
}

pub fn deactivated_toast(found: Option<&Recurrence>, deactivated: bool) -> (toast: String)
    ensures
        toast@ == deactivated_message(match found {
            Some(recurrence) => Some(*recurrence),
            None => None,
        }, deactivated),
{
    if !deactivated {
        return "Já estava desativada".to_owned();
    }
    let mut out: Vec<char> = Vec::new();
    let name = name_of(found);
    push_str(&mut out, name.as_str());
    push_str(&mut out, " desativada");
    string_of(&out)
}

} // verus!
