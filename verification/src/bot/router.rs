//! Where each update goes: which command runs, which flow continues, and
//! which taps are refused.

use vstd::prelude::*;

use super::access::{Audience, Member};
use crate::callback_data::{CallbackPayload, nonce_of, nonce_text, parse, parsed_as};
use crate::flows::form::{FormKind, form_named};
use crate::render::errors::{AppError, error_message, error_text};
use crate::calendar::Date;
use crate::model::{CategoryId, DraftId, RecurrenceId};
use crate::text::{chars_of, push_str, range_is, string_of};

verus! {

pub const STALE_BUTTON: &'static str = "Esse botão não é seu ou já expirou.";

pub const PRIVATE_BOT: &'static str = "Este bot é privado. 🔒";

/// What a typed message leads to.
#[derive(Clone, Debug, PartialEq, Eq)]
pub enum TextRoute {
    /// A command in the household's group.
    Household { member: Member, command: String, args: String },
    /// Plain text in the household's group answers the open flow, if any.
    ContinueFlow(Member),
    /// `/start` in a group while none is bound: this group becomes the
    /// household's.
    BindGroup(Member),
    /// A command in a private chat.
    Private { member: Member, command: String },
    /// A stranger in private: the bot says it is private.
    Refuse,
    /// Say nothing.
    Nothing,
}

/// The route for a message from `audience`, with the command it holds.
pub open spec fn text_route_of(audience: Audience, command: Option<(String, String)>, route: TextRoute) -> bool {
    match (audience, command) {
        (Audience::Household(member), Some((name, args))) => route == TextRoute::Household { member, command: name, args },
        (Audience::Household(member), None) => route == TextRoute::ContinueFlow(member),
        (Audience::UnboundGroup(member), Some((name, _))) => if name@ == "start"@ {
            route == TextRoute::BindGroup(member)
        } else {
            route == TextRoute::Nothing
        },
        (Audience::Private(member), Some((name, _))) => route == TextRoute::Private { member, command: name },
        (Audience::Stranger, _) => route == TextRoute::Refuse,
        _ => route == TextRoute::Nothing,
    }
}

/// Whether `text` is exactly `word`.
fn is_word(text: &String, word: &str) -> (same: bool)
    ensures
        same == (text@ == word@),
{
    let chars = chars_of(text.as_str());
    let n = chars.len();
    assert(chars@.subrange(0, n as int) =~= chars@);
    range_is(&chars, 0, n, word)
}

/// Where a typed message goes.
pub fn text_route(audience: Audience, command: Option<(String, String)>) -> (route: TextRoute)
    ensures
        text_route_of(audience, command, route),
{
    match (audience, command) {
        (Audience::Household(member), Some((name, args))) => TextRoute::Household { member, command: name, args },
        (Audience::Household(member), None) => TextRoute::ContinueFlow(member),
        (Audience::UnboundGroup(member), Some((name, _))) => if is_word(&name, "start") {
            TextRoute::BindGroup(member)
        } else {
            TextRoute::Nothing
        },
        (Audience::Private(member), Some((name, _))) => TextRoute::Private { member, command: name },
        (Audience::Stranger, _) => TextRoute::Refuse,
        _ => TextRoute::Nothing,
    }
}

/// What a command in the household's group does.
#[derive(Clone, Copy, Debug, PartialEq, Eq, Structural)]
pub enum HouseholdRoute {
    StartFlow(FormKind),
    Undo,
    Export,
    Recent,
    Summary,
    Overview,
    LivingCost,
    Cancel,
    Help,
    Balances,
    Accounts,
    Goals,
    Categories,
    Invoices,
    Cards,
    Recurrences,
    Yesterday,
    Month,
    Budgets,
    Essentials,
    Unknown,
}

/// Guided forms first, then the commands that act, then those that only
/// read; anything else is unknown.
pub open spec fn household_route_of(command: Seq<char>) -> HouseholdRoute {
    match form_named(command) {
        Some(form) => HouseholdRoute::StartFlow(form),
        None => if command == "desfazer"@ {
            HouseholdRoute::Undo
        } else if command == "exportar"@ {
            HouseholdRoute::Export
        } else if command == "ultimos"@ {
            HouseholdRoute::Recent
        } else if command == "resumo"@ {
            HouseholdRoute::Summary
        } else if command == "extrato"@ {
            HouseholdRoute::Overview
        } else if command == "custodevida"@ {
            HouseholdRoute::LivingCost
        } else if command == "cancelar"@ {
            HouseholdRoute::Cancel
        } else if command == "ajuda"@ || command == "start"@ || command == "help"@ {
            HouseholdRoute::Help
        } else {
            report_route_of(command)
        },
    }
}

/// Commands that only read and reply.
pub open spec fn report_route_of(command: Seq<char>) -> HouseholdRoute {
    if command == "saldo"@ {
        HouseholdRoute::Balances
    } else if command == "contas"@ {
        HouseholdRoute::Accounts
    } else if command == "metas"@ {
        HouseholdRoute::Goals
    } else if command == "categorias"@ {
        HouseholdRoute::Categories
    } else if command == "fatura"@ || command == "faturas"@ {
        HouseholdRoute::Invoices
    } else if command == "cartoes"@ {
        HouseholdRoute::Cards
    } else if command == "recorrentes"@ {
        HouseholdRoute::Recurrences
    } else if command == "ontem"@ {
        HouseholdRoute::Yesterday
    } else if command == "mes"@ {
        HouseholdRoute::Month
    } else if command == "orcamentos"@ {
        HouseholdRoute::Budgets
    } else if command == "essenciais"@ {
        HouseholdRoute::Essentials
    } else {
        HouseholdRoute::Unknown
    }
}

/// What a command typed in the household's group does.
pub fn household_route(command: &str) -> (route: HouseholdRoute)
    ensures
        route == household_route_of(command@),
{
    if let Some(form) = FormKind::from_command(command) {
        return HouseholdRoute::StartFlow(form);
    }
    let chars = chars_of(command);
    let n = chars.len();
    assert(chars@.subrange(0, n as int) =~= chars@);
    if range_is(&chars, 0, n, "desfazer") {
        HouseholdRoute::Undo
    } else if range_is(&chars, 0, n, "exportar") {
        HouseholdRoute::Export
    } else if range_is(&chars, 0, n, "ultimos") {
        HouseholdRoute::Recent
    } else if range_is(&chars, 0, n, "resumo") {
        HouseholdRoute::Summary
    } else if range_is(&chars, 0, n, "extrato") {
        HouseholdRoute::Overview
    } else if range_is(&chars, 0, n, "custodevida") {
        HouseholdRoute::LivingCost
    } else if range_is(&chars, 0, n, "cancelar") {
        HouseholdRoute::Cancel
    } else if range_is(&chars, 0, n, "ajuda") || range_is(&chars, 0, n, "start") || range_is(
        &chars,
        0,
        n,
        "help",
    ) {
        HouseholdRoute::Help
    } else {
        report_route(&chars)
    }
}

fn report_route(chars: &Vec<char>) -> (route: HouseholdRoute)
    ensures
        route == report_route_of(chars@),
{
    let n = chars.len();
    assert(chars@.subrange(0, n as int) =~= chars@);
    if range_is(chars, 0, n, "saldo") {
        HouseholdRoute::Balances
    } else if range_is(chars, 0, n, "contas") {
        HouseholdRoute::Accounts
    } else if range_is(chars, 0, n, "metas") {
        HouseholdRoute::Goals
    } else if range_is(chars, 0, n, "categorias") {
        HouseholdRoute::Categories
    } else if range_is(chars, 0, n, "fatura") || range_is(chars, 0, n, "faturas") {
        HouseholdRoute::Invoices
    } else if range_is(chars, 0, n, "cartoes") {
        HouseholdRoute::Cards
    } else if range_is(chars, 0, n, "recorrentes") {
        HouseholdRoute::Recurrences
    } else if range_is(chars, 0, n, "ontem") {
        HouseholdRoute::Yesterday
    } else if range_is(chars, 0, n, "mes") {
        HouseholdRoute::Month
    } else if range_is(chars, 0, n, "orcamentos") {
        HouseholdRoute::Budgets
    } else if range_is(chars, 0, n, "essenciais") {
        HouseholdRoute::Essentials
    } else {
        HouseholdRoute::Unknown
    }
}

/// The reply to a command nobody knows.
pub fn unknown_command_text(command: &str) -> (text: String)
    ensures
        text@ == "Não conheço /"@ + command@ + ". Veja /ajuda."@,
{
    let mut out: Vec<char> = Vec::new();
    push_str(&mut out, "Não conheço /");
    push_str(&mut out, command);
    push_str(&mut out, ". Veja /ajuda.");
    string_of(&out)
}

/// What a command in a private chat does.
#[derive(Clone, Copy, Debug, PartialEq, Eq, Structural)]
pub enum PrivateRoute {
    /// `/start`: backups will come here.
    RegisterDm,
    Help,
    /// Everything else belongs in the household's group.
    UseGroup,
}

pub open spec fn private_route_of(command: Seq<char>) -> PrivateRoute {
    if command == "start"@ {
        PrivateRoute::RegisterDm
    } else if command == "ajuda"@ || command == "help"@ {
        PrivateRoute::Help
    } else {
        PrivateRoute::UseGroup
    }
}

pub fn private_route(command: &str) -> (route: PrivateRoute)
    ensures
        route == private_route_of(command@),
{
    let chars = chars_of(command);
    let n = chars.len();
    assert(chars@.subrange(0, n as int) =~= chars@);
    if range_is(&chars, 0, n, "start") {
        PrivateRoute::RegisterDm
    } else if range_is(&chars, 0, n, "ajuda") || range_is(&chars, 0, n, "help") {
        PrivateRoute::Help
    } else {
        PrivateRoute::UseGroup
    }
}

/// A tap is acted on only when it comes from a member in the household's
/// group and carries a payload this crate wrote; anything else gets the
/// stale-button toast.
pub fn button_payload(audience: Audience, data: &str) -> (route: Option<(Member, CallbackPayload)>)
    ensures
        match audience {
            Audience::Household(member) => match route {
                Some((who, payload)) => who == member && parsed_as(data@, Some(payload)),
                None => parsed_as(data@, None),
            },
            _ => route is None,
        },
{
    match audience {
        Audience::Household(member) => match parse(data) {
            Some(payload) => Some((member, payload)),
            None => None,
        },
        _ => None,
    }
}

/// A flow button is taken only from the member whose open flow carries
/// its nonce; taps on old cards, or on the other spouse's, are refused.
pub fn flow_button_accepted(open_draft: Option<DraftId>, nonce: &str) -> (accepted: bool)
    ensures
        accepted == (open_draft matches Some(draft) && nonce_text(draft) == nonce@),
{
    match open_draft {
        Some(draft) => {
            let expected = chars_of(nonce_of(draft).as_str());
            let n = expected.len();
            assert(expected@.subrange(0, n as int) =~= expected@);
            range_is(&expected, 0, n, nonce)
        },
        None => false,
    }
}

pub const DM_REGISTERED: &'static str = "Pronto! Vou mandar os backups por aqui. 🔐";

pub const USE_THE_GROUP: &'static str = "Use os comandos no grupo de vocês. 🙂";

/// What `/start` in an unbound group leads to, by what binding answered.
#[derive(Clone, Debug, PartialEq, Eq)]
pub enum BindOutcome {
    /// The group is now the household's: send the welcome text.
    Welcome,
    /// Another group is bound already: leave this one.
    Leave,
    /// Any other failure, as its reply.
    Reply(String),
}

pub fn bind_outcome(result: &Result<(), AppError>) -> (outcome: BindOutcome)
    ensures
        match *result {
            Ok(()) => outcome == BindOutcome::Welcome,
            Err(AppError::Conflict(_)) => outcome == BindOutcome::Leave,
            Err(error) => outcome matches BindOutcome::Reply(text) && text@ == error_message(error),
        },
{
    match result {
        Ok(()) => BindOutcome::Welcome,
        Err(AppError::Conflict(_)) => BindOutcome::Leave,
        Err(error) => BindOutcome::Reply(error_text(error)),
    }
}

/// What a tap on a message the bot sent by itself (bill prompts, the
/// recurrence list, `/extrato`, `/essenciais`) asks for. Flow, undo, edit
/// and delete buttons are not message buttons: they get the stale-button
/// toast here.
#[derive(Clone, Debug, PartialEq, Eq)]
pub enum MessageButton {
    RecordRecurrence(RecurrenceId, Date),
    SkipRecurrence(RecurrenceId, Date),
    DeactivateRecurrence(RecurrenceId),
    CategoryStatement { category: CategoryId, from: Date, to: Date },
    ToggleEssential(CategoryId),
    Stale,
}

pub open spec fn message_button_of(payload: CallbackPayload) -> MessageButton {
    match payload {
        CallbackPayload::RecordRecurrence(id, date) => MessageButton::RecordRecurrence(id, date),
        CallbackPayload::SkipRecurrence(id, date) => MessageButton::SkipRecurrence(id, date),
        CallbackPayload::DeactivateRecurrence(id) => MessageButton::DeactivateRecurrence(id),
        CallbackPayload::CategoryStatement { category, from, to } => MessageButton::CategoryStatement {
            category,
            from,
            to,
        },
        CallbackPayload::ToggleEssential(category) => MessageButton::ToggleEssential(category),
        _ => MessageButton::Stale,
    }
}

pub fn message_button(payload: &CallbackPayload) -> (route: MessageButton)
    ensures
        route == message_button_of(*payload),
{
    match payload {
        CallbackPayload::RecordRecurrence(id, date) => MessageButton::RecordRecurrence(*id, *date),
        CallbackPayload::SkipRecurrence(id, date) => MessageButton::SkipRecurrence(*id, *date),
        CallbackPayload::DeactivateRecurrence(id) => MessageButton::DeactivateRecurrence(*id),
        CallbackPayload::CategoryStatement { category, from, to } => MessageButton::CategoryStatement {
            category: *category,
            from: *from,
            to: *to,
        },
        CallbackPayload::ToggleEssential(category) => MessageButton::ToggleEssential(*category),
        _ => MessageButton::Stale,
    }
}

} // verus!
