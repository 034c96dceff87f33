//! Reads one input (typed text or a tapped button) as the answer to one
//! field. Problems come back as pt-BR text for the chat.

use vstd::prelude::*;

use super::answers::Answer;
use super::dates::{parse_typed_date_chars, parse_typed_time_chars, typed_date, typed_time};
use super::engine::FormInput;
use super::form::Field;
use crate::calendar::{Date, Time, day_before, format_hour_minute, hour_minute_text, previous_day};
use crate::callback_data::ButtonValue;
use crate::model::{AccountKind, Cents};
use crate::money::{is_zero, parse_brl_chars, typed_amount, typed_zero};
use crate::numbers::{decimal, is_digit, lemma_decimal, parse_unsigned, push_decimal, unsigned_numeral};
use crate::text::{chars_of, is_alnum, is_alphanumeric, lemma_trim_plain, push_str, string_of, trim_chars, trimmed};

verus! {

pub const PICK_A_BUTTON: &'static str = "Escolha uma das opções nos botões acima.";

pub const BAD_AMOUNT: &'static str = "Não entendi o valor. Exemplos: 10, 10,50 ou 1.234,56.";

pub const BAD_DATE: &'static str = "Não entendi a data. Use dd/mm ou dd/mm/aaaa, por exemplo 05/03.";

pub const TYPE_AMOUNT: &'static str = "Digite o valor, por exemplo 10,50.";

pub const DAY_PROBLEM: &'static str = "Digite um dia de 1 a 31.";

pub const TIME_PROBLEM: &'static str = "Digite o horário, por exemplo 21:00.";

pub const PAST_DEADLINE: &'static str = "O prazo precisa ser uma data futura.";

pub const DEADLINE_BUTTON: &'static str = "Digite a data (dd/mm/aaaa) ou toque em Sem prazo.";

pub const LONG_DESCRIPTION: &'static str = "Descrição longa demais (máximo 120 letras).";

pub const DESCRIPTION_BUTTON: &'static str = "Digite a descrição ou toque em Pular.";

pub const TYPE_NAME: &'static str = "Digite o nome.";

pub const EMOJI_PROBLEM: &'static str = "Mande só um emoji (ex.: 🐶) ou toque em Pular.";

/// Longest category name.
pub const MAX_CATEGORY_NAME_CHARS: usize = 32;

/// Longest account, goal, card or recurrence name.
pub const MAX_NAME_CHARS: usize = 40;

/// Longest description.
pub const MAX_DESCRIPTION_CHARS: usize = 120;

/// Longest emoji sequence accepted: family and flag emoji take several
/// code points, sentences do not fit.
pub const MAX_EMOJI_CHARS: usize = 8;

/// Most installments a card purchase can be split into.
pub const MAX_INSTALLMENTS: u32 = 48;

/// What one input reads as.
pub enum Reading {
    /// An answer that carries no text.
    Value(Answer),
    /// A text answer with these characters.
    Text(Seq<char>),
    /// The user tapped [Outra data]; the next text is a typed date.
    AskTypedDate,
    /// Rejected, with this message for the chat.
    Problem(Seq<char>),
}

#[derive(Clone, Debug, PartialEq, Eq)]
pub enum Interpreted {
    Answer(Answer),
    /// The user tapped [Outra data]; the next text is a typed date.
    AskTypedDate,
}

/// `answer` is what `reading` describes.
pub open spec fn answer_reads(answer: Answer, reading: Reading) -> bool {
    match reading {
        Reading::Value(expected) => answer == expected,
        Reading::Text(text) => answer matches Answer::Text(typed) && typed@ == text,
        _ => false,
    }
}

/// A field reader's result is what `reading` describes.
pub open spec fn reads_as(out: Result<Answer, String>, reading: Reading) -> bool {
    match out {
        Ok(answer) => answer_reads(answer, reading),
        Err(problem) => reading matches Reading::Problem(text) && problem@ == text,
    }
}

/// [`interpret`]'s result is what `reading` describes.
pub open spec fn interprets_as(out: Result<Interpreted, String>, reading: Reading) -> bool {
    match out {
        Ok(Interpreted::Answer(answer)) => answer_reads(answer, reading),
        Ok(Interpreted::AskTypedDate) => reading is AskTypedDate,
        Err(problem) => reading matches Reading::Problem(text) && problem@ == text,
    }
}

pub open spec fn is_skip(input: FormInput) -> bool {
    input matches FormInput::Button(ButtonValue::Skip)
}

/// A positive amount, typed or from a suggested-amount button.
pub open spec fn amount_reading(input: FormInput) -> Reading {
    match input {
        FormInput::Text(text) => match typed_amount(text@) {
            Some(value) => Reading::Value(Answer::Money(Cents(value as i64))),
            None => Reading::Problem(BAD_AMOUNT@),
        },
        FormInput::Button(ButtonValue::Money(amount)) => if amount.0 > 0 {
            Reading::Value(Answer::Money(amount))
        } else {
            Reading::Problem(TYPE_AMOUNT@)
        },
        FormInput::Button(_) => Reading::Problem(TYPE_AMOUNT@),
    }
}

/// An amount where zero (typed, or the skip button) is allowed.
pub open spec fn zero_or_amount_reading(input: FormInput) -> Reading {
    match input {
        FormInput::Button(ButtonValue::Skip) => Reading::Value(Answer::Money(Cents(0))),
        FormInput::Text(text) => if typed_zero(text@) {
            Reading::Value(Answer::Money(Cents(0)))
        } else {
            amount_reading(input)
        },
        _ => amount_reading(input),
    }
}

/// A balance: `-` in front means overdrawn.
pub open spec fn balance_reading(input: FormInput) -> Reading {
    match input {
        FormInput::Text(text) => {
            let cleaned = trimmed(text@);
            if cleaned.len() > 0 && cleaned[0] == '-' {
                match typed_amount(cleaned.drop_first()) {
                    Some(value) => Reading::Value(Answer::Money(Cents((-value) as i64))),
                    None => Reading::Problem(BAD_AMOUNT@),
                }
            } else {
                zero_or_amount_reading(input)
            }
        },
        _ => zero_or_amount_reading(input),
    }
}

/// A day of the month, 1 to 31.
pub open spec fn day_reading(input: FormInput) -> Reading {
    match input {
        FormInput::Text(text) => match unsigned_numeral(trimmed(text@)) {
            Some(day) => if 1 <= day <= 31 {
                Reading::Value(Answer::Day(day as u8))
            } else {
                Reading::Problem(DAY_PROBLEM@)
            },
            None => Reading::Problem(DAY_PROBLEM@),
        },
        _ => Reading::Problem(DAY_PROBLEM@),
    }
}

/// `text` without any `x` or `X` at its end (`18x` is `18`).
pub open spec fn without_times_mark(text: Seq<char>) -> Seq<char>
    decreases text.len(),
{
    if text.len() > 0 && (text.last() == 'x' || text.last() == 'X') {
        without_times_mark(text.drop_last())
    } else {
        text
    }
}

pub open spec fn installments_problem() -> Seq<char> {
    "Escolha as parcelas ou digite um número de 1 a "@ + decimal(MAX_INSTALLMENTS as nat) + "."@
}

pub open spec fn installments_count(count: nat) -> Reading {
    if 1 <= count <= MAX_INSTALLMENTS {
        Reading::Value(Answer::Installments(count as u32))
    } else {
        Reading::Problem(installments_problem())
    }
}

/// How many installments: a button, or a number typed with an optional `x`.
pub open spec fn installments_reading(input: FormInput) -> Reading {
    match input {
        FormInput::Button(ButtonValue::Installments(count)) => installments_count(count as nat),
        FormInput::Text(text) => match unsigned_numeral(without_times_mark(trimmed(text@))) {
            Some(count) => installments_count(count),
            None => Reading::Problem(installments_problem()),
        },
        FormInput::Button(_) => Reading::Problem(installments_problem()),
    }
}

/// Settings fields: the [Manter] button keeps the current value.
pub open spec fn kept_or(input: FormInput, typed: Reading) -> Reading {
    if is_skip(input) {
        Reading::Value(Answer::Skipped)
    } else {
        typed
    }
}

/// A time of day typed as `21:00`, `21h30` or `8h`.
pub open spec fn time_reading(input: FormInput) -> Reading {
    match input {
        FormInput::Text(text) => match typed_time(text@) {
            Some(time) => Reading::Value(Answer::Time(time)),
            None => Reading::Problem(TIME_PROBLEM@),
        },
        _ => Reading::Problem(TIME_PROBLEM@),
    }
}

/// The earliest time today's summary can be sent.
pub open spec fn earliest_today_report_time() -> Time {
    Time { hour: 19, minute: 0 }
}

/// Today's summary only makes sense once most of the day is over.
pub open spec fn is_evening(time: Time) -> bool {
    time.hour > earliest_today_report_time().hour || (time.hour == earliest_today_report_time().hour
        && time.minute >= earliest_today_report_time().minute)
}

pub open spec fn evening_problem() -> Seq<char> {
    "O resumo de hoje só pode ser a partir das "@ + hour_minute_text(earliest_today_report_time())
        + "."@
}

/// A time of day no earlier than [`earliest_today_report_time`].
pub open spec fn evening_time_reading(input: FormInput) -> Reading {
    match time_reading(input) {
        Reading::Value(Answer::Time(time)) => if is_evening(time) {
            Reading::Value(Answer::Time(time))
        } else {
            Reading::Problem(evening_problem())
        },
        other => other,
    }
}

/// An optional deadline, which must lie after `today`.
pub open spec fn deadline_reading(input: FormInput, today: Date) -> Reading {
    match input {
        FormInput::Button(ButtonValue::Skip) => Reading::Value(Answer::Skipped),
        FormInput::Text(text) => match typed_date(text@, today) {
            Some(date) => if today.before(date) {
                Reading::Value(Answer::Date(date))
            } else {
                Reading::Problem(PAST_DEADLINE@)
            },
            None => Reading::Problem(BAD_DATE@),
        },
        FormInput::Button(_) => Reading::Problem(DEADLINE_BUTTON@),
    }
}

/// An optional description of at most [`MAX_DESCRIPTION_CHARS`] characters.
pub open spec fn description_reading(input: FormInput) -> Reading {
    match input {
        FormInput::Button(ButtonValue::Skip) => Reading::Value(Answer::Skipped),
        FormInput::Text(text) => if trimmed(text@).len() <= MAX_DESCRIPTION_CHARS {
            Reading::Text(trimmed(text@))
        } else {
            Reading::Problem(LONG_DESCRIPTION@)
        },
        FormInput::Button(_) => Reading::Problem(DESCRIPTION_BUTTON@),
    }
}

pub open spec fn name_problem(max_chars: nat) -> Seq<char> {
    "Use um nome de 1 a "@ + decimal(max_chars) + " letras."@
}

/// A name of 1 to `max_chars` characters, spaces around it left out.
pub open spec fn name_reading(input: FormInput, max_chars: nat) -> Reading {
    match input {
        FormInput::Text(text) => if 1 <= trimmed(text@).len() <= max_chars {
            Reading::Text(trimmed(text@))
        } else {
            Reading::Problem(name_problem(max_chars))
        },
        _ => Reading::Problem(TYPE_NAME@),
    }
}

/// Short text with no letter or digit in it.
pub open spec fn looks_like_emoji(text: Seq<char>) -> bool {
    &&& 0 < text.len() <= MAX_EMOJI_CHARS
    &&& forall|i: int| 0 <= i < text.len() ==> !is_alnum(#[trigger] text[i])
}

pub open spec fn emoji_reading(input: FormInput) -> Reading {
    match input {
        FormInput::Text(text) => if looks_like_emoji(trimmed(text@)) {
            Reading::Text(trimmed(text@))
        } else {
            Reading::Problem(EMOJI_PROBLEM@)
        },
        _ => Reading::Problem(EMOJI_PROBLEM@),
    }
}

/// The date field: today, yesterday, another date typed next, or a date
/// typed right away.
pub open spec fn date_reading(input: FormInput, today: Date) -> Reading {
    match input {
        FormInput::Button(ButtonValue::Today) => Reading::Value(Answer::Date(today)),
        FormInput::Button(ButtonValue::Yesterday) => Reading::Value(
            Answer::Date(
                match day_before(today) {
                    Some(yesterday) => yesterday,
                    None => today,
                },
            ),
        ),
        FormInput::Button(ButtonValue::OtherDate) => Reading::AskTypedDate,
        FormInput::Text(text) => typed_date_reading(input, today),
        FormInput::Button(_) => Reading::Problem(PICK_A_BUTTON@),
    }
}

/// A date typed after [Outra data].
pub open spec fn typed_date_reading(input: FormInput, today: Date) -> Reading {
    match input {
        FormInput::Text(text) => match typed_date(text@, today) {
            Some(date) => Reading::Value(Answer::Date(date)),
            None => Reading::Problem(BAD_DATE@),
        },
        _ => Reading::Problem(BAD_DATE@),
    }
}

/// Fields where an account button is the answer.
pub open spec fn account_field(field: Field) -> bool {
    ||| field == Field::PaymentAccount
    ||| field == Field::ReceivingAccount
    ||| field == Field::FromAccount
    ||| field == Field::ToAccount
    ||| field == Field::RefundTarget
}

/// Fields answered by picking one of a fixed set of options.
pub open spec fn option_reading(field: Field, value: ButtonValue) -> Reading {
    match (field, value) {
        (Field::EditFieldChoice, ButtonValue::EditChoice(choice)) => Reading::Value(
            Answer::EditChoice(choice),
        ),
        (Field::CategoryKindChoice, ButtonValue::CategoryKind(kind)) => Reading::Value(
            Answer::CategoryKind(kind),
        ),
        (Field::EssentialChoice, ButtonValue::Essential(essential)) => Reading::Value(
            Answer::Essential(essential),
        ),
        (Field::RecurrenceKindChoice, ButtonValue::RecurrenceKind(kind)) => Reading::Value(
            Answer::RecurrenceKind(kind),
        ),
        (Field::RecurrenceModeChoice, ButtonValue::RecurrenceMode(mode)) => Reading::Value(
            Answer::RecurrenceMode(mode),
        ),
        (Field::RecordKindChoice, ButtonValue::RecordKind(kind)) => Reading::Value(
            Answer::RecordKind(kind),
        ),
        (Field::RecordFieldChoice, ButtonValue::RecordField(record_field)) => Reading::Value(
            Answer::RecordField(record_field),
        ),
        (Field::RecordTarget, ButtonValue::Recurrence(id)) => Reading::Value(
            Answer::Recurrence(id),
        ),
        _ => Reading::Problem(PICK_A_BUTTON@),
    }
}

/// Fields answered by a button that names a record.
pub open spec fn choice_reading(field: Field, input: FormInput) -> Reading {
    match input {
        FormInput::Text(_) => Reading::Problem(PICK_A_BUTTON@),
        FormInput::Button(value) => match value {
            ButtonValue::Category(id) if field == Field::ExpenseCategory || field
                == Field::IncomeCategory => Reading::Value(Answer::Category(id)),
            ButtonValue::Goal(id) if field == Field::Goal => Reading::Value(Answer::Goal(id)),
            ButtonValue::Kind(kind) if field == Field::AccountKind && kind != AccountKind::Pot => {
                Reading::Value(Answer::AccountKind(kind))
            },
            ButtonValue::Card(id) if field == Field::PaymentAccount || field == Field::RefundTarget
                || field == Field::CardChoice => Reading::Value(Answer::Card(id)),
            ButtonValue::Invoice(id) if field == Field::InvoiceChoice => Reading::Value(
                Answer::Invoice(id),
            ),
            ButtonValue::Account(id) if account_field(field) => Reading::Value(
                Answer::Account(id),
            ),
            _ => option_reading(field, value),
        },
    }
}

/// What `input` reads as for `field`, with `today` for relative dates.
pub open spec fn reading(field: Field, input: FormInput, today: Date) -> Reading {
    match field {
        Field::Date => date_reading(input, today),
        Field::Amount | Field::GoalTarget => amount_reading(input),
        Field::InitialBalance | Field::AlreadySaved | Field::BudgetLimit => zero_or_amount_reading(
            input,
        ),
        Field::GoalDeadline => deadline_reading(input, today),
        Field::ActualBalance => balance_reading(input),
        Field::CycleStartDay => kept_or(input, day_reading(input)),
        Field::YesterdayReportTime => kept_or(input, time_reading(input)),
        Field::TodayReportTime => kept_or(input, evening_time_reading(input)),
        Field::Description => description_reading(input),
        Field::AccountName | Field::GoalName | Field::CardName | Field::RecurrenceName => name_reading(
            input,
            MAX_NAME_CHARS as nat,
        ),
        Field::CategoryName => name_reading(input, MAX_CATEGORY_NAME_CHARS as nat),
        Field::CategoryEmoji => kept_or(input, emoji_reading(input)),
        Field::ClosingDay | Field::DueDay | Field::RecurrenceDay => day_reading(input),
        Field::Installments => installments_reading(input),
        _ => choice_reading(field, input),
    }
}

/// Reads `input` as the answer to `field`.
pub fn interpret(field: Field, input: &FormInput, today: Date) -> (out: Result<Interpreted, String>)
    requires
        today.valid(),
    ensures
        interprets_as(out, reading(field, *input, today)),
{
    let answer = match field {
        Field::Date => return date(input, today),
        Field::Amount | Field::GoalTarget => positive_amount(input),
        Field::InitialBalance | Field::AlreadySaved | Field::BudgetLimit => amount_or_zero(input),
        Field::GoalDeadline => deadline(input, today),
        Field::ActualBalance => signed_amount(input),
        Field::CycleStartDay => if is_skip_button(input) {
            Ok(Answer::Skipped)
        } else {
            day_of_month(input)
        },
        Field::YesterdayReportTime => if is_skip_button(input) {
            Ok(Answer::Skipped)
        } else {
            report_time(input)
        },
        Field::TodayReportTime => if is_skip_button(input) {
            Ok(Answer::Skipped)
        } else {
            evening_report_time(input)
        },
        Field::Description => description(input),
        Field::AccountName | Field::GoalName | Field::CardName | Field::RecurrenceName => name(
            input,
            MAX_NAME_CHARS,
        ),
        Field::CategoryName => name(input, MAX_CATEGORY_NAME_CHARS),
        Field::CategoryEmoji => if is_skip_button(input) {
            Ok(Answer::Skipped)
        } else {
            emoji(input)
        },
        Field::ClosingDay | Field::DueDay | Field::RecurrenceDay => day_of_month(input),
        Field::Installments => installments(input),
        _ => button_choice(field, input),
    };
    match answer {
        Ok(answer) => Ok(Interpreted::Answer(answer)),
        Err(problem) => Err(problem),
    }
}

/// Reads the date typed after [Outra data].
pub fn interpret_typed_date(input: &FormInput, today: Date) -> (out: Result<Answer, String>)
    ensures
        reads_as(out, typed_date_reading(*input, today)),
{
    match input {
        FormInput::Text(text) => {
            let chars = chars_of(text.as_str());
            match parse_typed_date_chars(&chars, today) {
                Some(date) => Ok(Answer::Date(date)),
                None => Err(BAD_DATE.to_owned()),
            }
        },
        FormInput::Button(_) => Err(BAD_DATE.to_owned()),
    }
}

fn is_skip_button(input: &FormInput) -> (skip: bool)
    ensures
        skip == is_skip(*input),
{
    match input {
        FormInput::Button(ButtonValue::Skip) => true,
        _ => false,
    }
}

fn positive_amount(input: &FormInput) -> (out: Result<Answer, String>)
    ensures
        reads_as(out, amount_reading(*input)),
{
    match input {
        FormInput::Text(text) => {
            let chars = chars_of(text.as_str());
            match parse_brl_chars(&chars) {
                Some(amount) => Ok(Answer::Money(amount)),
                None => Err(BAD_AMOUNT.to_owned()),
            }
        },
        FormInput::Button(ButtonValue::Money(amount)) => if amount.is_positive() {
            Ok(Answer::Money(*amount))
        } else {
            Err(TYPE_AMOUNT.to_owned())
        },
        FormInput::Button(_) => Err(TYPE_AMOUNT.to_owned()),
    }
}

fn amount_or_zero(input: &FormInput) -> (out: Result<Answer, String>)
    ensures
        reads_as(out, zero_or_amount_reading(*input)),
{
    match input {
        FormInput::Button(ButtonValue::Skip) => Ok(Answer::Money(Cents(0))),
        FormInput::Text(text) => {
            let chars = chars_of(text.as_str());
            if is_zero(&chars) {
                Ok(Answer::Money(Cents(0)))
            } else {
                positive_amount(input)
            }
        },
        _ => positive_amount(input),
    }
}

/// A balance: `-` in front means overdrawn.
fn signed_amount(input: &FormInput) -> (out: Result<Answer, String>)
    ensures
        reads_as(out, balance_reading(*input)),
{
    match input {
        FormInput::Text(text) => {
            let chars = chars_of(text.as_str());
            let cleaned = trim_chars(&chars);
            if cleaned.len() > 0 && cleaned[0] == '-' {
                let owed = crate::text::slice_of(&cleaned, 1, cleaned.len());
                assert(owed@ =~= cleaned@.drop_first());
                match parse_brl_chars(&owed) {
                    Some(amount) => Ok(Answer::Money(Cents(-amount.0))),
                    None => Err(BAD_AMOUNT.to_owned()),
                }
            } else {
                amount_or_zero(input)
            }
        },
        _ => amount_or_zero(input),
    }
}

/// The number `text` spells after spaces around it are left out, as
/// Rust's `parse::<u64>` reads it.
fn trimmed_number(text: &String) -> (value: Option<u64>)
    ensures
        match value {
            Some(v) => unsigned_numeral(trimmed(text@)) == Some(v as nat),
            None => match unsigned_numeral(trimmed(text@)) {
                Some(v) => v > u64::MAX,
                None => true,
            },
        },
{
    let chars = chars_of(text.as_str());
    let cleaned = trim_chars(&chars);
    assert(cleaned@.subrange(0, cleaned@.len() as int) =~= cleaned@);
    parse_unsigned(&cleaned, 0, cleaned.len())
}

fn day_of_month(input: &FormInput) -> (out: Result<Answer, String>)
    ensures
        reads_as(out, day_reading(*input)),
{
    match input {
        FormInput::Text(text) => match trimmed_number(text) {
            Some(day) => if 1 <= day && day <= 31 {
                Ok(Answer::Day(day as u8))
            } else {
                Err(DAY_PROBLEM.to_owned())
            },
            None => Err(DAY_PROBLEM.to_owned()),
        },
        _ => Err(DAY_PROBLEM.to_owned()),
    }
}

fn installments_message() -> (message: String)
    ensures
        message@ == installments_problem(),
{
    let mut out: Vec<char> = Vec::new();
    push_str(&mut out, "Escolha as parcelas ou digite um número de 1 a ");
    push_decimal(&mut out, MAX_INSTALLMENTS as u64);
    push_str(&mut out, ".");
    string_of(&out)
}

fn installments(input: &FormInput) -> (out: Result<Answer, String>)
    ensures
        reads_as(out, installments_reading(*input)),
{
    let count: u64 = match input {
        FormInput::Button(ButtonValue::Installments(count)) => *count as u64,
        FormInput::Text(text) => {
            let chars = chars_of(text.as_str());
            let cleaned = trim_chars(&chars);
            let mut end = cleaned.len();
            assert(cleaned@.subrange(0, end as int) =~= cleaned@);
            while end > 0 && (cleaned[end - 1] == 'x' || cleaned[end - 1] == 'X')
                invariant
                    end <= cleaned@.len(),
                    without_times_mark(cleaned@) == without_times_mark(cleaned@.subrange(0, end as int)),
                decreases end,
            {
                assert(cleaned@.subrange(0, end as int).drop_last() =~= cleaned@.subrange(0, end - 1));
                end = end - 1;
            }
            assert(without_times_mark(cleaned@.subrange(0, end as int)) == cleaned@.subrange(0, end as int));
            match parse_unsigned(&cleaned, 0, end) {
                Some(count) => count,
                None => return Err(installments_message()),
            }
        },
        FormInput::Button(_) => return Err(installments_message()),
    };
    if 1 <= count && count <= MAX_INSTALLMENTS as u64 {
        Ok(Answer::Installments(count as u32))
    } else {
        Err(installments_message())
    }
}

fn report_time(input: &FormInput) -> (out: Result<Answer, String>)
    ensures
        reads_as(out, time_reading(*input)),
        out matches Ok(answer) ==> answer matches Answer::Time(time) && time.valid(),
{
    match input {
        FormInput::Text(text) => {
            let chars = chars_of(text.as_str());
            match parse_typed_time_chars(&chars) {
                Some(time) => Ok(Answer::Time(time)),
                None => Err(TIME_PROBLEM.to_owned()),
            }
        },
        _ => Err(TIME_PROBLEM.to_owned()),
    }
}

/// The earliest time today's summary can be sent: 19:00.
pub fn earliest_today_report() -> (time: Time)
    ensures
        time == earliest_today_report_time(),
{
    Time { hour: 19, minute: 0 }
}

/// Whether today's summary may be sent at `time`.
pub fn is_evening_report_time(time: Time) -> (evening: bool)
    ensures
        evening == is_evening(time),
{
    let earliest = earliest_today_report();
    time.hour > earliest.hour || (time.hour == earliest.hour && time.minute >= earliest.minute)
}

/// Today's summary only makes sense once most of the day is over.
fn evening_report_time(input: &FormInput) -> (out: Result<Answer, String>)
    ensures
        reads_as(out, evening_time_reading(*input)),
{
    let answer = match report_time(input) {
        Ok(answer) => answer,
        Err(problem) => return Err(problem),
    };
    match answer {
        Answer::Time(time) => if is_evening_report_time(time) {
            Ok(Answer::Time(time))
        } else {
            let mut out: Vec<char> = Vec::new();
            push_str(&mut out, "O resumo de hoje só pode ser a partir das ");
            let earliest = format_hour_minute(earliest_today_report());
            push_str(&mut out, earliest.as_str());
            push_str(&mut out, ".");
            Err(string_of(&out))
        },
        _ => Ok(answer),
    }
}

fn deadline(input: &FormInput, today: Date) -> (out: Result<Answer, String>)
    ensures
        reads_as(out, deadline_reading(*input, today)),
{
    match input {
        FormInput::Button(ButtonValue::Skip) => Ok(Answer::Skipped),
        FormInput::Text(text) => {
            let chars = chars_of(text.as_str());
            match parse_typed_date_chars(&chars, today) {
                Some(date) => if today.is_before(date) {
                    Ok(Answer::Date(date))
                } else {
                    Err(PAST_DEADLINE.to_owned())
                },
                None => Err(BAD_DATE.to_owned()),
            }
        },
        FormInput::Button(_) => Err(DEADLINE_BUTTON.to_owned()),
    }
}

fn description(input: &FormInput) -> (out: Result<Answer, String>)
    ensures
        reads_as(out, description_reading(*input)),
{
    match input {
        FormInput::Button(ButtonValue::Skip) => Ok(Answer::Skipped),
        FormInput::Text(text) => {
            let chars = chars_of(text.as_str());
            let cleaned = trim_chars(&chars);
            if cleaned.len() <= MAX_DESCRIPTION_CHARS {
                Ok(Answer::Text(string_of(&cleaned)))
            } else {
                Err(LONG_DESCRIPTION.to_owned())
            }
        },
        FormInput::Button(_) => Err(DESCRIPTION_BUTTON.to_owned()),
    }
}

fn name(input: &FormInput, max_chars: usize) -> (out: Result<Answer, String>)
    requires
        max_chars <= u64::MAX,
    ensures
        reads_as(out, name_reading(*input, max_chars as nat)),
{
    match input {
        FormInput::Text(text) => {
            let chars = chars_of(text.as_str());
            let cleaned = trim_chars(&chars);
            if 1 <= cleaned.len() && cleaned.len() <= max_chars {
                Ok(Answer::Text(string_of(&cleaned)))
            } else {
                let mut out: Vec<char> = Vec::new();
                push_str(&mut out, "Use um nome de 1 a ");
                push_decimal(&mut out, max_chars as u64);
                push_str(&mut out, " letras.");
                Err(string_of(&out))
            }
        },
        _ => Err(TYPE_NAME.to_owned()),
    }
}

/// Whether any character of `chars` is a letter or a digit.
fn has_alphanumeric(chars: &Vec<char>) -> (found: bool)
    ensures
        found == exists|i: int| 0 <= i < chars@.len() && is_alnum(#[trigger] chars@[i]),
{
    let mut i: usize = 0;
    while i < chars.len()
        invariant
            i <= chars@.len(),
            forall|j: int| 0 <= j < i ==> !is_alnum(#[trigger] chars@[j]),
        decreases chars@.len() - i,
    {
        if is_alphanumeric(chars[i]) {
            return true;
        }
        i = i + 1;
    }
    false
}

fn emoji(input: &FormInput) -> (out: Result<Answer, String>)
    ensures
        reads_as(out, emoji_reading(*input)),
{
    match input {
        FormInput::Text(text) => {
            let chars = chars_of(text.as_str());
            let cleaned = trim_chars(&chars);
            if cleaned.len() == 0 || cleaned.len() > MAX_EMOJI_CHARS {
                return Err(EMOJI_PROBLEM.to_owned());
            }
            if has_alphanumeric(&cleaned) {
                return Err(EMOJI_PROBLEM.to_owned());
            }
            Ok(Answer::Text(string_of(&cleaned)))
        },
        _ => Err(EMOJI_PROBLEM.to_owned()),
    }
}

fn date(input: &FormInput, today: Date) -> (out: Result<Interpreted, String>)
    requires
        today.valid(),
    ensures
        interprets_as(out, date_reading(*input, today)),
{
    match input {
        FormInput::Button(ButtonValue::Today) => Ok(Interpreted::Answer(Answer::Date(today))),
        FormInput::Button(ButtonValue::Yesterday) => {
            let yesterday = match previous_day(today) {
                Some(day) => day,
                None => today,
            };
            Ok(Interpreted::Answer(Answer::Date(yesterday)))
        },
        FormInput::Button(ButtonValue::OtherDate) => Ok(Interpreted::AskTypedDate),
        FormInput::Text(_) => match interpret_typed_date(input, today) {
            Ok(answer) => Ok(Interpreted::Answer(answer)),
            Err(problem) => Err(problem),
        },
        FormInput::Button(_) => Err(PICK_A_BUTTON.to_owned()),
    }
}

/// Whether an account button answers `field`.
pub fn takes_account(field: Field) -> (takes: bool)
    ensures
        takes == account_field(field),
{
    match field {
        Field::PaymentAccount | Field::ReceivingAccount | Field::FromAccount | Field::ToAccount
        | Field::RefundTarget => true,
        _ => false,
    }
}

fn button_choice(field: Field, input: &FormInput) -> (out: Result<Answer, String>)
    ensures
        reads_as(out, choice_reading(field, *input)),
{
    let value = match input {
        FormInput::Button(value) => *value,
        FormInput::Text(_) => return Err(PICK_A_BUTTON.to_owned()),
    };
    match value {
        ButtonValue::Category(id) if field == Field::ExpenseCategory || field
            == Field::IncomeCategory => Ok(Answer::Category(id)),
        ButtonValue::Goal(id) if field == Field::Goal => Ok(Answer::Goal(id)),
        ButtonValue::Kind(kind) if field == Field::AccountKind && kind != AccountKind::Pot => Ok(
            Answer::AccountKind(kind),
        ),
        ButtonValue::Card(id) if field == Field::PaymentAccount || field == Field::RefundTarget
            || field == Field::CardChoice => Ok(Answer::Card(id)),
        ButtonValue::Invoice(id) if field == Field::InvoiceChoice => Ok(Answer::Invoice(id)),
        ButtonValue::Account(id) if takes_account(field) => Ok(Answer::Account(id)),
        _ => option_choice(field, value),
    }
}

/// Fields answered by picking one of a fixed set of options.
fn option_choice(field: Field, value: ButtonValue) -> (out: Result<Answer, String>)
    ensures
        reads_as(out, option_reading(field, value)),
{
    match (field, value) {
        (Field::EditFieldChoice, ButtonValue::EditChoice(choice)) => Ok(Answer::EditChoice(choice)),
        (Field::CategoryKindChoice, ButtonValue::CategoryKind(kind)) => Ok(
            Answer::CategoryKind(kind),
        ),
        (Field::EssentialChoice, ButtonValue::Essential(essential)) => Ok(
            Answer::Essential(essential),
        ),
        (Field::RecurrenceKindChoice, ButtonValue::RecurrenceKind(kind)) => Ok(
            Answer::RecurrenceKind(kind),
        ),
        (Field::RecurrenceModeChoice, ButtonValue::RecurrenceMode(mode)) => Ok(
            Answer::RecurrenceMode(mode),
        ),
        (Field::RecordKindChoice, ButtonValue::RecordKind(kind)) => Ok(Answer::RecordKind(kind)),
        (Field::RecordFieldChoice, ButtonValue::RecordField(record_field)) => Ok(
            Answer::RecordField(record_field),
        ),
        (Field::RecordTarget, ButtonValue::Recurrence(id)) => Ok(Answer::Recurrence(id)),
        _ => Err(PICK_A_BUTTON.to_owned()),
    }
}

/// Every day of the month is taken when typed: for each field that asks for
/// a day, the numeral of `day` gives that day as the answer exactly when
/// `1 <= day <= 31`; any other number is refused with the day message.
pub proof fn lemma_every_day_of_month_accepted(
    field: Field,
    day: nat,
    text: String,
    today: Date,
    out: Result<Interpreted, String>,
)
    requires
        field == Field::ClosingDay || field == Field::DueDay || field == Field::RecurrenceDay || field
            == Field::CycleStartDay,
        text@ == decimal(day),
        interprets_as(out, reading(field, FormInput::Text(text), today)),
    ensures
        1 <= day <= 31 ==> (out matches Ok(Interpreted::Answer(Answer::Day(typed))) && typed == day),
        !(1 <= day <= 31) ==> (out matches Err(problem) && problem@ == DAY_PROBLEM@),
{
    let digits = decimal(day);
    lemma_decimal(day);
    assert(is_digit(digits[0]));
    assert(is_digit(digits[digits.len() - 1]));
    lemma_trim_plain(digits);
    assert(unsigned_numeral(trimmed(text@)) == Some(day));
}

} // verus!
