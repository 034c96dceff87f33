//! A form in progress as a state machine: each input either records an
//! answer, asks again, completes or cancels the form.

use vstd::prelude::*;

use super::answers::{Answer, Answers, EditChoice, lookup, with_answer};
use super::form::{Field, FormKind, field_applies, form_fields};
use super::interpret::{
    Interpreted, PICK_A_BUTTON, Reading, answer_reads, interpret, interpret_typed_date, reading,
    typed_date_reading,
};
use crate::calendar::Date;
use crate::callback_data::ButtonValue;
use crate::model::EntryId;

verus! {

/// What the form waits for next.
#[derive(Clone, Copy, Debug, PartialEq, Eq, Structural)]
pub enum Awaiting {
    Field(Field),
    /// After [Outra data]: waiting for a typed `dd/mm`.
    TypedDate,
    Confirmation,
}

/// One input from the chat: typed text or a tapped button.
#[derive(Clone, Debug, PartialEq, Eq)]
pub enum FormInput {
    Text(String),
    Button(ButtonValue),
}

/// A form in progress; kept in the flow store between messages.
#[derive(Clone, Debug, PartialEq, Eq)]
pub struct FormState {
    pub form: FormKind,
    pub answers: Answers,
    pub awaiting: Awaiting,
}

#[derive(Clone, Debug, PartialEq, Eq)]
pub enum Advance {
    /// Answer accepted; ask what `state.awaiting` says next.
    Next(FormState),
    /// Input rejected; tell `problem` and ask the same thing again.
    Retry { state: FormState, problem: String },
    /// The couple confirmed; build and run the command.
    Complete(FormState),
    Cancelled,
}

/// The first of `fields` that is asked in `form` and not yet answered, or
/// the confirmation when there is none.
pub open spec fn pending_among(fields: Seq<Field>, form: FormKind, entries: Seq<(Field, Answer)>) -> Awaiting
    decreases fields.len(),
{
    if fields.len() == 0 {
        Awaiting::Confirmation
    } else if field_applies(fields[0], form, entries) && lookup(entries, fields[0]).is_none() {
        Awaiting::Field(fields[0])
    } else {
        pending_among(fields.drop_first(), form, entries)
    }
}

/// What `form` asks next, given the answers so far.
pub open spec fn next_pending(form: FormKind, entries: Seq<(Field, Answer)>) -> Awaiting {
    pending_among(form_fields(form), form, entries)
}

/// `state` holds this form, these answers and waits for `awaiting`.
pub open spec fn state_is(state: FormState, form: FormKind, entries: Seq<(Field, Answer)>, awaiting: Awaiting) -> bool {
    &&& state.form == form
    &&& state.answers.0@ == entries
    &&& state.awaiting == awaiting
}

/// `state` is `before` with `answer` recorded for `field`, waiting for
/// what the form asks next.
pub open spec fn recorded(state: FormState, before: FormState, field: Field, answer: Answer) -> bool {
    let entries = with_answer(before.answers.0@, field, answer);
    state_is(state, before.form, entries, next_pending(before.form, entries))
}

/// The result of reading one input for `field` as `read`.
pub open spec fn read_outcome(before: FormState, field: Field, read: Reading, out: Advance) -> bool {
    match read {
        Reading::Problem(message) => out matches Advance::Retry { state, problem }
            && state_is(state, before.form, before.answers.0@, before.awaiting) && problem@ == message,
        Reading::AskTypedDate => out matches Advance::Next(state) && state_is(
            state,
            before.form,
            before.answers.0@,
            Awaiting::TypedDate,
        ),
        _ => out matches Advance::Next(state) && exists|answer: Answer|
            #[trigger] answer_reads(answer, read) && recorded(state, before, field, answer),
    }
}

/// What one input does to a form: cancel always cancels; at the
/// confirmation only [Confirmar] completes; otherwise the input is read for
/// the awaited field and either recorded or refused with the state kept.
pub open spec fn advanced(before: FormState, input: FormInput, today: Date, out: Advance) -> bool {
    if input matches FormInput::Button(ButtonValue::Cancel) {
        out is Cancelled
    } else {
        match before.awaiting {
            Awaiting::Confirmation => if input matches FormInput::Button(ButtonValue::Confirm) {
                out matches Advance::Complete(state) && state_is(
                    state,
                    before.form,
                    before.answers.0@,
                    before.awaiting,
                )
            } else {
                out matches Advance::Retry { state, problem } && state_is(
                    state,
                    before.form,
                    before.answers.0@,
                    before.awaiting,
                ) && problem@ == PICK_A_BUTTON@
            },
            Awaiting::TypedDate => read_outcome(
                before,
                Field::Date,
                typed_date_reading(input, today),
                out,
            ),
            Awaiting::Field(field) => read_outcome(before, field, reading(field, input, today), out),
        }
    }
}

proof fn lemma_pending_among(fields: Seq<Field>, form: FormKind, entries: Seq<(Field, Answer)>)
    ensures
        pending_among(fields, form, entries) matches Awaiting::Field(field) ==> fields.contains(field)
            && field_applies(field, form, entries) && lookup(entries, field).is_none(),
        pending_among(fields, form, entries) is Confirmation ==> forall|i: int| 0 <= i < fields.len()
            ==> !field_applies(#[trigger] fields[i], form, entries) || lookup(entries, fields[i]).is_some(),
        !(pending_among(fields, form, entries) is TypedDate),
    decreases fields.len(),
{
    if fields.len() > 0 {
        lemma_pending_among(fields.drop_first(), form, entries);
        if let Awaiting::Field(field) = pending_among(fields, form, entries) {
            if field != fields[0] {
                let k = choose|k: int| 0 <= k < fields.drop_first().len() && fields.drop_first()[k] == field;
                assert(fields[k + 1] == field);
            } else {
                assert(fields[0] == field);
            }
        }
        if pending_among(fields, form, entries) is Confirmation {
            assert forall|i: int| 0 <= i < fields.len() implies !field_applies(#[trigger] fields[i], form, entries)
                || lookup(entries, fields[i]).is_some() by {
                if i > 0 {
                    assert(fields[i] == fields.drop_first()[i - 1]);
                }
            }
        }
    }
}

/// The form asks a field of its own that applies and is not answered yet;
/// it asks for confirmation only once every field of the form that applies
/// has an answer.
pub proof fn lemma_next_pending(form: FormKind, entries: Seq<(Field, Answer)>)
    ensures
        next_pending(form, entries) matches Awaiting::Field(field) ==> form_fields(form).contains(field)
            && field_applies(field, form, entries) && lookup(entries, field).is_none(),
        next_pending(form, entries) is Confirmation ==> forall|i: int| 0 <= i < form_fields(form).len()
            ==> !field_applies(#[trigger] form_fields(form)[i], form, entries)
            || lookup(entries, form_fields(form)[i]).is_some(),
        !(next_pending(form, entries) is TypedDate),
{
    lemma_pending_among(form_fields(form), form, entries);
}

/// A field just answered is never the one asked next.
pub proof fn lemma_answered_field_not_asked_again(
    before: FormState,
    field: Field,
    answer: Answer,
    after: FormState,
)
    requires
        recorded(after, before, field, answer),
    ensures
        after.awaiting != Awaiting::Field(field),
        after.answers.0@ == with_answer(before.answers.0@, field, answer),
{
    let entries = with_answer(before.answers.0@, field, answer);
    lemma_next_pending(before.form, entries);
    crate::flows::answers::lemma_read_after_answer(before.answers.0@, field, answer, field);
}

/// [Cancelar] ends any form, whatever it waits for.
pub proof fn lemma_cancel_always_works(before: FormState, today: Date, out: Advance)
    requires
        advanced(before, FormInput::Button(ButtonValue::Cancel), today, out),
    ensures
        out is Cancelled,
{
}

/// A form completes only at its confirmation and only by [Confirmar], and
/// completes with exactly the answers it held.
pub proof fn lemma_completes_only_on_confirm(before: FormState, input: FormInput, today: Date, out: Advance)
    requires
        advanced(before, input, today, out),
        out is Complete,
    ensures
        before.awaiting == Awaiting::Confirmation,
        input == FormInput::Button(ButtonValue::Confirm),
        out matches Advance::Complete(done) && state_is(done, before.form, before.answers.0@, before.awaiting),
{
}

/// Input that cannot be read is refused with the form unchanged: the same
/// answers, the same question.
pub proof fn lemma_refusal_keeps_state(before: FormState, input: FormInput, today: Date, out: Advance)
    requires
        advanced(before, input, today, out),
        out is Retry,
    ensures
        out matches Advance::Retry { state, .. } && state_is(state, before.form, before.answers.0@, before.awaiting),
{
}

/// Editing an entry's category offers categories of the entry's own kind:
/// once the category is picked as what to change, income categories are
/// asked exactly when the entry is income and expense categories exactly
/// when it is not, and that is the question asked next.
pub proof fn lemma_edit_category_matches_entry(
    entries: Seq<(Field, Answer)>,
    id: EntryId,
    income: bool,
    label: String,
)
    requires
        lookup(entries, Field::EditTarget) == Some(Answer::Entry { id, income, label }),
        lookup(entries, Field::EditFieldChoice) == Some(Answer::EditChoice(EditChoice::Category)),
    ensures
        field_applies(Field::IncomeCategory, FormKind::EditEntry, entries) == income,
        field_applies(Field::ExpenseCategory, FormKind::EditEntry, entries) == !income,
        lookup(entries, Field::ExpenseCategory) is None && lookup(entries, Field::IncomeCategory) is None
            ==> next_pending(FormKind::EditEntry, entries) == Awaiting::Field(
            if income {
                Field::IncomeCategory
            } else {
                Field::ExpenseCategory
            },
        ),
{
    let fields = form_fields(FormKind::EditEntry);
    assert(fields == seq![
        Field::EditTarget,
        Field::EditFieldChoice,
        Field::Amount,
        Field::Description,
        Field::ExpenseCategory,
        Field::IncomeCategory,
        Field::Date,
    ]);
    if lookup(entries, Field::ExpenseCategory) is None && lookup(entries, Field::IncomeCategory) is None {
        let f1 = fields.drop_first();
        let f2 = f1.drop_first();
        let f3 = f2.drop_first();
        let f4 = f3.drop_first();
        let f5 = f4.drop_first();
        assert(f1[0] == Field::EditFieldChoice);
        assert(f2[0] == Field::Amount);
        assert(f3[0] == Field::Description);
        assert(f4[0] == Field::ExpenseCategory);
        assert(f5[0] == Field::IncomeCategory);
        assert(pending_among(fields, FormKind::EditEntry, entries) == pending_among(f1, FormKind::EditEntry, entries));
        assert(pending_among(f1, FormKind::EditEntry, entries) == pending_among(f2, FormKind::EditEntry, entries));
        assert(pending_among(f2, FormKind::EditEntry, entries) == pending_among(f3, FormKind::EditEntry, entries));
        assert(pending_among(f3, FormKind::EditEntry, entries) == pending_among(f4, FormKind::EditEntry, entries));
        if income {
            assert(pending_among(f4, FormKind::EditEntry, entries) == pending_among(f5, FormKind::EditEntry, entries));
        }
    }
}

impl FormState {
    /// A form with some answers already known (the entry being edited).
    pub fn with_answers(form: FormKind, answers: Answers) -> (state: FormState)
        ensures
            state_is(state, form, answers.0@, next_pending(form, answers.0@)),
    {
        let mut state = FormState { form, answers, awaiting: Awaiting::Confirmation };
        state.awaiting = state.next_awaiting();
        state
    }

    pub fn start(form: FormKind) -> (state: FormState)
        ensures
            state_is(state, form, Seq::empty(), next_pending(form, Seq::empty())),
    {
        let mut state = FormState { form, answers: Answers::new(), awaiting: Awaiting::Confirmation };
        state.awaiting = state.next_awaiting();
        state
    }

    /// Applies one input.
    pub fn advance(self, input: &FormInput, today: Date) -> (out: Advance)
        requires
            today.valid(),
        ensures
            advanced(self, *input, today, out),
    {
        if let FormInput::Button(ButtonValue::Cancel) = input {
            return Advance::Cancelled;
        }
        match self.awaiting {
            Awaiting::Confirmation => self.confirm(input),
            Awaiting::TypedDate => self.typed_date(input, today),
            Awaiting::Field(field) => self.answer_field(field, input, today),
        }
    }

    fn confirm(self, input: &FormInput) -> (out: Advance)
        ensures
            if input matches FormInput::Button(ButtonValue::Confirm) {
                out matches Advance::Complete(state) && state_is(state, self.form, self.answers.0@, self.awaiting)
            } else {
                out matches Advance::Retry { state, problem } && state_is(state, self.form, self.answers.0@, self.awaiting)
                    && problem@ == PICK_A_BUTTON@
            },
    {
        if let FormInput::Button(ButtonValue::Confirm) = input {
            return Advance::Complete(self);
        }
        Advance::Retry { state: self, problem: PICK_A_BUTTON.to_owned() }
    }

    fn typed_date(self, input: &FormInput, today: Date) -> (out: Advance)
        ensures
            read_outcome(self, Field::Date, typed_date_reading(*input, today), out),
    {
        match interpret_typed_date(input, today) {
            Ok(answer) => self.record(Field::Date, answer),
            Err(problem) => Advance::Retry { state: self, problem },
        }
    }

    fn answer_field(self, field: Field, input: &FormInput, today: Date) -> (out: Advance)
        requires
            today.valid(),
        ensures
            read_outcome(self, field, reading(field, *input, today), out),
    {
        match interpret(field, input, today) {
            Ok(Interpreted::Answer(answer)) => self.record(field, answer),
            Ok(Interpreted::AskTypedDate) => {
                let mut state = self;
                state.awaiting = Awaiting::TypedDate;
                Advance::Next(state)
            },
            Err(problem) => Advance::Retry { state: self, problem },
        }
    }

    fn record(self, field: Field, answer: Answer) -> (out: Advance)
        ensures
            out matches Advance::Next(state) && recorded(state, self, field, answer),
    {
        let mut state = self;
        state.answers.set(field, answer);
        state.awaiting = state.next_awaiting();
        Advance::Next(state)
    }

    fn next_awaiting(&self) -> (next: Awaiting)
        ensures
            next == next_pending(self.form, self.answers.0@),
    {
        let fields = self.form.fields();
        let mut i: usize = 0;
        assert(fields@.skip(0) =~= fields@);
        while i < fields.len()
            invariant
                i <= fields@.len(),
                next_pending(self.form, self.answers.0@) == pending_among(
                    fields@.skip(i as int),
                    self.form,
                    self.answers.0@,
                ),
            decreases fields@.len() - i,
        {
            let field = fields[i];
            if field.applies(self.form, &self.answers) && !self.answers.has(field) {
                return Awaiting::Field(field);
            }
            assert(fields@.skip(i as int).drop_first() =~= fields@.skip(i + 1));
            i = i + 1;
        }
        Awaiting::Confirmation
    }
}

} // verus!
