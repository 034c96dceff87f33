//! Answers given so far in a form, and the small choices forms offer.

use vstd::prelude::*;

use super::form::Field;
use crate::calendar::{Date, Time};
use crate::model::{
    AccountId, AccountKind, CardId, CategoryId, CategoryKind, Cents, EntryId, GoalId, InvoiceId,
    RecurrenceId, RecurrenceKind, RecurrenceMode,
};
use crate::text::{chars_of, range_is};

verus! {

#[derive(Clone, Debug, PartialEq, Eq)]
pub enum Answer {
    Money(Cents),
    Text(String),
    Skipped,
    Category(CategoryId),
    Account(AccountId),
    Goal(GoalId),
    Date(Date),
    AccountKind(AccountKind),
    Card(CardId),
    Invoice(InvoiceId),
    Installments(u32),
    /// `3/10` typed for a plan already under way: this installment of that
    /// many, and the amount typed is the value of one installment.
    InstallmentsFrom { current: u32, total: u32 },
    /// A plain number, such as how many installments a financing has.
    Count(u32),
    Day(u8),
    RecurrenceKind(RecurrenceKind),
    RecurrenceMode(RecurrenceMode),
    /// The entry being edited, with a short label for the card.
    Entry { id: EntryId, income: bool, label: String },
    EditChoice(EditChoice),
    Time(Time),
    CategoryKind(CategoryKind),
    Essential(bool),
    RecordKind(RecordKind),
    RecordField(RecordField),
    Recurrence(RecurrenceId),
}

pub open spec fn record_kind_fields(kind: RecordKind) -> Seq<RecordField> {
    match kind {
        RecordKind::Account => seq![RecordField::Name],
        RecordKind::Card => seq![RecordField::Name, RecordField::Closing, RecordField::Due],
        RecordKind::Category => seq![RecordField::Name, RecordField::Emoji],
        RecordKind::Goal => seq![RecordField::Name, RecordField::Target, RecordField::Deadline],
        RecordKind::Recurrence => seq![RecordField::Amount, RecordField::Day, RecordField::Mode],
    }
}

/// Which kind of record `/editar` changes.
#[derive(Clone, Copy, Debug, PartialEq, Eq, Hash, Structural)]
pub enum RecordKind {
    Account,
    Card,
    Category,
    Goal,
    Recurrence,
}

/// The code of each value in button payloads.
pub open spec fn record_kind_code(value: RecordKind) -> Seq<char> {
    match value {
        RecordKind::Account => "account"@,
        RecordKind::Card => "card"@,
        RecordKind::Category => "category"@,
        RecordKind::Goal => "goal"@,
        RecordKind::Recurrence => "recurrence"@,
    }
}

/// The value whose code is `code`.
pub open spec fn record_kind_named(code: Seq<char>) -> Option<RecordKind> {
    if code == "account"@ {
        Some(RecordKind::Account)
    } else if code == "card"@ {
        Some(RecordKind::Card)
    } else if code == "category"@ {
        Some(RecordKind::Category)
    } else if code == "goal"@ {
        Some(RecordKind::Goal)
    } else if code == "recurrence"@ {
        Some(RecordKind::Recurrence)
    } else {
        None
    }
}

/// Each code names its own value.
pub proof fn lemma_record_kind_codes(value: RecordKind)
    ensures
        record_kind_named(record_kind_code(value)) == Some(value),
{
    reveal_strlit("account");
    reveal_strlit("card");
    reveal_strlit("category");
    reveal_strlit("goal");
    reveal_strlit("recurrence");
    match value {
        RecordKind::Account => {
            assert("account"@.len() != "card"@.len());
            assert("account"@.len() != "category"@.len());
            assert("account"@.len() != "goal"@.len());
            assert("account"@.len() != "recurrence"@.len());
        },
        RecordKind::Card => {
            assert("card"@.len() != "account"@.len());
            assert("card"@.len() != "category"@.len());
            assert("card"@[0] != "goal"@[0]);
            assert("card"@.len() != "recurrence"@.len());
        },
        RecordKind::Category => {
            assert("category"@.len() != "account"@.len());
            assert("category"@.len() != "card"@.len());
            assert("category"@.len() != "goal"@.len());
            assert("category"@.len() != "recurrence"@.len());
        },
        RecordKind::Goal => {
            assert("goal"@.len() != "account"@.len());
            assert("goal"@[0] != "card"@[0]);
            assert("goal"@.len() != "category"@.len());
            assert("goal"@.len() != "recurrence"@.len());
        },
        RecordKind::Recurrence => {
            assert("recurrence"@.len() != "account"@.len());
            assert("recurrence"@.len() != "card"@.len());
            assert("recurrence"@.len() != "category"@.len());
            assert("recurrence"@.len() != "goal"@.len());
        },
    }
}

impl RecordKind {
    pub fn all() -> (values: Vec<RecordKind>)
        ensures
            values@ == seq![RecordKind::Account, RecordKind::Card, RecordKind::Category, RecordKind::Goal, RecordKind::Recurrence],
    {
        vec![RecordKind::Account, RecordKind::Card, RecordKind::Category, RecordKind::Goal, RecordKind::Recurrence]
    }

    pub fn code(self) -> (code: &'static str)
        ensures
            code@ == record_kind_code(self),
    {
        match self {
            RecordKind::Account => "account",
            RecordKind::Card => "card",
            RecordKind::Category => "category",
            RecordKind::Goal => "goal",
            RecordKind::Recurrence => "recurrence",
        }
    }

    /// The value whose code is `chars[from..to]`.
    pub fn from_code_in(chars: &Vec<char>, from: usize, to: usize) -> (value: Option<RecordKind>)
        requires
            from <= to <= chars@.len(),
        ensures
            value == record_kind_named(chars@.subrange(from as int, to as int)),
    {
        if range_is(chars, from, to, "account") {
            Some(RecordKind::Account)
        } else if range_is(chars, from, to, "card") {
            Some(RecordKind::Card)
        } else if range_is(chars, from, to, "category") {
            Some(RecordKind::Category)
        } else if range_is(chars, from, to, "goal") {
            Some(RecordKind::Goal)
        } else if range_is(chars, from, to, "recurrence") {
            Some(RecordKind::Recurrence)
        } else {
            None
        }
    }

    /// The value whose code is `code`.
    pub fn from_code(code: &str) -> (value: Option<RecordKind>)
        ensures
            value == record_kind_named(code@),
    {
        let chars = chars_of(code);
        proof {
            assert(chars@.subrange(0, chars@.len() as int) =~= code@);
        }
        RecordKind::from_code_in(&chars, 0, chars.len())
    }

    /// The fields that kind of record can change.
    pub fn fields(self) -> (fields: Vec<RecordField>)
        ensures
            fields@ == record_kind_fields(self),
    {
        match self {
            RecordKind::Account => vec![RecordField::Name],
            RecordKind::Card => vec![RecordField::Name, RecordField::Closing, RecordField::Due],
            RecordKind::Category => vec![RecordField::Name, RecordField::Emoji],
            RecordKind::Goal => vec![RecordField::Name, RecordField::Target, RecordField::Deadline],
            RecordKind::Recurrence => vec![RecordField::Amount, RecordField::Day, RecordField::Mode],
        }
    }
}

/// Which field of that record `/editar` changes.
#[derive(Clone, Copy, Debug, PartialEq, Eq, Hash, Structural)]
pub enum RecordField {
    Name,
    Emoji,
    Closing,
    Due,
    Target,
    Deadline,
    Amount,
    Day,
    Mode,
}

/// The code of each value in button payloads.
pub open spec fn record_field_code(value: RecordField) -> Seq<char> {
    match value {
        RecordField::Name => "name"@,
        RecordField::Emoji => "emoji"@,
        RecordField::Closing => "closing"@,
        RecordField::Due => "due"@,
        RecordField::Target => "target"@,
        RecordField::Deadline => "deadline"@,
        RecordField::Amount => "amount"@,
        RecordField::Day => "day"@,
        RecordField::Mode => "mode"@,
    }
}

/// The value whose code is `code`.
pub open spec fn record_field_named(code: Seq<char>) -> Option<RecordField> {
    if code == "name"@ {
        Some(RecordField::Name)
    } else if code == "emoji"@ {
        Some(RecordField::Emoji)
    } else if code == "closing"@ {
        Some(RecordField::Closing)
    } else if code == "due"@ {
        Some(RecordField::Due)
    } else if code == "target"@ {
        Some(RecordField::Target)
    } else if code == "deadline"@ {
        Some(RecordField::Deadline)
    } else if code == "amount"@ {
        Some(RecordField::Amount)
    } else if code == "day"@ {
        Some(RecordField::Day)
    } else if code == "mode"@ {
        Some(RecordField::Mode)
    } else {
        None
    }
}

/// Each code names its own value.
pub proof fn lemma_record_field_codes(value: RecordField)
    ensures
        record_field_named(record_field_code(value)) == Some(value),
{
    reveal_strlit("name");
    reveal_strlit("emoji");
    reveal_strlit("closing");
    reveal_strlit("due");
    reveal_strlit("target");
    reveal_strlit("deadline");
    reveal_strlit("amount");
    reveal_strlit("day");
    reveal_strlit("mode");
    match value {
        RecordField::Name => {
            assert("name"@.len() != "emoji"@.len());
            assert("name"@.len() != "closing"@.len());
            assert("name"@.len() != "due"@.len());
            assert("name"@.len() != "target"@.len());
            assert("name"@.len() != "deadline"@.len());
            assert("name"@.len() != "amount"@.len());
            assert("name"@.len() != "day"@.len());
            assert("name"@[0] != "mode"@[0]);
        },
        RecordField::Emoji => {
            assert("emoji"@.len() != "name"@.len());
            assert("emoji"@.len() != "closing"@.len());
            assert("emoji"@.len() != "due"@.len());
            assert("emoji"@.len() != "target"@.len());
            assert("emoji"@.len() != "deadline"@.len());
            assert("emoji"@.len() != "amount"@.len());
            assert("emoji"@.len() != "day"@.len());
            assert("emoji"@.len() != "mode"@.len());
        },
        RecordField::Closing => {
            assert("closing"@.len() != "name"@.len());
            assert("closing"@.len() != "emoji"@.len());
            assert("closing"@.len() != "due"@.len());
            assert("closing"@.len() != "target"@.len());
            assert("closing"@.len() != "deadline"@.len());
            assert("closing"@.len() != "amount"@.len());
            assert("closing"@.len() != "day"@.len());
            assert("closing"@.len() != "mode"@.len());
        },
        RecordField::Due => {
            assert("due"@.len() != "name"@.len());
            assert("due"@.len() != "emoji"@.len());
            assert("due"@.len() != "closing"@.len());
            assert("due"@.len() != "target"@.len());
            assert("due"@.len() != "deadline"@.len());
            assert("due"@.len() != "amount"@.len());
            assert("due"@[1] != "day"@[1]);
            assert("due"@.len() != "mode"@.len());
        },
        RecordField::Target => {
            assert("target"@.len() != "name"@.len());
            assert("target"@.len() != "emoji"@.len());
            assert("target"@.len() != "closing"@.len());
            assert("target"@.len() != "due"@.len());
            assert("target"@.len() != "deadline"@.len());
            assert("target"@[0] != "amount"@[0]);
            assert("target"@.len() != "day"@.len());
            assert("target"@.len() != "mode"@.len());
        },
        RecordField::Deadline => {
            assert("deadline"@.len() != "name"@.len());
            assert("deadline"@.len() != "emoji"@.len());
            assert("deadline"@.len() != "closing"@.len());
            assert("deadline"@.len() != "due"@.len());
            assert("deadline"@.len() != "target"@.len());
            assert("deadline"@.len() != "amount"@.len());
            assert("deadline"@.len() != "day"@.len());
            assert("deadline"@.len() != "mode"@.len());
        },
        RecordField::Amount => {
            assert("amount"@.len() != "name"@.len());
            assert("amount"@.len() != "emoji"@.len());
            assert("amount"@.len() != "closing"@.len());
            assert("amount"@.len() != "due"@.len());
            assert("amount"@[0] != "target"@[0]);
            assert("amount"@.len() != "deadline"@.len());
            assert("amount"@.len() != "day"@.len());
            assert("amount"@.len() != "mode"@.len());
        },
        RecordField::Day => {
            assert("day"@.len() != "name"@.len());
            assert("day"@.len() != "emoji"@.len());
            assert("day"@.len() != "closing"@.len());
            assert("day"@[1] != "due"@[1]);
            assert("day"@.len() != "target"@.len());
            assert("day"@.len() != "deadline"@.len());
            assert("day"@.len() != "amount"@.len());
            assert("day"@.len() != "mode"@.len());
        },
        RecordField::Mode => {
            assert("mode"@[0] != "name"@[0]);
            assert("mode"@.len() != "emoji"@.len());
            assert("mode"@.len() != "closing"@.len());
            assert("mode"@.len() != "due"@.len());
            assert("mode"@.len() != "target"@.len());
            assert("mode"@.len() != "deadline"@.len());
            assert("mode"@.len() != "amount"@.len());
            assert("mode"@.len() != "day"@.len());
        },
    }
}

impl RecordField {
    pub fn all() -> (values: Vec<RecordField>)
        ensures
            values@ == seq![RecordField::Name, RecordField::Emoji, RecordField::Closing, RecordField::Due, RecordField::Target, RecordField::Deadline, RecordField::Amount, RecordField::Day, RecordField::Mode],
    {
        vec![RecordField::Name, RecordField::Emoji, RecordField::Closing, RecordField::Due, RecordField::Target, RecordField::Deadline, RecordField::Amount, RecordField::Day, RecordField::Mode]
    }

    pub fn code(self) -> (code: &'static str)
        ensures
            code@ == record_field_code(self),
    {
        match self {
            RecordField::Name => "name",
            RecordField::Emoji => "emoji",
            RecordField::Closing => "closing",
            RecordField::Due => "due",
            RecordField::Target => "target",
            RecordField::Deadline => "deadline",
            RecordField::Amount => "amount",
            RecordField::Day => "day",
            RecordField::Mode => "mode",
        }
    }

    /// The value whose code is `chars[from..to]`.
    pub fn from_code_in(chars: &Vec<char>, from: usize, to: usize) -> (value: Option<RecordField>)
        requires
            from <= to <= chars@.len(),
        ensures
            value == record_field_named(chars@.subrange(from as int, to as int)),
    {
        if range_is(chars, from, to, "name") {
            Some(RecordField::Name)
        } else if range_is(chars, from, to, "emoji") {
            Some(RecordField::Emoji)
        } else if range_is(chars, from, to, "closing") {
            Some(RecordField::Closing)
        } else if range_is(chars, from, to, "due") {
            Some(RecordField::Due)
        } else if range_is(chars, from, to, "target") {
            Some(RecordField::Target)
        } else if range_is(chars, from, to, "deadline") {
            Some(RecordField::Deadline)
        } else if range_is(chars, from, to, "amount") {
            Some(RecordField::Amount)
        } else if range_is(chars, from, to, "day") {
            Some(RecordField::Day)
        } else if range_is(chars, from, to, "mode") {
            Some(RecordField::Mode)
        } else {
            None
        }
    }

    /// The value whose code is `code`.
    pub fn from_code(code: &str) -> (value: Option<RecordField>)
        ensures
            value == record_field_named(code@),
    {
        let chars = chars_of(code);
        proof {
            assert(chars@.subrange(0, chars@.len() as int) =~= code@);
        }
        RecordField::from_code_in(&chars, 0, chars.len())
    }
}

/// Which part of an entry `/ultimos` → ✏️ changes.
#[derive(Clone, Copy, Debug, PartialEq, Eq, Hash, Structural)]
pub enum EditChoice {
    Amount,
    Description,
    Category,
    Date,
}

/// The code of each value in button payloads.
pub open spec fn edit_choice_code(value: EditChoice) -> Seq<char> {
    match value {
        EditChoice::Amount => "amount"@,
        EditChoice::Description => "description"@,
        EditChoice::Category => "category"@,
        EditChoice::Date => "date"@,
    }
}

/// The value whose code is `code`.
pub open spec fn edit_choice_named(code: Seq<char>) -> Option<EditChoice> {
    if code == "amount"@ {
        Some(EditChoice::Amount)
    } else if code == "description"@ {
        Some(EditChoice::Description)
    } else if code == "category"@ {
        Some(EditChoice::Category)
    } else if code == "date"@ {
        Some(EditChoice::Date)
    } else {
        None
    }
}

/// Each code names its own value.
pub proof fn lemma_edit_choice_codes(value: EditChoice)
    ensures
        edit_choice_named(edit_choice_code(value)) == Some(value),
{
    reveal_strlit("amount");
    reveal_strlit("description");
    reveal_strlit("category");
    reveal_strlit("date");
    match value {
        EditChoice::Amount => {
            assert("amount"@.len() != "description"@.len());
            assert("amount"@.len() != "category"@.len());
            assert("amount"@.len() != "date"@.len());
        },
        EditChoice::Description => {
            assert("description"@.len() != "amount"@.len());
            assert("description"@.len() != "category"@.len());
            assert("description"@.len() != "date"@.len());
        },
        EditChoice::Category => {
            assert("category"@.len() != "amount"@.len());
            assert("category"@.len() != "description"@.len());
            assert("category"@.len() != "date"@.len());
        },
        EditChoice::Date => {
            assert("date"@.len() != "amount"@.len());
            assert("date"@.len() != "description"@.len());
            assert("date"@.len() != "category"@.len());
        },
    }
}

impl EditChoice {
    pub fn all() -> (values: Vec<EditChoice>)
        ensures
            values@ == seq![EditChoice::Amount, EditChoice::Description, EditChoice::Category, EditChoice::Date],
    {
        vec![EditChoice::Amount, EditChoice::Description, EditChoice::Category, EditChoice::Date]
    }

    pub fn code(self) -> (code: &'static str)
        ensures
            code@ == edit_choice_code(self),
    {
        match self {
            EditChoice::Amount => "amount",
            EditChoice::Description => "description",
            EditChoice::Category => "category",
            EditChoice::Date => "date",
        }
    }

    /// The value whose code is `chars[from..to]`.
    pub fn from_code_in(chars: &Vec<char>, from: usize, to: usize) -> (value: Option<EditChoice>)
        requires
            from <= to <= chars@.len(),
        ensures
            value == edit_choice_named(chars@.subrange(from as int, to as int)),
    {
        if range_is(chars, from, to, "amount") {
            Some(EditChoice::Amount)
        } else if range_is(chars, from, to, "description") {
            Some(EditChoice::Description)
        } else if range_is(chars, from, to, "category") {
            Some(EditChoice::Category)
        } else if range_is(chars, from, to, "date") {
            Some(EditChoice::Date)
        } else {
            None
        }
    }

    /// The value whose code is `code`.
    pub fn from_code(code: &str) -> (value: Option<EditChoice>)
        ensures
            value == edit_choice_named(code@),
    {
        let chars = chars_of(code);
        proof {
            assert(chars@.subrange(0, chars@.len() as int) =~= code@);
        }
        EditChoice::from_code_in(&chars, 0, chars.len())
    }
}

} // verus!

verus! {

/// The answer recorded for `field`: the first one in the list.
pub open spec fn lookup(entries: Seq<(Field, Answer)>, field: Field) -> Option<Answer>
    decreases entries.len(),
{
    if entries.len() == 0 {
        None
    } else if entries[0].0 == field {
        Some(entries[0].1)
    } else {
        lookup(entries.drop_first(), field)
    }
}

/// `entries` without the answers to `field`, the rest in order.
pub open spec fn without(entries: Seq<(Field, Answer)>, field: Field) -> Seq<(Field, Answer)>
    decreases entries.len(),
{
    if entries.len() == 0 {
        entries
    } else {
        let rest = without(entries.drop_last(), field);
        if entries.last().0 == field {
            rest
        } else {
            rest.push(entries.last())
        }
    }
}

/// The answers after `field` is answered with `answer`: any older answer to
/// it is dropped and the new one goes last.
pub open spec fn with_answer(entries: Seq<(Field, Answer)>, field: Field, answer: Answer) -> Seq<(Field, Answer)> {
    without(entries, field).push((field, answer))
}

/// No field is answered twice.
pub open spec fn fields_unique(entries: Seq<(Field, Answer)>) -> bool {
    forall|i: int, j: int| 0 <= i < j < entries.len() ==> entries[i].0 != entries[j].0
}

pub proof fn lemma_lookup_push(entries: Seq<(Field, Answer)>, last: (Field, Answer), field: Field)
    ensures
        lookup(entries.push(last), field) == match lookup(entries, field) {
            Some(answer) => Some(answer),
            None => if last.0 == field { Some(last.1) } else { None },
        },
    decreases entries.len(),
{
    if entries.len() > 0 {
        assert(entries.push(last).drop_first() =~= entries.drop_first().push(last));
        lemma_lookup_push(entries.drop_first(), last, field);
    } else {
        assert(entries.push(last).drop_first() =~= entries);
    }
}

pub proof fn lemma_lookup_without(entries: Seq<(Field, Answer)>, removed: Field, field: Field)
    ensures
        lookup(without(entries, removed), field) == if field == removed { None } else { lookup(entries, field) },
    decreases entries.len(),
{
    if entries.len() > 0 {
        let init = entries.drop_last();
        lemma_lookup_without(init, removed, field);
        assert(init.push(entries.last()) =~= entries);
        lemma_lookup_push(init, entries.last(), field);
        if entries.last().0 != removed {
            lemma_lookup_push(without(init, removed), entries.last(), field);
        }
    }
}

pub proof fn lemma_without_fields(entries: Seq<(Field, Answer)>, removed: Field)
    ensures
        forall|i: int| 0 <= i < without(entries, removed).len() ==> (#[trigger] without(entries, removed)[i]).0 != removed,
        forall|i: int| 0 <= i < without(entries, removed).len() ==> entries.contains(#[trigger] without(entries, removed)[i]),
        fields_unique(entries) ==> fields_unique(without(entries, removed)),
    decreases entries.len(),
{
    if entries.len() > 0 {
        let init = entries.drop_last();
        lemma_without_fields(init, removed);
        let rest = without(init, removed);
        assert forall|i: int| 0 <= i < rest.len() implies entries.contains(#[trigger] rest[i]) by {
            let k = choose|k: int| 0 <= k < init.len() && init[k] == rest[i];
            assert(entries[k] == rest[i]);
        }
        if entries.last().0 != removed {
            let result = rest.push(entries.last());
            assert(result[rest.len() as int] == entries.last());
            assert(entries[entries.len() - 1] == entries.last());
            if fields_unique(entries) {
                assert forall|i: int, j: int| 0 <= i < j < result.len() implies result[i].0 != result[j].0 by {
                    if j == rest.len() {
                        let k = choose|k: int| 0 <= k < init.len() && init[k] == rest[i];
                        assert(entries[k] == rest[i]);
                    } else {
                        assert(result[i] == rest[i] && result[j] == rest[j]);
                    }
                }
            }
        }
    }
}

/// Answering a field and then reading any field gives the new answer for
/// that field and the earlier answer for every other one.
pub proof fn lemma_read_after_answer(entries: Seq<(Field, Answer)>, field: Field, answer: Answer, read: Field)
    ensures
        lookup(with_answer(entries, field, answer), read) == if read == field { Some(answer) } else { lookup(entries, read) },
{
    lemma_lookup_without(entries, field, read);
    lemma_lookup_push(without(entries, field), (field, answer), read);
}

/// Answering never leaves a field answered twice.
pub proof fn lemma_answer_keeps_fields_unique(entries: Seq<(Field, Answer)>, field: Field, answer: Answer)
    requires
        fields_unique(entries),
    ensures
        fields_unique(with_answer(entries, field, answer)),
{
    lemma_without_fields(entries, field);
    let rest = without(entries, field);
    let result = with_answer(entries, field, answer);
    assert forall|i: int, j: int| 0 <= i < j < result.len() implies result[i].0 != result[j].0 by {
        if j == rest.len() {
            assert(rest[i].0 != field);
        } else {
            assert(result[i] == rest[i] && result[j] == rest[j]);
        }
    }
}

/// Answers given so far, in the order the fields were asked.
#[derive(Clone, Debug, Default, PartialEq, Eq)]
pub struct Answers(pub Vec<(Field, Answer)>);

impl Answers {
    pub fn new() -> (answers: Answers)
        ensures
            answers.0@ == Seq::<(Field, Answer)>::empty(),
    {
        Answers(Vec::new())
    }

    pub fn get(&self, field: Field) -> (answer: Option<&Answer>)
        ensures
            match answer {
                Some(a) => lookup(self.0@, field) == Some(*a),
                None => lookup(self.0@, field) == None::<Answer>,
            },
    {
        let mut i: usize = 0;
        assert(self.0@.skip(0) =~= self.0@);
        while i < self.0.len()
            invariant
                i <= self.0@.len(),
                lookup(self.0@, field) == lookup(self.0@.skip(i as int), field),
            decreases self.0@.len() - i,
        {
            if self.0[i].0 == field {
                return Some(&self.0[i].1);
            }
            assert(self.0@.skip(i as int).drop_first() =~= self.0@.skip(i + 1));
            i = i + 1;
        }
        None
    }

    pub fn has(&self, field: Field) -> (answered: bool)
        ensures
            answered == lookup(self.0@, field).is_some(),
    {
        self.get(field).is_some()
    }

    pub fn set(&mut self, field: Field, answer: Answer)
        ensures
            final(self).0@ == with_answer(old(self).0@, field, answer),
    {
        let ghost initial = self.0@;
        let mut i: usize = 0;
        let ghost mut j: int = 0;
        assert(initial.take(0) =~= Seq::<(Field, Answer)>::empty());
        assert(initial.skip(0) =~= initial);
        while i < self.0.len()
            invariant
                0 <= j <= initial.len(),
                i == without(initial.take(j), field).len(),
                self.0@ == without(initial.take(j), field) + initial.skip(j),
            decreases self.0@.len() - i,
        {
            proof {
                assert(initial.take(j + 1).drop_last() =~= initial.take(j));
                assert(self.0@[i as int] == initial[j]);
            }
            if self.0[i].0 == field {
                self.0.remove(i);
                proof {
                    assert(self.0@ =~= without(initial.take(j + 1), field) + initial.skip(j + 1));
                }
            } else {
                proof {
                    assert(self.0@ =~= without(initial.take(j + 1), field) + initial.skip(j + 1));
                }
                i = i + 1;
            }
            proof { j = j + 1; }
        }
        proof {
            assert(initial.skip(j).len() == 0);
            assert(initial.take(j) =~= initial);
            assert(self.0@ =~= without(initial, field));
        }
        self.0.push((field, answer));
    }
}

} // verus!

verus! {

impl Answers {
    pub fn money(&self, field: Field) -> (value: Option<Cents>)
        ensures
            value == match lookup(self.0@, field) {
                Some(Answer::Money(amount)) => Some(amount),
                _ => None,
            },
    {
        match self.get(field) {
            Some(Answer::Money(amount)) => Some(*amount),
            _ => None,
        }
    }

    pub fn category(&self, field: Field) -> (value: Option<CategoryId>)
        ensures
            value == match lookup(self.0@, field) {
                Some(Answer::Category(id)) => Some(id),
                _ => None,
            },
    {
        match self.get(field) {
            Some(Answer::Category(id)) => Some(*id),
            _ => None,
        }
    }

    pub fn account(&self, field: Field) -> (value: Option<AccountId>)
        ensures
            value == match lookup(self.0@, field) {
                Some(Answer::Account(id)) => Some(id),
                _ => None,
            },
    {
        match self.get(field) {
            Some(Answer::Account(id)) => Some(*id),
            _ => None,
        }
    }

    pub fn goal_at(&self, field: Field) -> (value: Option<GoalId>)
        ensures
            value == match lookup(self.0@, field) {
                Some(Answer::Goal(id)) => Some(id),
                _ => None,
            },
    {
        match self.get(field) {
            Some(Answer::Goal(id)) => Some(*id),
            _ => None,
        }
    }

    pub fn date(&self) -> (value: Option<Date>)
        ensures
            value == match lookup(self.0@, Field::Date) {
                Some(Answer::Date(date)) => Some(date),
                _ => None,
            },
    {
        match self.get(Field::Date) {
            Some(Answer::Date(date)) => Some(*date),
            _ => None,
        }
    }

    pub fn card(&self, field: Field) -> (value: Option<CardId>)
        ensures
            value == match lookup(self.0@, field) {
                Some(Answer::Card(id)) => Some(id),
                _ => None,
            },
    {
        match self.get(field) {
            Some(Answer::Card(id)) => Some(*id),
            _ => None,
        }
    }

    pub fn invoice(&self) -> (value: Option<InvoiceId>)
        ensures
            value == match lookup(self.0@, Field::InvoiceChoice) {
                Some(Answer::Invoice(id)) => Some(id),
                _ => None,
            },
    {
        match self.get(Field::InvoiceChoice) {
            Some(Answer::Invoice(id)) => Some(*id),
            _ => None,
        }
    }

    pub fn count(&self, field: Field) -> (value: Option<u32>)
        ensures
            value == match lookup(self.0@, field) {
                Some(Answer::Count(count)) => Some(count),
                _ => None,
            },
    {
        match self.get(field) {
            Some(Answer::Count(count)) => Some(*count),
            _ => None,
        }
    }

    pub fn day(&self, field: Field) -> (value: Option<u8>)
        ensures
            value == match lookup(self.0@, field) {
                Some(Answer::Day(day)) => Some(day),
                _ => None,
            },
    {
        match self.get(field) {
            Some(Answer::Day(day)) => Some(*day),
            _ => None,
        }
    }

    pub fn time(&self, field: Field) -> (value: Option<Time>)
        ensures
            value == match lookup(self.0@, field) {
                Some(Answer::Time(time)) => Some(time),
                _ => None,
            },
    {
        match self.get(field) {
            Some(Answer::Time(time)) => Some(*time),
            _ => None,
        }
    }

    pub fn category_kind(&self) -> (value: Option<CategoryKind>)
        ensures
            value == match lookup(self.0@, Field::CategoryKindChoice) {
                Some(Answer::CategoryKind(kind)) => Some(kind),
                _ => None,
            },
    {
        match self.get(Field::CategoryKindChoice) {
            Some(Answer::CategoryKind(kind)) => Some(*kind),
            _ => None,
        }
    }

    pub fn record_kind(&self) -> (value: Option<RecordKind>)
        ensures
            value == match lookup(self.0@, Field::RecordKindChoice) {
                Some(Answer::RecordKind(kind)) => Some(kind),
                _ => None,
            },
    {
        match self.get(Field::RecordKindChoice) {
            Some(Answer::RecordKind(kind)) => Some(*kind),
            _ => None,
        }
    }

    pub fn record_field(&self) -> (value: Option<RecordField>)
        ensures
            value == match lookup(self.0@, Field::RecordFieldChoice) {
                Some(Answer::RecordField(field)) => Some(field),
                _ => None,
            },
    {
        match self.get(Field::RecordFieldChoice) {
            Some(Answer::RecordField(field)) => Some(*field),
            _ => None,
        }
    }

    pub fn recurrence(&self) -> (value: Option<RecurrenceId>)
        ensures
            value == match lookup(self.0@, Field::RecordTarget) {
                Some(Answer::Recurrence(id)) => Some(id),
                _ => None,
            },
    {
        match self.get(Field::RecordTarget) {
            Some(Answer::Recurrence(id)) => Some(*id),
            _ => None,
        }
    }

    pub fn essential(&self) -> (value: Option<bool>)
        ensures
            value == match lookup(self.0@, Field::EssentialChoice) {
                Some(Answer::Essential(essential)) => Some(essential),
                _ => None,
            },
    {
        match self.get(Field::EssentialChoice) {
            Some(Answer::Essential(essential)) => Some(*essential),
            _ => None,
        }
    }

    pub fn recurrence_kind(&self) -> (value: Option<RecurrenceKind>)
        ensures
            value == match lookup(self.0@, Field::RecurrenceKindChoice) {
                Some(Answer::RecurrenceKind(kind)) => Some(kind),
                _ => None,
            },
    {
        match self.get(Field::RecurrenceKindChoice) {
            Some(Answer::RecurrenceKind(kind)) => Some(*kind),
            _ => None,
        }
    }

    pub fn recurrence_mode(&self) -> (value: Option<RecurrenceMode>)
        ensures
            value == match lookup(self.0@, Field::RecurrenceModeChoice) {
                Some(Answer::RecurrenceMode(mode)) => Some(mode),
                _ => None,
            },
    {
        match self.get(Field::RecurrenceModeChoice) {
            Some(Answer::RecurrenceMode(mode)) => Some(*mode),
            _ => None,
        }
    }

    pub fn edit_choice(&self) -> (value: Option<EditChoice>)
        ensures
            value == match lookup(self.0@, Field::EditFieldChoice) {
                Some(Answer::EditChoice(choice)) => Some(choice),
                _ => None,
            },
    {
        match self.get(Field::EditFieldChoice) {
            Some(Answer::EditChoice(choice)) => Some(*choice),
            _ => None,
        }
    }

    pub fn account_kind(&self) -> (value: Option<AccountKind>)
        ensures
            value == match lookup(self.0@, Field::AccountKind) {
                Some(Answer::AccountKind(kind)) => Some(kind),
                _ => None,
            },
    {
        match self.get(Field::AccountKind) {
            Some(Answer::AccountKind(kind)) => Some(*kind),
            _ => None,
        }
    }

    pub fn goal(&self) -> (value: Option<GoalId>)
        ensures
            value == match lookup(self.0@, Field::Goal) {
                Some(Answer::Goal(id)) => Some(id),
                _ => None,
            },
    {
        self.goal_at(Field::Goal)
    }

    /// Text answer; a skipped field reads as empty.
    pub fn text(&self, field: Field) -> (value: Option<String>)
        ensures
            match value {
                Some(text) => match lookup(self.0@, field) {
                    Some(Answer::Text(typed)) => text@ == typed@,
                    Some(Answer::Skipped) => text@ == Seq::<char>::empty(),
                    _ => false,
                },
                None => !(lookup(self.0@, field) matches Some(Answer::Text(_)))
                    && !(lookup(self.0@, field) matches Some(Answer::Skipped)),
            },
    {
        match self.get(field) {
            Some(Answer::Text(text)) => Some(text.clone()),
            Some(Answer::Skipped) => Some(String::new()),
            _ => None,
        }
    }

    /// The optional goal deadline; `Some(None)` when skipped.
    pub fn deadline(&self) -> (value: Option<Option<Date>>)
        ensures
            value == match lookup(self.0@, Field::GoalDeadline) {
                Some(Answer::Date(date)) => Some(Some(date)),
                Some(Answer::Skipped) => Some(None),
                _ => None,
            },
    {
        match self.get(Field::GoalDeadline) {
            Some(Answer::Date(date)) => Some(Some(*date)),
            Some(Answer::Skipped) => Some(None),
            _ => None,
        }
    }

    /// Installments chosen; a card purchase without the step is 1x.
    pub fn installments(&self) -> (count: u32)
        ensures
            count == match lookup(self.0@, Field::Installments) {
                Some(Answer::Installments(count)) => count,
                Some(Answer::InstallmentsFrom { total, .. }) => total,
                _ => 1,
            },
    {
        match self.get(Field::Installments) {
            Some(Answer::Installments(count)) => *count,
            Some(Answer::InstallmentsFrom { total, .. }) => *total,
            _ => 1,
        }
    }

    /// The installment the purchase starts at: above 1 when it was typed
    /// as `3/10`, in which case the amount is per installment.
    pub fn first_installment(&self) -> (first: u32)
        ensures
            first == match lookup(self.0@, Field::Installments) {
                Some(Answer::InstallmentsFrom { current, .. }) => current,
                _ => 1,
            },
    {
        match self.get(Field::Installments) {
            Some(Answer::InstallmentsFrom { current, .. }) => *current,
            _ => 1,
        }
    }

    pub fn amount_is_per_installment(&self) -> (per_installment: bool)
        ensures
            per_installment == (lookup(self.0@, Field::Installments) matches Some(Answer::InstallmentsFrom { .. })),
    {
        matches!(self.get(Field::Installments), Some(Answer::InstallmentsFrom { .. }))
    }

    /// The edited entry and whether it is income.
    pub fn edited_entry(&self) -> (value: Option<(EntryId, bool)>)
        ensures
            value == match lookup(self.0@, Field::EditTarget) {
                Some(Answer::Entry { id, income, .. }) => Some((id, income)),
                _ => None,
            },
    {
        match self.get(Field::EditTarget) {
            Some(Answer::Entry { id, income, .. }) => Some((*id, *income)),
            _ => None,
        }
    }
}

} // verus!
