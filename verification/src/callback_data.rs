//! Inline button payloads. Telegram caps `callback_data` at 64 bytes.
//!
//! Flow buttons carry a nonce derived from the flow's draft id, so a tap
//! on an old keyboard, or on the other spouse's keyboard, is recognised
//! and rejected instead of answering the wrong flow.

use vstd::prelude::*;

use crate::calendar::{
    Date, parsed_compact, parsed_iso, format_compact, format_iso, parse_compact,
    parse_iso,
};
use crate::flows::answers::{
    EditChoice, RecordField, RecordKind, edit_choice_code, edit_choice_named, record_field_code,
    record_field_named, record_kind_code, record_kind_named,
};
use crate::ids::{hex_padded, parse_uuid, push_hex_padded, push_uuid, uuid_text, uuid_value};
use crate::model::{
    AccountId, AccountKind, CardId, CategoryId, CategoryKind, Cents, DraftId, EntryId, GoalId,
    InvoiceId, PurchaseId, RecurrenceId, RecurrenceKind, RecurrenceMode, account_kind_code,
    account_kind_named, category_kind_code, category_kind_named, recurrence_kind_code,
    recurrence_kind_named, recurrence_mode_code, recurrence_mode_named,
};
use crate::numbers::{
    decimal, parse_signed, parse_unsigned, push_decimal, push_signed_decimal, signed_decimal, signed_numeral,
    unsigned_numeral, digits_in,
};
use crate::text::{
    byte_len, chars_of, find_char, first_at, is_ascii_text, lemma_ascii_byte_len, lemma_ascii_concat, lemma_first_at, push_str,
    range_is, slice_of, string_of,
};

verus! {

/// The most bytes Telegram accepts in a button's `callback_data`.
pub const MAX_CALLBACK_BYTES: usize = 64;

#[derive(Clone, Copy, Debug, PartialEq, Eq, Structural)]
pub enum ButtonValue {
    Skip,
    Category(CategoryId),
    Account(AccountId),
    Goal(GoalId),
    Today,
    Yesterday,
    OtherDate,
    Kind(AccountKind),
    Card(CardId),
    Invoice(InvoiceId),
    Installments(u32),
    /// A suggested amount, such as the full invoice total.
    Money(Cents),
    RecurrenceKind(RecurrenceKind),
    RecurrenceMode(RecurrenceMode),
    EditChoice(EditChoice),
    CategoryKind(CategoryKind),
    /// "É essencial?" in `/novacategoria`.
    Essential(bool),
    /// `/editar`: the kind of record, one recurring entry, and the field.
    RecordKind(RecordKind),
    Recurrence(RecurrenceId),
    RecordField(RecordField),
    Confirm,
    Cancel,
}

#[derive(Clone, Debug, PartialEq, Eq)]
pub enum CallbackPayload {
    Flow { nonce: String, value: ButtonValue },
    /// [Desfazer] under a confirmation message.
    Undo(EntryId),
    /// [Desfazer] under a card purchase: removes every installment.
    UndoPurchase(PurchaseId),
    /// [Registrar] on a bill that asks before recording.
    RecordRecurrence(RecurrenceId, Date),
    /// [Pular] on the same message.
    SkipRecurrence(RecurrenceId, Date),
    /// [Desativar] in `/recorrentes`.
    DeactivateRecurrence(RecurrenceId),
    /// [✏️] in `/ultimos`.
    EditEntry(EntryId),
    /// [🗑️] in `/ultimos`.
    DeleteEntry(EntryId),
    /// A category in `/essenciais`: switches its essential mark.
    ToggleEssential(CategoryId),
    /// A category button in `/extrato`: its entries between two dates.
    CategoryStatement { category: CategoryId, from: Date, to: Date },
}

pub open spec fn id_text(id: u128) -> Seq<char> {
    uuid_text(id as nat)
}

pub open spec fn tagged(tag: Seq<char>, value: Seq<char>) -> Seq<char> {
    tag + seq![':'] + value
}

/// The code a value carries after the nonce.
pub open spec fn value_code(value: ButtonValue) -> Seq<char> {
    match value {
        ButtonValue::Skip => seq!['s'],
        ButtonValue::Today => seq!['d', 't'],
        ButtonValue::Yesterday => seq!['d', 'y'],
        ButtonValue::OtherDate => seq!['d', 'o'],
        ButtonValue::Confirm => seq!['o', 'k'],
        ButtonValue::Cancel => seq!['x'],
        ButtonValue::Category(id) => tagged(seq!['c'], id_text(id.0)),
        ButtonValue::Account(id) => tagged(seq!['a'], id_text(id.0)),
        ButtonValue::Goal(id) => tagged(seq!['g'], id_text(id.0)),
        ButtonValue::Kind(kind) => tagged(seq!['k'], account_kind_code(kind)),
        ButtonValue::Card(id) => tagged(seq!['c', 'c'], id_text(id.0)),
        ButtonValue::Invoice(id) => tagged(seq!['i'], id_text(id.0)),
        ButtonValue::Installments(count) => tagged(seq!['n'], decimal(count as nat)),
        ButtonValue::Money(amount) => tagged(seq!['m'], signed_decimal(amount.0 as int)),
        ButtonValue::RecurrenceKind(kind) => tagged(seq!['r', 'k'], recurrence_kind_code(kind)),
        ButtonValue::RecurrenceMode(mode) => tagged(seq!['r', 'm'], recurrence_mode_code(mode)),
        ButtonValue::EditChoice(choice) => tagged(seq!['e', 'c'], edit_choice_code(choice)),
        ButtonValue::CategoryKind(kind) => tagged(seq!['c', 'k'], category_kind_code(kind)),
        ButtonValue::Essential(essential) => tagged(
            seq!['e', 's'],
            if essential { seq!['1'] } else { seq!['0'] },
        ),
        ButtonValue::RecordKind(kind) => tagged(seq!['r', 'w'], record_kind_code(kind)),
        ButtonValue::RecordField(field) => tagged(seq!['r', 'f'], record_field_code(field)),
        ButtonValue::Recurrence(id) => tagged(seq!['r', 'c'], id_text(id.0)),
    }
}

/// The payload of a flow button: the flow's nonce, `|`, the value's code.
pub open spec fn flow_text(nonce: Seq<char>, value: ButtonValue) -> Seq<char> {
    nonce + seq!['|'] + value_code(value)
}

/// The buttons that carry no value.
pub open spec fn fixed_value(code: Seq<char>) -> Option<ButtonValue> {
    if code == seq!['s'] {
        Some(ButtonValue::Skip)
    } else if code == seq!['d', 't'] {
        Some(ButtonValue::Today)
    } else if code == seq!['d', 'y'] {
        Some(ButtonValue::Yesterday)
    } else if code == seq!['d', 'o'] {
        Some(ButtonValue::OtherDate)
    } else if code == seq!['o', 'k'] {
        Some(ButtonValue::Confirm)
    } else if code == seq!['x'] {
        Some(ButtonValue::Cancel)
    } else {
        None
    }
}

/// The value of an id written as a UUID.
pub open spec fn id_value(text: Seq<char>) -> Option<u128> {
    match uuid_value(text) {
        Some(v) => Some(v as u128),
        None => None,
    }
}

/// A value of a fixed set of choices, by tag.
pub open spec fn choice_value(tag: Seq<char>, value: Seq<char>) -> Option<ButtonValue> {
    if tag == seq!['r', 'k'] {
        match recurrence_kind_named(value) {
            Some(kind) => Some(ButtonValue::RecurrenceKind(kind)),
            None => None,
        }
    } else if tag == seq!['r', 'm'] {
        match recurrence_mode_named(value) {
            Some(mode) => Some(ButtonValue::RecurrenceMode(mode)),
            None => None,
        }
    } else if tag == seq!['e', 'c'] {
        match edit_choice_named(value) {
            Some(choice) => Some(ButtonValue::EditChoice(choice)),
            None => None,
        }
    } else if tag == seq!['c', 'k'] {
        match category_kind_named(value) {
            Some(kind) => Some(ButtonValue::CategoryKind(kind)),
            None => None,
        }
    } else if tag == seq!['r', 'w'] {
        match record_kind_named(value) {
            Some(kind) => Some(ButtonValue::RecordKind(kind)),
            None => None,
        }
    } else if tag == seq!['r', 'f'] {
        match record_field_named(value) {
            Some(field) => Some(ButtonValue::RecordField(field)),
            None => None,
        }
    } else if tag == seq!['r', 'c'] {
        match id_value(value) {
            Some(v) => Some(ButtonValue::Recurrence(RecurrenceId(v))),
            None => None,
        }
    } else if tag == seq!['e', 's'] && value == seq!['1'] {
        Some(ButtonValue::Essential(true))
    } else if tag == seq!['e', 's'] && value == seq!['0'] {
        Some(ButtonValue::Essential(false))
    } else {
        None
    }
}

/// A value written as `tag:value`.
pub open spec fn tagged_value(code: Seq<char>) -> Option<ButtonValue> {
    let k = first_at(code, ':') as int;
    if k == code.len() {
        None
    } else {
        let tag = code.take(k);
        let value = code.skip(k + 1);
        if tag == seq!['c'] {
            match id_value(value) {
                Some(v) => Some(ButtonValue::Category(CategoryId(v))),
                None => None,
            }
        } else if tag == seq!['a'] {
            match id_value(value) {
                Some(v) => Some(ButtonValue::Account(AccountId(v))),
                None => None,
            }
        } else if tag == seq!['g'] {
            match id_value(value) {
                Some(v) => Some(ButtonValue::Goal(GoalId(v))),
                None => None,
            }
        } else if tag == seq!['k'] {
            match account_kind_named(value) {
                Some(kind) => Some(ButtonValue::Kind(kind)),
                None => None,
            }
        } else if tag == seq!['c', 'c'] {
            match id_value(value) {
                Some(v) => Some(ButtonValue::Card(CardId(v))),
                None => None,
            }
        } else if tag == seq!['i'] {
            match id_value(value) {
                Some(v) => Some(ButtonValue::Invoice(InvoiceId(v))),
                None => None,
            }
        } else if tag == seq!['n'] {
            match unsigned_numeral(value) {
                Some(v) => if v <= u32::MAX { Some(ButtonValue::Installments(v as u32)) } else { None },
                None => None,
            }
        } else if tag == seq!['m'] {
            match signed_numeral(value) {
                Some(v) => if i64::MIN <= v <= i64::MAX {
                    Some(ButtonValue::Money(Cents(v as i64)))
                } else {
                    None
                },
                None => None,
            }
        } else {
            choice_value(tag, value)
        }
    }
}

/// The value a code stands for.
pub open spec fn decoded_value(code: Seq<char>) -> Option<ButtonValue> {
    match fixed_value(code) {
        Some(v) => Some(v),
        None => tagged_value(code),
    }
}

} // verus!

verus! {

/// [`decoded_value`] of `chars[from..to]`.
fn decode_value(chars: &Vec<char>, from: usize, to: usize) -> (value: Option<ButtonValue>)
    requires
        from <= to <= chars@.len(),
    ensures
        value == decoded_value(chars@.subrange(from as int, to as int)),
{
    let ghost code = chars@.subrange(from as int, to as int);
    if range_is(chars, from, to, "s") {
        proof { reveal_strlit("s"); assert("s"@ =~= seq!['s']); }
        return Some(ButtonValue::Skip);
    }
    if range_is(chars, from, to, "dt") {
        proof { reveal_strlit("dt"); assert("dt"@ =~= seq!['d', 't']); }
        return Some(ButtonValue::Today);
    }
    if range_is(chars, from, to, "dy") {
        proof { reveal_strlit("dy"); assert("dy"@ =~= seq!['d', 'y']); }
        return Some(ButtonValue::Yesterday);
    }
    if range_is(chars, from, to, "do") {
        proof { reveal_strlit("do"); assert("do"@ =~= seq!['d', 'o']); }
        return Some(ButtonValue::OtherDate);
    }
    if range_is(chars, from, to, "ok") {
        proof { reveal_strlit("ok"); assert("ok"@ =~= seq!['o', 'k']); }
        return Some(ButtonValue::Confirm);
    }
    if range_is(chars, from, to, "x") {
        proof { reveal_strlit("x"); assert("x"@ =~= seq!['x']); }
        return Some(ButtonValue::Cancel);
    }
    proof {
        reveal_strlit("s"); assert("s"@ =~= seq!['s']);
        reveal_strlit("dt"); assert("dt"@ =~= seq!['d', 't']);
        reveal_strlit("dy"); assert("dy"@ =~= seq!['d', 'y']);
        reveal_strlit("do"); assert("do"@ =~= seq!['d', 'o']);
        reveal_strlit("ok"); assert("ok"@ =~= seq!['o', 'k']);
        reveal_strlit("x"); assert("x"@ =~= seq!['x']);
        assert(fixed_value(code).is_none());
    }
    decode_tagged(chars, from, to)
}

/// [`tagged_value`] of `chars[from..to]`.
fn decode_tagged(chars: &Vec<char>, from: usize, to: usize) -> (value: Option<ButtonValue>)
    requires
        from <= to <= chars@.len(),
    ensures
        value == tagged_value(chars@.subrange(from as int, to as int)),
{
    let ghost code = chars@.subrange(from as int, to as int);
    let k = match find_char(chars, from, to, ':') {
        Some(k) => k,
        None => {
            proof { lemma_first_at(code, ':', code.len() as int); }
            return None;
        },
    };
    proof {
        lemma_first_at(code, ':', k - from);
        assert(code.take(k - from) =~= chars@.subrange(from as int, k as int));
        assert(code.skip(k - from + 1) =~= chars@.subrange(k + 1, to as int));
        reveal_strlit("c"); assert("c"@ =~= seq!['c']);
        reveal_strlit("a"); assert("a"@ =~= seq!['a']);
        reveal_strlit("g"); assert("g"@ =~= seq!['g']);
        reveal_strlit("k"); assert("k"@ =~= seq!['k']);
        reveal_strlit("cc"); assert("cc"@ =~= seq!['c', 'c']);
        reveal_strlit("i"); assert("i"@ =~= seq!['i']);
        reveal_strlit("n"); assert("n"@ =~= seq!['n']);
        reveal_strlit("m"); assert("m"@ =~= seq!['m']);
    }
    let v = k + 1;
    if range_is(chars, from, k, "c") {
        return match parse_uuid(chars, v, to) {
            Some(id) => Some(ButtonValue::Category(CategoryId(id))),
            None => None,
        };
    }
    if range_is(chars, from, k, "a") {
        return match parse_uuid(chars, v, to) {
            Some(id) => Some(ButtonValue::Account(AccountId(id))),
            None => None,
        };
    }
    if range_is(chars, from, k, "g") {
        return match parse_uuid(chars, v, to) {
            Some(id) => Some(ButtonValue::Goal(GoalId(id))),
            None => None,
        };
    }
    if range_is(chars, from, k, "k") {
        return match AccountKind::from_code_in(chars, v, to) {
            Some(kind) => Some(ButtonValue::Kind(kind)),
            None => None,
        };
    }
    if range_is(chars, from, k, "cc") {
        return match parse_uuid(chars, v, to) {
            Some(id) => Some(ButtonValue::Card(CardId(id))),
            None => None,
        };
    }
    if range_is(chars, from, k, "i") {
        return match parse_uuid(chars, v, to) {
            Some(id) => Some(ButtonValue::Invoice(InvoiceId(id))),
            None => None,
        };
    }
    if range_is(chars, from, k, "n") {
        return match parse_unsigned(chars, v, to) {
            Some(count) => if count <= 4294967295u64 { Some(ButtonValue::Installments(count as u32)) } else { None },
            None => None,
        };
    }
    if range_is(chars, from, k, "m") {
        return match parse_signed(chars, v, to) {
            Some(cents) => Some(ButtonValue::Money(Cents(cents))),
            None => None,
        };
    }
    decode_choice(chars, from, k, to)
}

/// [`choice_value`] of the tag `chars[from..k]` and the value after the
/// `:` at `k`.
fn decode_choice(chars: &Vec<char>, from: usize, k: usize, to: usize) -> (value: Option<ButtonValue>)
    requires
        from <= k < to <= chars@.len(),
    ensures
        value == choice_value(chars@.subrange(from as int, k as int), chars@.subrange(k + 1, to as int)),
{
    let v = k + 1;
    proof {
        reveal_strlit("rk"); assert("rk"@ =~= seq!['r', 'k']);
        reveal_strlit("rm"); assert("rm"@ =~= seq!['r', 'm']);
        reveal_strlit("ec"); assert("ec"@ =~= seq!['e', 'c']);
        reveal_strlit("ck"); assert("ck"@ =~= seq!['c', 'k']);
        reveal_strlit("rw"); assert("rw"@ =~= seq!['r', 'w']);
        reveal_strlit("rf"); assert("rf"@ =~= seq!['r', 'f']);
        reveal_strlit("rc"); assert("rc"@ =~= seq!['r', 'c']);
        reveal_strlit("es"); assert("es"@ =~= seq!['e', 's']);
        reveal_strlit("1"); assert("1"@ =~= seq!['1']);
        reveal_strlit("0"); assert("0"@ =~= seq!['0']);
    }
    if range_is(chars, from, k, "rk") {
        return match RecurrenceKind::from_code_in(chars, v, to) {
            Some(kind) => Some(ButtonValue::RecurrenceKind(kind)),
            None => None,
        };
    }
    if range_is(chars, from, k, "rm") {
        return match RecurrenceMode::from_code_in(chars, v, to) {
            Some(mode) => Some(ButtonValue::RecurrenceMode(mode)),
            None => None,
        };
    }
    if range_is(chars, from, k, "ec") {
        return match EditChoice::from_code_in(chars, v, to) {
            Some(choice) => Some(ButtonValue::EditChoice(choice)),
            None => None,
        };
    }
    if range_is(chars, from, k, "ck") {
        return match CategoryKind::from_code_in(chars, v, to) {
            Some(kind) => Some(ButtonValue::CategoryKind(kind)),
            None => None,
        };
    }
    if range_is(chars, from, k, "rw") {
        return match RecordKind::from_code_in(chars, v, to) {
            Some(kind) => Some(ButtonValue::RecordKind(kind)),
            None => None,
        };
    }
    if range_is(chars, from, k, "rf") {
        return match RecordField::from_code_in(chars, v, to) {
            Some(field) => Some(ButtonValue::RecordField(field)),
            None => None,
        };
    }
    if range_is(chars, from, k, "rc") {
        return match parse_uuid(chars, v, to) {
            Some(id) => Some(ButtonValue::Recurrence(RecurrenceId(id))),
            None => None,
        };
    }
    if range_is(chars, from, k, "es") {
        if range_is(chars, v, to, "1") {
            return Some(ButtonValue::Essential(true));
        }
        if range_is(chars, v, to, "0") {
            return Some(ButtonValue::Essential(false));
        }
    }
    None
}

} // verus!

verus! {

pub open spec fn entry_id_value(text: Seq<char>) -> Option<EntryId> {
    match id_value(text) {
        Some(v) => Some(EntryId(v)),
        None => None,
    }
}

pub open spec fn recurrence_id_value(text: Seq<char>) -> Option<RecurrenceId> {
    match id_value(text) {
        Some(v) => Some(RecurrenceId(v)),
        None => None,
    }
}

/// `cs|<category>|<aaaammdd>|<aaaammdd>`, after the `cs|`. Anything after a
/// third `|` is ignored.
pub open spec fn statement_payload(tail: Seq<char>) -> Option<CallbackPayload> {
    let a = first_at(tail, '|') as int;
    if a == tail.len() {
        None
    } else {
        let rest = tail.skip(a + 1);
        let b = first_at(rest, '|') as int;
        if b == rest.len() {
            None
        } else {
            let last = rest.skip(b + 1);
            let c = first_at(last, '|') as int;
            match (id_value(tail.take(a)), parsed_compact(rest.take(b)), parsed_compact(last.take(c))) {
                (Some(id), Some(from), Some(to)) => Some(
                    CallbackPayload::CategoryStatement { category: CategoryId(id), from, to },
                ),
                _ => None,
            }
        }
    }
}

/// `rr|<recurrence>|<aaaa-mm-dd>` and `rs|...`, after the head.
pub open spec fn recurrence_payload(record: bool, tail: Seq<char>) -> Option<CallbackPayload> {
    let a = first_at(tail, '|') as int;
    if a == tail.len() {
        None
    } else {
        match (id_value(tail.take(a)), parsed_iso(tail.skip(a + 1))) {
            (Some(id), Some(date)) => Some(
                if record {
                    CallbackPayload::RecordRecurrence(RecurrenceId(id), date)
                } else {
                    CallbackPayload::SkipRecurrence(RecurrenceId(id), date)
                },
            ),
            _ => None,
        }
    }
}

/// Heads of the buttons that are not flow buttons.
pub open spec fn reserved_head(head: Seq<char>) -> bool {
    ||| head == seq!['u']
    ||| head == seq!['u', 'p']
    ||| head == seq!['r', 'd']
    ||| head == seq!['e', 'e']
    ||| head == seq!['e', 'd']
    ||| head == seq!['c', 's']
    ||| head == seq!['e', 't']
    ||| head == seq!['r', 'r']
    ||| head == seq!['r', 's']
}

/// The payload of a button other than a flow button, by its head.
pub open spec fn fixed_payload(head: Seq<char>, tail: Seq<char>) -> Option<CallbackPayload> {
    if head == seq!['u'] {
        match entry_id_value(tail) {
            Some(id) => Some(CallbackPayload::Undo(id)),
            None => None,
        }
    } else if head == seq!['u', 'p'] {
        match id_value(tail) {
            Some(v) => Some(CallbackPayload::UndoPurchase(PurchaseId(v))),
            None => None,
        }
    } else if head == seq!['r', 'd'] {
        match recurrence_id_value(tail) {
            Some(id) => Some(CallbackPayload::DeactivateRecurrence(id)),
            None => None,
        }
    } else if head == seq!['e', 'e'] {
        match entry_id_value(tail) {
            Some(id) => Some(CallbackPayload::EditEntry(id)),
            None => None,
        }
    } else if head == seq!['e', 'd'] {
        match entry_id_value(tail) {
            Some(id) => Some(CallbackPayload::DeleteEntry(id)),
            None => None,
        }
    } else if head == seq!['c', 's'] {
        statement_payload(tail)
    } else if head == seq!['e', 't'] {
        match id_value(tail) {
            Some(v) => Some(CallbackPayload::ToggleEssential(CategoryId(v))),
            None => None,
        }
    } else {
        recurrence_payload(head == seq!['r', 'r'], tail)
    }
}

/// What [`parse`] reads from `data`: the text before the first `|` names
/// the button; any other text there is a flow's nonce.
pub open spec fn parsed_as(data: Seq<char>, payload: Option<CallbackPayload>) -> bool {
    let k = first_at(data, '|') as int;
    if k == data.len() {
        payload.is_none()
    } else {
        let head = data.take(k);
        let tail = data.skip(k + 1);
        if reserved_head(head) {
            payload == fixed_payload(head, tail)
        } else {
            match decoded_value(tail) {
                Some(v) => match payload {
                    Some(CallbackPayload::Flow { nonce, value }) => nonce@ == head && value == v,
                    _ => false,
                },
                None => payload.is_none(),
            }
        }
    }
}

/// Reads a payload produced by this module; anything else is `None`.
pub fn parse(data: &str) -> (payload: Option<CallbackPayload>)
    ensures
        parsed_as(data@, payload),
{
    let chars = chars_of(data);
    let n = chars.len();
    let k = match find_char(&chars, 0, n, '|') {
        Some(k) => k,
        None => {
            proof { lemma_first_at(chars@, '|', n as int); }
            return None;
        },
    };
    let ghost head = chars@.take(k as int);
    let ghost tail = chars@.skip(k + 1);
    proof {
        lemma_first_at(chars@, '|', k as int);
        assert(head =~= chars@.subrange(0, k as int));
        assert(tail =~= chars@.subrange(k + 1, n as int));
    }
    let t = k + 1;
    if let Some(payload) = fixed_in(&chars, k, n) {
        return payload;
    }
    let value = match decode_value(&chars, t, n) {
        Some(v) => v,
        None => return None,
    };
    let nonce = string_of(&slice_of(&chars, 0, k));
    Some(CallbackPayload::Flow { nonce, value })
}

/// For a reserved head `chars[0..k]`, the payload it stands for
/// (`Some(None)` when its tail does not read); `None` for other heads.
fn fixed_in(chars: &Vec<char>, k: usize, n: usize) -> (payload: Option<Option<CallbackPayload>>)
    requires
        k < n == chars@.len(),
    ensures
        match payload {
            Some(p) => reserved_head(chars@.subrange(0, k as int)) && p == fixed_payload(
                chars@.subrange(0, k as int),
                chars@.subrange(k + 1, n as int),
            ),
            None => !reserved_head(chars@.subrange(0, k as int)),
        },
{
    let t = k + 1;
    proof {
        reveal_strlit("u"); assert("u"@ =~= seq!['u']);
        reveal_strlit("up"); assert("up"@ =~= seq!['u', 'p']);
        reveal_strlit("rd"); assert("rd"@ =~= seq!['r', 'd']);
        reveal_strlit("ee"); assert("ee"@ =~= seq!['e', 'e']);
        reveal_strlit("ed"); assert("ed"@ =~= seq!['e', 'd']);
        reveal_strlit("cs"); assert("cs"@ =~= seq!['c', 's']);
        reveal_strlit("et"); assert("et"@ =~= seq!['e', 't']);
        reveal_strlit("rr"); assert("rr"@ =~= seq!['r', 'r']);
        reveal_strlit("rs"); assert("rs"@ =~= seq!['r', 's']);
    }
    if range_is(chars, 0, k, "u") {
        return Some(match parse_uuid(chars, t, n) {
            Some(v) => Some(CallbackPayload::Undo(EntryId(v))),
            None => None,
        });
    }
    if range_is(chars, 0, k, "up") {
        return Some(match parse_uuid(chars, t, n) {
            Some(v) => Some(CallbackPayload::UndoPurchase(PurchaseId(v))),
            None => None,
        });
    }
    if range_is(chars, 0, k, "rd") {
        return Some(match parse_uuid(chars, t, n) {
            Some(v) => Some(CallbackPayload::DeactivateRecurrence(RecurrenceId(v))),
            None => None,
        });
    }
    if range_is(chars, 0, k, "ee") {
        return Some(match parse_uuid(chars, t, n) {
            Some(v) => Some(CallbackPayload::EditEntry(EntryId(v))),
            None => None,
        });
    }
    if range_is(chars, 0, k, "ed") {
        return Some(match parse_uuid(chars, t, n) {
            Some(v) => Some(CallbackPayload::DeleteEntry(EntryId(v))),
            None => None,
        });
    }
    if range_is(chars, 0, k, "cs") {
        return Some(statement_in(chars, t, n));
    }
    if range_is(chars, 0, k, "et") {
        return Some(match parse_uuid(chars, t, n) {
            Some(v) => Some(CallbackPayload::ToggleEssential(CategoryId(v))),
            None => None,
        });
    }
    let record = range_is(chars, 0, k, "rr");
    if record || range_is(chars, 0, k, "rs") {
        return Some(recurrence_in(chars, record, t, n));
    }
    None
}

/// [`statement_payload`] of `chars[from..to]`.
fn statement_in(chars: &Vec<char>, from: usize, to: usize) -> (payload: Option<CallbackPayload>)
    requires
        from <= to <= chars@.len(),
    ensures
        payload == statement_payload(chars@.subrange(from as int, to as int)),
{
    let ghost tail = chars@.subrange(from as int, to as int);
    let a = match find_char(chars, from, to, '|') {
        Some(a) => a,
        None => {
            proof { lemma_first_at(tail, '|', tail.len() as int); }
            return None;
        },
    };
    proof {
        lemma_first_at(tail, '|', a - from);
        assert(tail.skip(a - from + 1) =~= chars@.subrange(a + 1, to as int));
        assert(tail.take(a - from) =~= chars@.subrange(from as int, a as int));
    }
    let ghost rest = chars@.subrange(a + 1, to as int);
    let b = match find_char(chars, a + 1, to, '|') {
        Some(b) => b,
        None => {
            proof { lemma_first_at(rest, '|', rest.len() as int); }
            return None;
        },
    };
    proof {
        lemma_first_at(rest, '|', b - (a + 1));
        assert(rest.skip(b - (a + 1) + 1) =~= chars@.subrange(b + 1, to as int));
        assert(rest.take(b - (a + 1)) =~= chars@.subrange(a + 1, b as int));
    }
    let ghost last = chars@.subrange(b + 1, to as int);
    let c = match find_char(chars, b + 1, to, '|') {
        Some(c) => c,
        None => to,
    };
    proof {
        lemma_first_at(last, '|', c - (b + 1));
        assert(last.take(c - (b + 1)) =~= chars@.subrange(b + 1, c as int));
    }
    let category = match parse_uuid(chars, from, a) {
        Some(v) => v,
        None => return None,
    };
    let from_text = string_of(&slice_of(chars, a + 1, b));
    let to_text = string_of(&slice_of(chars, b + 1, c));
    let from_date = match parse_compact(from_text.as_str()) {
        Some(d) => d,
        None => return None,
    };
    let to_date = match parse_compact(to_text.as_str()) {
        Some(d) => d,
        None => return None,
    };
    Some(CallbackPayload::CategoryStatement { category: CategoryId(category), from: from_date, to: to_date })
}

/// [`recurrence_payload`] of `chars[from..to]`.
fn recurrence_in(chars: &Vec<char>, record: bool, from: usize, to: usize) -> (payload: Option<CallbackPayload>)
    requires
        from <= to <= chars@.len(),
    ensures
        payload == recurrence_payload(record, chars@.subrange(from as int, to as int)),
{
    let ghost tail = chars@.subrange(from as int, to as int);
    let a = match find_char(chars, from, to, '|') {
        Some(a) => a,
        None => {
            proof { lemma_first_at(tail, '|', tail.len() as int); }
            return None;
        },
    };
    proof {
        lemma_first_at(tail, '|', a - from);
        assert(tail.skip(a - from + 1) =~= chars@.subrange(a + 1, to as int));
        assert(tail.take(a - from) =~= chars@.subrange(from as int, a as int));
    }
    let id = match parse_uuid(chars, from, a) {
        Some(v) => v,
        None => return None,
    };
    let date_text = string_of(&slice_of(chars, a + 1, to));
    let date = match parse_iso(date_text.as_str()) {
        Some(d) => d,
        None => return None,
    };
    Some(
        if record {
            CallbackPayload::RecordRecurrence(RecurrenceId(id), date)
        } else {
            CallbackPayload::SkipRecurrence(RecurrenceId(id), date)
        },
    )
}

} // verus!

verus! {

/// The last eight hex digits of a draft's UUID.
pub open spec fn nonce_text(draft: DraftId) -> Seq<char> {
    hex_padded(draft.0 as nat, 32).subrange(24, 32)
}

/// Short, per-flow tag: the random tail of the draft UUID.
pub fn nonce_of(draft: DraftId) -> (nonce: String)
    ensures
        nonce@ == nonce_text(draft),
        nonce@.len() == 8,
{
    let mut simple: Vec<char> = Vec::new();
    push_hex_padded(&mut simple, draft.0, 32);
    proof { crate::ids::lemma_hex_padded(draft.0 as nat, 32); }
    string_of(&slice_of(&simple, 24, 32))
}

fn push_code(out: &mut Vec<char>, tag: &str, value: &Vec<char>)
    ensures
        final(out)@ == old(out)@ + tagged(tag@, value@),
{
    push_str(out, tag);
    out.push(':');
    crate::text::push_chars(out, value);
    assert(final(out)@ =~= old(out)@ + tagged(tag@, value@));
}

fn uuid_chars(id: u128) -> (text: Vec<char>)
    ensures
        text@ == id_text(id),
{
    let mut text: Vec<char> = Vec::new();
    push_uuid(&mut text, id);
    assert(text@ =~= id_text(id));
    text
}

fn code_chars(code: &str) -> (text: Vec<char>)
    ensures
        text@ == code@,
{
    chars_of(code)
}

/// Appends the code of `value`.
pub fn push_value_code(out: &mut Vec<char>, value: ButtonValue)
    ensures
        final(out)@ == old(out)@ + value_code(value),
{
    proof {
        reveal_strlit("c"); assert("c"@ =~= seq!['c']);
        reveal_strlit("a"); assert("a"@ =~= seq!['a']);
        reveal_strlit("g"); assert("g"@ =~= seq!['g']);
        reveal_strlit("k"); assert("k"@ =~= seq!['k']);
        reveal_strlit("cc"); assert("cc"@ =~= seq!['c', 'c']);
        reveal_strlit("i"); assert("i"@ =~= seq!['i']);
        reveal_strlit("n"); assert("n"@ =~= seq!['n']);
        reveal_strlit("m"); assert("m"@ =~= seq!['m']);
        reveal_strlit("rk"); assert("rk"@ =~= seq!['r', 'k']);
        reveal_strlit("rm"); assert("rm"@ =~= seq!['r', 'm']);
        reveal_strlit("ec"); assert("ec"@ =~= seq!['e', 'c']);
        reveal_strlit("ck"); assert("ck"@ =~= seq!['c', 'k']);
        reveal_strlit("es"); assert("es"@ =~= seq!['e', 's']);
        reveal_strlit("rw"); assert("rw"@ =~= seq!['r', 'w']);
        reveal_strlit("rf"); assert("rf"@ =~= seq!['r', 'f']);
        reveal_strlit("rc"); assert("rc"@ =~= seq!['r', 'c']);
        reveal_strlit("1"); assert("1"@ =~= seq!['1']);
        reveal_strlit("0"); assert("0"@ =~= seq!['0']);
    }
    match value {
        ButtonValue::Skip => out.push('s'),
        ButtonValue::Today => {
            out.push('d');
            out.push('t');
        },
        ButtonValue::Yesterday => {
            out.push('d');
            out.push('y');
        },
        ButtonValue::OtherDate => {
            out.push('d');
            out.push('o');
        },
        ButtonValue::Confirm => {
            out.push('o');
            out.push('k');
        },
        ButtonValue::Cancel => out.push('x'),
        ButtonValue::Category(id) => push_code(out, "c", &uuid_chars(id.0)),
        ButtonValue::Account(id) => push_code(out, "a", &uuid_chars(id.0)),
        ButtonValue::Goal(id) => push_code(out, "g", &uuid_chars(id.0)),
        ButtonValue::Kind(kind) => push_code(out, "k", &code_chars(kind.as_str())),
        ButtonValue::Card(id) => push_code(out, "cc", &uuid_chars(id.0)),
        ButtonValue::Invoice(id) => push_code(out, "i", &uuid_chars(id.0)),
        ButtonValue::Installments(count) => {
            let mut digits: Vec<char> = Vec::new();
            push_decimal(&mut digits, count as u64);
            push_code(out, "n", &digits);
        },
        ButtonValue::Money(amount) => {
            let mut digits: Vec<char> = Vec::new();
            push_signed_decimal(&mut digits, amount.0);
            push_code(out, "m", &digits);
        },
        ButtonValue::RecurrenceKind(kind) => push_code(out, "rk", &code_chars(kind.as_str())),
        ButtonValue::RecurrenceMode(mode) => push_code(out, "rm", &code_chars(mode.as_str())),
        ButtonValue::EditChoice(choice) => push_code(out, "ec", &code_chars(choice.code())),
        ButtonValue::CategoryKind(kind) => push_code(out, "ck", &code_chars(kind.as_str())),
        ButtonValue::Essential(essential) => push_code(
            out,
            "es",
            &code_chars(if essential { "1" } else { "0" }),
        ),
        ButtonValue::RecordKind(kind) => push_code(out, "rw", &code_chars(kind.code())),
        ButtonValue::RecordField(field) => push_code(out, "rf", &code_chars(field.code())),
        ButtonValue::Recurrence(id) => push_code(out, "rc", &uuid_chars(id.0)),
    }
    assert(final(out)@ =~= old(out)@ + value_code(value));
}

/// `nonce|code`.
pub fn flow_button(nonce: &str, value: ButtonValue) -> (data: String)
    ensures
        data@ == flow_text(nonce@, value),
{
    let mut out = chars_of(nonce);
    out.push('|');
    push_value_code(&mut out, value);
    assert(out@ =~= flow_text(nonce@, value));
    string_of(&out)
}

/// `head|<uuid>`.
pub open spec fn id_button_text(head: Seq<char>, id: u128) -> Seq<char> {
    head + seq!['|'] + id_text(id)
}

fn id_button(head: &str, id: u128) -> (data: String)
    ensures
        data@ == id_button_text(head@, id),
{
    let mut out = chars_of(head);
    out.push('|');
    push_uuid(&mut out, id);
    assert(out@ =~= id_button_text(head@, id));
    string_of(&out)
}

pub fn undo_button(entry: EntryId) -> (data: String)
    ensures
        data@ == id_button_text(seq!['u'], entry.0),
{
    proof { reveal_strlit("u"); assert("u"@ =~= seq!['u']); }
    id_button("u", entry.0)
}

pub fn undo_purchase_button(purchase: PurchaseId) -> (data: String)
    ensures
        data@ == id_button_text(seq!['u', 'p'], purchase.0),
{
    proof { reveal_strlit("up"); assert("up"@ =~= seq!['u', 'p']); }
    id_button("up", purchase.0)
}

pub fn deactivate_recurrence_button(recurrence: RecurrenceId) -> (data: String)
    ensures
        data@ == id_button_text(seq!['r', 'd'], recurrence.0),
{
    proof { reveal_strlit("rd"); assert("rd"@ =~= seq!['r', 'd']); }
    id_button("rd", recurrence.0)
}

pub fn edit_entry_button(entry: EntryId) -> (data: String)
    ensures
        data@ == id_button_text(seq!['e', 'e'], entry.0),
{
    proof { reveal_strlit("ee"); assert("ee"@ =~= seq!['e', 'e']); }
    id_button("ee", entry.0)
}

pub fn delete_entry_button(entry: EntryId) -> (data: String)
    ensures
        data@ == id_button_text(seq!['e', 'd'], entry.0),
{
    proof { reveal_strlit("ed"); assert("ed"@ =~= seq!['e', 'd']); }
    id_button("ed", entry.0)
}

pub fn toggle_essential_button(category: CategoryId) -> (data: String)
    ensures
        data@ == id_button_text(seq!['e', 't'], category.0),
{
    proof { reveal_strlit("et"); assert("et"@ =~= seq!['e', 't']); }
    id_button("et", category.0)
}

/// `rr|<recurrence>|<date>` or `rs|...`, the date as `chrono` shows it.
pub open spec fn recurrence_button_text(head: Seq<char>, recurrence: RecurrenceId, date: Date) -> Seq<char> {
    head + seq!['|'] + id_text(recurrence.0) + seq!['|'] + crate::calendar::iso_text(date)
}

fn recurrence_button(head: &str, recurrence: RecurrenceId, date: Date) -> (data: String)
    requires
        date.valid(),
    ensures
        data@ == recurrence_button_text(head@, recurrence, date),
{
    let mut out = chars_of(head);
    out.push('|');
    push_uuid(&mut out, recurrence.0);
    out.push('|');
    let date_text = format_iso(date);
    push_str(&mut out, date_text.as_str());
    assert(out@ =~= recurrence_button_text(head@, recurrence, date));
    string_of(&out)
}

pub fn record_recurrence_button(recurrence: RecurrenceId, date: Date) -> (data: String)
    requires
        date.valid(),
    ensures
        data@ == recurrence_button_text(seq!['r', 'r'], recurrence, date),
{
    proof { reveal_strlit("rr"); assert("rr"@ =~= seq!['r', 'r']); }
    recurrence_button("rr", recurrence, date)
}

pub fn skip_recurrence_button(recurrence: RecurrenceId, date: Date) -> (data: String)
    requires
        date.valid(),
    ensures
        data@ == recurrence_button_text(seq!['r', 's'], recurrence, date),
{
    proof { reveal_strlit("rs"); assert("rs"@ =~= seq!['r', 's']); }
    recurrence_button("rs", recurrence, date)
}

/// `cs|<category>|<aaaammdd>|<aaaammdd>`: dates this short keep the
/// payload at 57 bytes.
pub open spec fn statement_button_text(category: CategoryId, from: Date, to: Date) -> Seq<char> {
    seq!['c', 's', '|'] + id_text(category.0) + seq!['|'] + crate::calendar::compact_text(from)
        + seq!['|'] + crate::calendar::compact_text(to)
}

pub fn category_statement_button(category: CategoryId, from: Date, to: Date) -> (data: String)
    requires
        from.valid(),
        to.valid(),
    ensures
        data@ == statement_button_text(category, from, to),
{
    let mut out: Vec<char> = Vec::new();
    out.push('c');
    out.push('s');
    out.push('|');
    push_uuid(&mut out, category.0);
    out.push('|');
    let from_text = format_compact(from);
    push_str(&mut out, from_text.as_str());
    out.push('|');
    let to_text = format_compact(to);
    push_str(&mut out, to_text.as_str());
    assert(out@ =~= statement_button_text(category, from, to));
    string_of(&out)
}

} // verus!

verus! {

/// A numeral written by [`decimal`] reads back as its value.
pub proof fn lemma_decimal_reads_back(n: nat)
    ensures
        unsigned_numeral(decimal(n)) == Some(n),
        signed_numeral(decimal(n)) == Some(n as int),
{
    crate::numbers::lemma_decimal(n);
}

/// A numeral written by [`signed_decimal`] reads back as its value.
pub proof fn lemma_signed_decimal_reads_back(v: int)
    ensures
        signed_numeral(signed_decimal(v)) == Some(v),
{
    if v < 0 {
        crate::numbers::lemma_decimal((-v) as nat);
        let s = signed_decimal(v);
        assert(s.drop_first() =~= decimal((-v) as nat));
    } else {
        lemma_decimal_reads_back(v as nat);
    }
}

/// `tag:value` splits at its first `:` back into `tag` and `value`.
proof fn lemma_tagged_splits(tag: Seq<char>, value: Seq<char>)
    requires
        1 <= tag.len() <= 2,
        forall|i: int| 0 <= i < tag.len() ==> tag[i] != ':',
    ensures
        first_at(tagged(tag, value), ':') == tag.len(),
        tagged(tag, value).take(tag.len() as int) == tag,
        tagged(tag, value).skip(tag.len() as int + 1) == value,
        fixed_value(tagged(tag, value)) is None,
{
    let s = tagged(tag, value);
    assert(s[tag.len() as int] == ':');
    assert forall|j: int| 0 <= j < tag.len() implies s[j] != ':' by {
        assert(s[j] == tag[j]);
    }
    lemma_first_at(s, ':', tag.len() as int);
    assert(s.take(tag.len() as int) =~= tag);
    assert(s.skip(tag.len() as int + 1) =~= value);
    if tag.len() == 1 {
        assert(s[1] == ':');
    }
}

/// An id written as a UUID reads back as the id.
pub proof fn lemma_id_reads_back(id: u128)
    ensures
        id_value(id_text(id)) == Some(id),
        id_text(id).len() == 36,
{
    crate::ids::lemma_uuid_round_trip(id);
}

/// Every button value's code decodes to that value.
#[verifier::spinoff_prover]
#[verifier::rlimit(60)]
pub proof fn lemma_value_code_decodes(value: ButtonValue)
    ensures
        decoded_value(value_code(value)) == Some(value),
{
    match value {
        ButtonValue::Skip | ButtonValue::Today | ButtonValue::Yesterday | ButtonValue::OtherDate
        | ButtonValue::Confirm | ButtonValue::Cancel => {},
        ButtonValue::Category(id) => {
            lemma_tagged_splits(seq!['c'], id_text(id.0));
            lemma_id_reads_back(id.0);
        },
        ButtonValue::Account(id) => {
            lemma_tagged_splits(seq!['a'], id_text(id.0));
            lemma_id_reads_back(id.0);
        },
        ButtonValue::Goal(id) => {
            lemma_tagged_splits(seq!['g'], id_text(id.0));
            lemma_id_reads_back(id.0);
        },
        ButtonValue::Kind(kind) => {
            lemma_tagged_splits(seq!['k'], account_kind_code(kind));
            crate::model::lemma_account_kind_codes(kind);
        },
        ButtonValue::Card(id) => {
            lemma_tagged_splits(seq!['c', 'c'], id_text(id.0));
            lemma_id_reads_back(id.0);
        },
        ButtonValue::Invoice(id) => {
            lemma_tagged_splits(seq!['i'], id_text(id.0));
            lemma_id_reads_back(id.0);
        },
        ButtonValue::Installments(count) => {
            lemma_tagged_splits(seq!['n'], decimal(count as nat));
            lemma_decimal_reads_back(count as nat);
        },
        ButtonValue::Money(amount) => {
            lemma_tagged_splits(seq!['m'], signed_decimal(amount.0 as int));
            lemma_signed_decimal_reads_back(amount.0 as int);
        },
        ButtonValue::RecurrenceKind(kind) => {
            lemma_tagged_splits(seq!['r', 'k'], recurrence_kind_code(kind));
            crate::model::lemma_recurrence_kind_codes(kind);
        },
        ButtonValue::RecurrenceMode(mode) => {
            lemma_tagged_splits(seq!['r', 'm'], recurrence_mode_code(mode));
            crate::model::lemma_recurrence_mode_codes(mode);
        },
        ButtonValue::EditChoice(choice) => {
            lemma_tagged_splits(seq!['e', 'c'], edit_choice_code(choice));
            crate::flows::answers::lemma_edit_choice_codes(choice);
        },
        ButtonValue::CategoryKind(kind) => {
            lemma_tagged_splits(seq!['c', 'k'], category_kind_code(kind));
            crate::model::lemma_category_kind_codes(kind);
        },
        ButtonValue::Essential(essential) => {
            lemma_tagged_splits(seq!['e', 's'], if essential { seq!['1'] } else { seq!['0'] });
        },
        ButtonValue::RecordKind(kind) => {
            lemma_tagged_splits(seq!['r', 'w'], record_kind_code(kind));
            crate::flows::answers::lemma_record_kind_codes(kind);
        },
        ButtonValue::RecordField(record_field) => {
            lemma_tagged_splits(seq!['r', 'f'], record_field_code(record_field));
            crate::flows::answers::lemma_record_field_codes(record_field);
        },
        ButtonValue::Recurrence(id) => {
            lemma_tagged_splits(seq!['r', 'c'], id_text(id.0));
            lemma_id_reads_back(id.0);
        },
    }
}

/// A flow button reads back as the flow's nonce and the value it carries,
/// whenever the nonce holds no `|` and is not the head of another button.
pub proof fn lemma_flow_button_round_trip(nonce: Seq<char>, value: ButtonValue)
    requires
        forall|i: int| 0 <= i < nonce.len() ==> nonce[i] != '|',
        !reserved_head(nonce),
    ensures
        forall|payload: Option<CallbackPayload>| #[trigger] parsed_as(flow_text(nonce, value), payload) ==> (
        payload matches Some(CallbackPayload::Flow { nonce: read, value: carried }) && read@ == nonce
            && carried == value),
{
    let data = flow_text(nonce, value);
    assert(data[nonce.len() as int] == '|');
    assert forall|j: int| 0 <= j < nonce.len() implies data[j] != '|' by {
        assert(data[j] == nonce[j]);
    }
    lemma_first_at(data, '|', nonce.len() as int);
    assert(data.take(nonce.len() as int) =~= nonce);
    assert(data.skip(nonce.len() as int + 1) =~= value_code(value));
    lemma_value_code_decodes(value);
}

/// A flow's nonce holds no `|` and is not the head of another button.
pub proof fn lemma_nonce_is_plain(draft: DraftId)
    ensures
        forall|i: int| 0 <= i < nonce_text(draft).len() ==> nonce_text(draft)[i] != '|',
        !reserved_head(nonce_text(draft)),
        nonce_text(draft).len() == 8,
{
    crate::ids::lemma_hex_padded(draft.0 as nat, 32);
    assert(nonce_text(draft).len() == 8);
    assert(nonce_text(draft) != seq!['u'] && nonce_text(draft) != seq!['u', 'p']);
    assert forall|i: int| 0 <= i < nonce_text(draft).len() implies nonce_text(draft)[i] != '|' by {
        assert(nonce_text(draft)[i] == hex_padded(draft.0 as nat, 32)[24 + i]);
        assert(crate::ids::is_hex(hex_padded(draft.0 as nat, 32)[24 + i]));
    }
}

/// A button naming one record by id reads back as that record.
pub proof fn lemma_id_buttons_round_trip(id: u128)
    ensures
        parsed_as(id_button_text(seq!['u'], id), Some(CallbackPayload::Undo(EntryId(id)))),
        parsed_as(id_button_text(seq!['u', 'p'], id), Some(CallbackPayload::UndoPurchase(PurchaseId(id)))),
        parsed_as(id_button_text(seq!['r', 'd'], id), Some(CallbackPayload::DeactivateRecurrence(RecurrenceId(id)))),
        parsed_as(id_button_text(seq!['e', 'e'], id), Some(CallbackPayload::EditEntry(EntryId(id)))),
        parsed_as(id_button_text(seq!['e', 'd'], id), Some(CallbackPayload::DeleteEntry(EntryId(id)))),
        parsed_as(id_button_text(seq!['e', 't'], id), Some(CallbackPayload::ToggleEssential(CategoryId(id)))),
{
    lemma_id_reads_back(id);
    lemma_id_button_splits(seq!['u'], id);
    lemma_id_button_splits(seq!['u', 'p'], id);
    lemma_id_button_splits(seq!['r', 'd'], id);
    lemma_id_button_splits(seq!['e', 'e'], id);
    lemma_id_button_splits(seq!['e', 'd'], id);
    lemma_id_button_splits(seq!['e', 't'], id);
}

proof fn lemma_id_button_splits(head: Seq<char>, id: u128)
    requires
        1 <= head.len() <= 2,
        forall|i: int| 0 <= i < head.len() ==> head[i] != '|',
    ensures
        first_at(id_button_text(head, id), '|') == head.len(),
        id_button_text(head, id).take(head.len() as int) == head,
        id_button_text(head, id).skip(head.len() as int + 1) == id_text(id),
{
    let s = id_button_text(head, id);
    assert(s[head.len() as int] == '|');
    assert forall|j: int| 0 <= j < head.len() implies s[j] != '|' by {
        assert(s[j] == head[j]);
    }
    lemma_first_at(s, '|', head.len() as int);
    assert(s.take(head.len() as int) =~= head);
    assert(s.skip(head.len() as int + 1) =~= id_text(id));
}

/// An id's text holds no `|`.
pub proof fn lemma_id_text_plain(id: u128)
    ensures
        id_text(id).len() == 36,
        forall|i: int| 0 <= i < id_text(id).len() ==> id_text(id)[i] != '|',
        is_ascii_text(id_text(id)),
{
    crate::ids::lemma_uuid_round_trip(id);
    crate::ids::lemma_hex_padded(id as nat, 32);
    let h = hex_padded(id as nat, 32);
    let t = id_text(id);
    assert forall|i: int| 0 <= i < t.len() implies t[i] != '|' && (#[trigger] t[i] as u32) < 128 by {
        if i < 8 {
            assert(t[i] == h[i]);
            assert(crate::ids::is_hex(h[i]));
        } else if i == 8 || i == 13 || i == 18 || i == 23 {
            assert(t[i] == '-');
        } else if i < 13 {
            assert(t[i] == h[i - 1]);
            assert(crate::ids::is_hex(h[i - 1]));
        } else if i < 18 {
            assert(t[i] == h[i - 2]);
            assert(crate::ids::is_hex(h[i - 2]));
        } else if i < 23 {
            assert(t[i] == h[i - 3]);
            assert(crate::ids::is_hex(h[i - 3]));
        } else {
            assert(t[i] == h[i - 4]);
            assert(crate::ids::is_hex(h[i - 4]));
        }
    }
}

/// Small values come back whole from their padded digits.
proof fn lemma_padded_small(v: nat, width: nat)
    requires
        width == 2 || width == 4,
        width == 2 ==> v < 100,
        width == 4 ==> v < 10000,
    ensures
        crate::numbers::padded(v, width).len() == width,
        crate::numbers::all_digits(crate::numbers::padded(v, width)),
        crate::numbers::digits_value(crate::numbers::padded(v, width)) == v,
{
    crate::numbers::lemma_padded_value(v, width);
    assert(crate::numbers::pow10(width) == if width == 2 { 100nat } else { 10000nat }) by {
        reveal_with_fuel(crate::numbers::pow10, 5);
    }
    vstd::arithmetic::div_mod::lemma_small_mod(v, crate::numbers::pow10(width));
}

/// A real day with a four-digit year, written `aaaammdd`, reads back as
/// that day.
pub proof fn lemma_compact_round_trip(date: Date)
    requires
        date.valid(),
        crate::calendar::four_digit_year(date.year as int),
    ensures
        crate::calendar::compact_text(date).len() == 8,
        forall|i: int| 0 <= i < 8 ==> crate::numbers::is_digit(#[trigger] crate::calendar::compact_text(date)[i]),
        parsed_compact(crate::calendar::compact_text(date)) == Some(date),
{
    let y = crate::numbers::padded(date.year as nat, 4);
    let m = crate::numbers::padded(date.month as nat, 2);
    let d = crate::numbers::padded(date.day as nat, 2);
    lemma_padded_small(date.year as nat, 4);
    lemma_padded_small(date.month as nat, 2);
    lemma_padded_small(date.day as nat, 2);
    let t = crate::calendar::compact_text(date);
    assert(t =~= y + m + d);
    assert(t.subrange(0, 4) =~= y);
    assert(t.subrange(4, 6) =~= m);
    assert(t.subrange(6, 8) =~= d);
    assert forall|i: int| 0 <= i < 8 implies crate::numbers::is_digit(#[trigger] t[i]) by {
        if i < 4 {
            assert(t[i] == y[i]);
        } else if i < 6 {
            assert(t[i] == m[i - 4]);
        } else {
            assert(t[i] == d[i - 6]);
        }
    }
    assert(crate::numbers::all_digits(t));
    assert(crate::numbers::digits_value(t.subrange(0, 4)) == date.year as nat);
    assert(crate::numbers::digits_value(t.subrange(4, 6)) == date.month as nat);
    assert(crate::numbers::digits_value(t.subrange(6, 8)) == date.day as nat);
    assert(crate::calendar::compact_date(t) == Some(date));
}

/// A category statement button for days with four-digit years reads back
/// as the category and the two days, and fits in a button.
pub proof fn lemma_statement_button_round_trip(category: CategoryId, from: Date, to: Date)
    requires
        from.valid(),
        to.valid(),
        crate::calendar::four_digit_year(from.year as int),
        crate::calendar::four_digit_year(to.year as int),
    ensures
        parsed_as(
            statement_button_text(category, from, to),
            Some(CallbackPayload::CategoryStatement { category, from, to }),
        ),
        statement_button_text(category, from, to).len() == 57,
{
    lemma_id_text_plain(category.0);
    lemma_id_reads_back(category.0);
    lemma_compact_round_trip(from);
    lemma_compact_round_trip(to);
    let id = id_text(category.0);
    let f = crate::calendar::compact_text(from);
    let g = crate::calendar::compact_text(to);
    let data = statement_button_text(category, from, to);
    assert(data[2] == '|');
    lemma_first_at(data, '|', 2);
    assert(data.take(2) =~= seq!['c', 's']);
    let tail = data.skip(3);
    assert(tail =~= id + seq!['|'] + f + seq!['|'] + g);
    assert forall|j: int| 0 <= j < 36 implies tail[j] != '|' by {
        assert(tail[j] == id[j]);
    }
    lemma_first_at(tail, '|', 36);
    let rest = tail.skip(37);
    assert(rest =~= f + seq!['|'] + g);
    assert forall|j: int| 0 <= j < 8 implies rest[j] != '|' by {
        assert(rest[j] == f[j]);
    }
    lemma_first_at(rest, '|', 8);
    let last = rest.skip(9);
    assert(last =~= g);
    assert forall|j: int| 0 <= j < 8 implies last[j] != '|' by {
        assert(last[j] == g[j]);
    }
    lemma_first_at(last, '|', 8);
    assert(tail.take(36) =~= id);
    assert(rest.take(8) =~= f);
    assert(last.take(8) =~= g);
}

/// A real day with a four-digit year, written `aaaa-mm-dd`, reads back as
/// that day.
pub proof fn lemma_iso_round_trip(date: Date)
    requires
        date.valid(),
        crate::calendar::four_digit_year(date.year as int),
    ensures
        crate::calendar::iso_text(date).len() == 10,
        forall|i: int| 0 <= i < 10 ==> crate::calendar::iso_text(date)[i] != '|',
        parsed_iso(crate::calendar::iso_text(date)) == Some(date),
{
    let y = crate::numbers::padded(date.year as nat, 4);
    let m = crate::numbers::padded(date.month as nat, 2);
    let d = crate::numbers::padded(date.day as nat, 2);
    lemma_padded_small(date.year as nat, 4);
    lemma_padded_small(date.month as nat, 2);
    lemma_padded_small(date.day as nat, 2);
    let t = crate::calendar::iso_text(date);
    assert(t =~= y + seq!['-'] + m + seq!['-'] + d);
    assert(t.subrange(0, 4) =~= y);
    assert(t.subrange(5, 7) =~= m);
    assert(t.subrange(8, 10) =~= d);
    assert(t.subrange(0, 4) + t.subrange(5, 7) + t.subrange(8, 10) =~= crate::calendar::compact_text(date));
    lemma_compact_round_trip(date);
    assert forall|i: int| 0 <= i < 10 implies t[i] != '|' by {
        if i < 4 {
            assert(t[i] == y[i]);
            assert(crate::numbers::is_digit(y[i]));
        } else if i == 4 || i == 7 {
        } else if i < 7 {
            assert(t[i] == m[i - 5]);
            assert(crate::numbers::is_digit(m[i - 5]));
        } else {
            assert(t[i] == d[i - 8]);
            assert(crate::numbers::is_digit(d[i - 8]));
        }
    }
}

/// The buttons that record or skip one month of a recurring entry read
/// back as that entry and day.
pub proof fn lemma_recurrence_buttons_round_trip(recurrence: RecurrenceId, date: Date)
    requires
        date.valid(),
        crate::calendar::four_digit_year(date.year as int),
    ensures
        parsed_as(
            recurrence_button_text(seq!['r', 'r'], recurrence, date),
            Some(CallbackPayload::RecordRecurrence(recurrence, date)),
        ),
        parsed_as(
            recurrence_button_text(seq!['r', 's'], recurrence, date),
            Some(CallbackPayload::SkipRecurrence(recurrence, date)),
        ),
{
    lemma_id_text_plain(recurrence.0);
    lemma_id_reads_back(recurrence.0);
    lemma_iso_round_trip(date);
    lemma_recurrence_button_splits(seq!['r', 'r'], recurrence, date);
    lemma_recurrence_button_splits(seq!['r', 's'], recurrence, date);
}

proof fn lemma_recurrence_button_splits(head: Seq<char>, recurrence: RecurrenceId, date: Date)
    requires
        head.len() == 2,
        head[0] != '|' && head[1] != '|',
        id_text(recurrence.0).len() == 36,
        forall|i: int| 0 <= i < 36 ==> id_text(recurrence.0)[i] != '|',
    ensures
        first_at(recurrence_button_text(head, recurrence, date), '|') == 2,
        recurrence_button_text(head, recurrence, date).take(2) == head,
        first_at(recurrence_button_text(head, recurrence, date).skip(3), '|') == 36,
        recurrence_button_text(head, recurrence, date).skip(3).take(36) == id_text(recurrence.0),
        recurrence_button_text(head, recurrence, date).skip(3).skip(37) == crate::calendar::iso_text(date),
{
    let data = recurrence_button_text(head, recurrence, date);
    let id = id_text(recurrence.0);
    assert(data[2] == '|');
    assert(data[0] == head[0] && data[1] == head[1]);
    lemma_first_at(data, '|', 2);
    assert(data.take(2) =~= head);
    let tail = data.skip(3);
    assert(tail =~= id + seq!['|'] + crate::calendar::iso_text(date));
    assert forall|j: int| 0 <= j < 36 implies tail[j] != '|' by {
        assert(tail[j] == id[j]);
    }
    lemma_first_at(tail, '|', 36);
    assert(tail.take(36) =~= id);
    assert(tail.skip(37) =~= crate::calendar::iso_text(date));
}

/// Every flow button of a flow fits in Telegram's limit: the nonce, `|`
/// and a code of at most 39 characters.
pub proof fn lemma_flow_button_fits(draft: DraftId, value: ButtonValue)
    ensures
        flow_text(nonce_text(draft), value).len() <= MAX_CALLBACK_BYTES,
{
    lemma_nonce_is_plain(draft);
    lemma_value_code_len(value);
}

/// No value's code is longer than 39 characters.
#[verifier::spinoff_prover]
pub proof fn lemma_value_code_len(value: ButtonValue)
    ensures
        value_code(value).len() <= 39,
{
    reveal_strlit("checking");
    reveal_strlit("savings");
    reveal_strlit("cash");
    reveal_strlit("pot");
    reveal_strlit("expense");
    reveal_strlit("income");
    reveal_strlit("auto");
    reveal_strlit("confirm");
    reveal_strlit("account");
    reveal_strlit("card");
    reveal_strlit("category");
    reveal_strlit("goal");
    reveal_strlit("recurrence");
    reveal_strlit("name");
    reveal_strlit("emoji");
    reveal_strlit("closing");
    reveal_strlit("due");
    reveal_strlit("target");
    reveal_strlit("deadline");
    reveal_strlit("amount");
    reveal_strlit("day");
    reveal_strlit("mode");
    reveal_strlit("description");
    reveal_strlit("date");
    match value {
        ButtonValue::Category(id) => lemma_id_text_plain(id.0),
        ButtonValue::Account(id) => lemma_id_text_plain(id.0),
        ButtonValue::Goal(id) => lemma_id_text_plain(id.0),
        ButtonValue::Card(id) => lemma_id_text_plain(id.0),
        ButtonValue::Invoice(id) => lemma_id_text_plain(id.0),
        ButtonValue::Recurrence(id) => lemma_id_text_plain(id.0),
        ButtonValue::Installments(count) => {
            reveal_with_fuel(crate::numbers::pow10, 11);
            crate::numbers::lemma_decimal_len(count as nat, 10);
        },
        ButtonValue::Money(amount) => {
            reveal_with_fuel(crate::numbers::pow10, 20);
            let magnitude: nat = if amount.0 < 0 { (-amount.0) as nat } else { amount.0 as nat };
            crate::numbers::lemma_decimal_len(magnitude, 19);
        },
        _ => {},
    }
}

/// Decimal digits are ASCII.
proof fn lemma_digits_ascii(s: Seq<char>)
    requires
        crate::numbers::all_digits(s),
    ensures
        is_ascii_text(s),
{
    assert forall|i: int| 0 <= i < s.len() implies (#[trigger] s[i] as u32) < 128 by {
        assert(crate::numbers::is_digit(s[i]));
    }
}

/// Every value code is ASCII.
pub proof fn lemma_value_code_ascii(value: ButtonValue)
    ensures
        is_ascii_text(value_code(value)),
{
    reveal_strlit("checking");
    reveal_strlit("savings");
    reveal_strlit("cash");
    reveal_strlit("pot");
    reveal_strlit("expense");
    reveal_strlit("income");
    reveal_strlit("auto");
    reveal_strlit("confirm");
    reveal_strlit("account");
    reveal_strlit("card");
    reveal_strlit("category");
    reveal_strlit("goal");
    reveal_strlit("recurrence");
    reveal_strlit("name");
    reveal_strlit("emoji");
    reveal_strlit("closing");
    reveal_strlit("due");
    reveal_strlit("target");
    reveal_strlit("deadline");
    reveal_strlit("amount");
    reveal_strlit("day");
    reveal_strlit("mode");
    reveal_strlit("description");
    reveal_strlit("date");
    let code = value_code(value);
    match value {
        ButtonValue::Category(id) => {
            lemma_id_text_plain(id.0);
            lemma_tagged_ascii(seq!['c'], id_text(id.0));
        },
        ButtonValue::Account(id) => {
            lemma_id_text_plain(id.0);
            lemma_tagged_ascii(seq!['a'], id_text(id.0));
        },
        ButtonValue::Goal(id) => {
            lemma_id_text_plain(id.0);
            lemma_tagged_ascii(seq!['g'], id_text(id.0));
        },
        ButtonValue::Card(id) => {
            lemma_id_text_plain(id.0);
            lemma_tagged_ascii(seq!['c', 'c'], id_text(id.0));
        },
        ButtonValue::Invoice(id) => {
            lemma_id_text_plain(id.0);
            lemma_tagged_ascii(seq!['i'], id_text(id.0));
        },
        ButtonValue::Recurrence(id) => {
            lemma_id_text_plain(id.0);
            lemma_tagged_ascii(seq!['r', 'c'], id_text(id.0));
        },
        ButtonValue::Installments(count) => {
            crate::numbers::lemma_decimal(count as nat);
            lemma_digits_ascii(decimal(count as nat));
            lemma_tagged_ascii(seq!['n'], decimal(count as nat));
        },
        ButtonValue::Money(amount) => {
            let magnitude: nat = if amount.0 < 0 { (-amount.0) as nat } else { amount.0 as nat };
            crate::numbers::lemma_decimal(magnitude);
            lemma_digits_ascii(decimal(magnitude));
            if amount.0 < 0 {
                lemma_ascii_concat(seq!['-'], decimal(magnitude));
            }
            lemma_tagged_ascii(seq!['m'], signed_decimal(amount.0 as int));
        },
        ButtonValue::Kind(kind) => lemma_tagged_ascii(seq!['k'], account_kind_code(kind)),
        ButtonValue::RecurrenceKind(kind) => lemma_tagged_ascii(seq!['r', 'k'], recurrence_kind_code(kind)),
        ButtonValue::RecurrenceMode(mode) => lemma_tagged_ascii(seq!['r', 'm'], recurrence_mode_code(mode)),
        ButtonValue::EditChoice(choice) => lemma_tagged_ascii(seq!['e', 'c'], edit_choice_code(choice)),
        ButtonValue::CategoryKind(kind) => lemma_tagged_ascii(seq!['c', 'k'], category_kind_code(kind)),
        ButtonValue::Essential(essential) => lemma_tagged_ascii(
            seq!['e', 's'],
            if essential { seq!['1'] } else { seq!['0'] },
        ),
        ButtonValue::RecordKind(kind) => lemma_tagged_ascii(seq!['r', 'w'], record_kind_code(kind)),
        ButtonValue::RecordField(field) => lemma_tagged_ascii(seq!['r', 'f'], record_field_code(field)),
        _ => {},
    }
}

proof fn lemma_tagged_ascii(tag: Seq<char>, value: Seq<char>)
    requires
        is_ascii_text(tag),
        is_ascii_text(value),
    ensures
        is_ascii_text(tagged(tag, value)),
{
    lemma_ascii_concat(tag, seq![':']);
    lemma_ascii_concat(tag + seq![':'], value);
}

/// A flow button's payload fits Telegram's 64 bytes of `callback_data`.
pub proof fn lemma_flow_button_bytes(draft: DraftId, value: ButtonValue)
    ensures
        byte_len(flow_text(nonce_text(draft), value)) <= MAX_CALLBACK_BYTES,
{
    lemma_flow_button_fits(draft, value);
    lemma_value_code_ascii(value);
    crate::ids::lemma_hex_padded(draft.0 as nat, 32);
    let nonce = nonce_text(draft);
    assert forall|i: int| 0 <= i < nonce.len() implies (#[trigger] nonce[i] as u32) < 128 by {
        assert(nonce[i] == hex_padded(draft.0 as nat, 32)[24 + i]);
        assert(crate::ids::is_hex(hex_padded(draft.0 as nat, 32)[24 + i]));
    }
    lemma_ascii_concat(nonce, seq!['|']);
    lemma_ascii_concat(nonce + seq!['|'], value_code(value));
    lemma_ascii_byte_len(flow_text(nonce, value));
}

/// The payloads of [Desfazer], [Desativar], ✏️, 🗑️ and the essential
/// toggles fit in 64 bytes.
pub proof fn lemma_id_button_bytes(head: Seq<char>, id: u128)
    requires
        head == seq!['u'] || head == seq!['u', 'p'] || head == seq!['r', 'd'] || head == seq!['e', 'e']
            || head == seq!['e', 'd'] || head == seq!['e', 't'],
    ensures
        byte_len(id_button_text(head, id)) <= MAX_CALLBACK_BYTES,
{
    lemma_id_text_plain(id);
    lemma_ascii_concat(head, seq!['|']);
    lemma_ascii_concat(head + seq!['|'], id_text(id));
    lemma_ascii_byte_len(id_button_text(head, id));
}

/// The ISO text of a date with a four-digit year is ASCII.
proof fn lemma_iso_ascii(date: Date)
    requires
        crate::calendar::four_digit_year(date.year as int),
    ensures
        is_ascii_text(crate::calendar::iso_text(date)),
{
    crate::numbers::lemma_padded(date.year as nat, 4);
    crate::numbers::lemma_padded(date.month as nat, 2);
    crate::numbers::lemma_padded(date.day as nat, 2);
    lemma_digits_ascii(crate::numbers::padded(date.year as nat, 4));
    lemma_digits_ascii(crate::numbers::padded(date.month as nat, 2));
    lemma_digits_ascii(crate::numbers::padded(date.day as nat, 2));
    let y = crate::numbers::padded(date.year as nat, 4);
    let m = crate::numbers::padded(date.month as nat, 2);
    let d = crate::numbers::padded(date.day as nat, 2);
    lemma_ascii_concat(y, seq!['-']);
    lemma_ascii_concat(y + seq!['-'], m);
    lemma_ascii_concat(y + seq!['-'] + m, seq!['-']);
    lemma_ascii_concat(y + seq!['-'] + m + seq!['-'], d);
}

/// [Registrar] and [Pular] on a bill fit in 64 bytes.
pub proof fn lemma_recurrence_button_bytes(head: Seq<char>, recurrence: RecurrenceId, date: Date)
    requires
        head == seq!['r', 'r'] || head == seq!['r', 's'],
        date.valid(),
        crate::calendar::four_digit_year(date.year as int),
    ensures
        byte_len(recurrence_button_text(head, recurrence, date)) <= MAX_CALLBACK_BYTES,
{
    lemma_id_text_plain(recurrence.0);
    lemma_iso_round_trip(date);
    lemma_iso_ascii(date);
    let id = id_text(recurrence.0);
    let iso = crate::calendar::iso_text(date);
    lemma_ascii_concat(head, seq!['|']);
    lemma_ascii_concat(head + seq!['|'], id);
    lemma_ascii_concat(head + seq!['|'] + id, seq!['|']);
    lemma_ascii_concat(head + seq!['|'] + id + seq!['|'], iso);
    lemma_ascii_byte_len(recurrence_button_text(head, recurrence, date));
}

/// A category button of `/extrato` takes 57 bytes.
pub proof fn lemma_statement_button_bytes(category: CategoryId, from: Date, to: Date)
    requires
        from.valid(),
        to.valid(),
        crate::calendar::four_digit_year(from.year as int),
        crate::calendar::four_digit_year(to.year as int),
    ensures
        byte_len(statement_button_text(category, from, to)) == 57,
{
    lemma_statement_button_round_trip(category, from, to);
    lemma_id_text_plain(category.0);
    lemma_compact_round_trip(from);
    lemma_compact_round_trip(to);
    let id = id_text(category.0);
    let f = crate::calendar::compact_text(from);
    let g = crate::calendar::compact_text(to);
    lemma_digits_ascii(f);
    lemma_digits_ascii(g);
    lemma_ascii_concat(seq!['c', 's', '|'], id);
    lemma_ascii_concat(seq!['c', 's', '|'] + id, seq!['|']);
    lemma_ascii_concat(seq!['c', 's', '|'] + id + seq!['|'], f);
    lemma_ascii_concat(seq!['c', 's', '|'] + id + seq!['|'] + f, seq!['|']);
    lemma_ascii_concat(seq!['c', 's', '|'] + id + seq!['|'] + f + seq!['|'], g);
    lemma_ascii_byte_len(statement_button_text(category, from, to));
}

} // verus!
