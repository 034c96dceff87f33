//! Amounts in reais as the couple types and reads them: `1.234,56`,
//! `R$ 10,50`, `10`.

use vstd::prelude::*;
use vstd::arithmetic::div_mod::lemma_mod_breakdown;

use crate::model::Cents;
use crate::numbers::{
    all_digits, decimal, digit_value, digits_in, digits_value, is_digit, lemma_decimal, lemma_decimal_len,
    lemma_digits_value_bound, lemma_padded_value, padded, pow10, push_decimal, push_padded,
};
use crate::text::{chars_of, find_char, first_at, is_white, lemma_first_at, string_of, trim_end, trim_range, trim_start, trimmed};

verus! {

/// `n` with a `.` between each group of three digits: `1.234.567`.
pub open spec fn grouped(n: nat) -> Seq<char>
    decreases n,
{
    if n < 1000 {
        decimal(n)
    } else {
        grouped(n / 1000) + seq!['.'] + padded(n % 1000, 3)
    }
}

pub open spec fn magnitude(cents: int) -> nat {
    if cents < 0 { (-cents) as nat } else { cents as nat }
}

/// How an amount is shown: `R$ 1.234,56`, `-R$ 10,00`.
pub open spec fn brl_text(cents: int) -> Seq<char> {
    (if cents < 0 { seq!['-'] } else { Seq::empty() }) + seq!['R', '$', ' '] + grouped(
        magnitude(cents) / 100,
    ) + seq![','] + padded(magnitude(cents) % 100, 2)
}

fn push_grouped(out: &mut Vec<char>, n: u64)
    ensures
        final(out)@ == old(out)@ + grouped(n as nat),
    decreases n,
{
    if n < 1000 {
        push_decimal(out, n);
    } else {
        push_grouped(out, n / 1000);
        out.push('.');
        push_padded(out, n % 1000, 3);
    }
}

/// `R$ 1.234,56`; negative amounts get a `-` in front.
pub fn format_brl(amount: Cents) -> (text: String)
    ensures
        text@ == brl_text(amount.0 as int),
{
    let mut out: Vec<char> = Vec::new();
    if amount.0 < 0 {
        out.push('-');
    }
    out.push('R');
    out.push('$');
    out.push(' ');
    let size: u64 = if amount.0 == i64::MIN {
        9223372036854775808u64
    } else if amount.0 < 0 {
        (-amount.0) as u64
    } else {
        amount.0 as u64
    };
    push_grouped(&mut out, size / 100);
    out.push(',');
    push_padded(&mut out, size % 100, 2);
    string_of(&out)
}

/// The value of an integer part written with thousands dots (`1.234`).
pub open spec fn dotted_value(s: Seq<char>) -> Option<nat>
    decreases s.len(),
{
    if 1 <= s.len() <= 3 && all_digits(s) {
        Some(digits_value(s))
    } else if s.len() >= 5 && s[s.len() - 4] == '.' && all_digits(s.skip(s.len() - 3)) {
        match dotted_value(s.take(s.len() - 4)) {
            Some(v) => Some(v * 1000 + digits_value(s.skip(s.len() - 3))),
            None => None,
        }
    } else {
        None
    }
}

/// The integer part: plain digits, or digits grouped by thousands dots.
pub open spec fn whole_value(s: Seq<char>) -> Option<nat> {
    if s.len() > 0 && all_digits(s) {
        Some(digits_value(s))
    } else {
        dotted_value(s)
    }
}

/// Centavos after the comma: one digit means tens (`10,5` is 10,50).
pub open spec fn centavos_value(s: Seq<char>) -> Option<nat> {
    if s.len() == 1 && is_digit(s[0]) {
        Some(digit_value(s[0]) * 10)
    } else if s.len() == 2 && all_digits(s) {
        Some(digits_value(s))
    } else {
        None
    }
}


/// The text after an optional `R$` in front.
pub open spec fn without_currency(s: Seq<char>) -> Seq<char> {
    if s.len() >= 2 && s[0] == 'R' && s[1] == '$' {
        trimmed(s.skip(2))
    } else {
        s
    }
}

/// The centavos spelled by `body` (already without currency and spaces).
pub open spec fn amount_value(body: Seq<char>) -> Option<nat> {
    let k = first_at(body, ',') as int;
    if k == body.len() {
        match whole_value(body) {
            Some(whole) => Some(whole * 100),
            None => None,
        }
    } else {
        match (whole_value(body.take(k)), centavos_value(body.skip(k + 1))) {
            (Some(whole), Some(centavos)) => Some(whole * 100 + centavos),
            _ => None,
        }
    }
}

/// A positive amount typed in chat: an optional `R$`, an integer part
/// with or without thousands dots, and one or two centavos after a comma.
pub open spec fn typed_amount(text: Seq<char>) -> Option<int> {
    match amount_value(without_currency(trimmed(text))) {
        Some(v) => if 0 < v <= i64::MAX { Some(v as int) } else { None },
        None => None,
    }
}

/// The value of `chars[from..to]` read as [`dotted_value`], when it fits.
fn dotted_in(chars: &Vec<char>, from: usize, to: usize) -> (value: Option<u64>)
    requires
        from <= to <= chars@.len(),
    ensures
        ({
            let s = chars@.subrange(from as int, to as int);
            match value {
                Some(v) => dotted_value(s) == Some(v as nat),
                None => match dotted_value(s) {
                    Some(v) => v > u64::MAX,
                    None => true,
                },
            }
        }),
    decreases to - from,
{
    let ghost s = chars@.subrange(from as int, to as int);
    let len = to - from;
    if 1 <= len && len <= 3 {
        return digits_in(chars, from, to);
    }
    if len < 5 || chars[to - 4] != '.' {
        return None;
    }
    assert(s.skip(s.len() - 3) =~= chars@.subrange(to - 3, to as int));
    assert(s.take(s.len() - 4) =~= chars@.subrange(from as int, to - 4));
    let tail = match digits_in(chars, to - 3, to) {
        Some(v) => v,
        None => return None,
    };
    proof {
        let t = chars@.subrange(to - 3, to as int);
        lemma_digits_value_bound(t);
        reveal_with_fuel(pow10, 4);
    }
    let head = match dotted_in(chars, from, to - 4) {
        Some(v) => v,
        None => return None,
    };
    if head > (u64::MAX - tail) / 1000 {
        return None;
    }
    Some(head * 1000 + tail)
}

/// The value of `chars[from..to]` read as [`whole_value`], when it fits.
fn whole_in(chars: &Vec<char>, from: usize, to: usize) -> (value: Option<u64>)
    requires
        from <= to <= chars@.len(),
    ensures
        ({
            let s = chars@.subrange(from as int, to as int);
            match value {
                Some(v) => whole_value(s) == Some(v as nat),
                None => match whole_value(s) {
                    Some(v) => v > u64::MAX,
                    None => true,
                },
            }
        }),
{
    let ghost s = chars@.subrange(from as int, to as int);
    if from < to {
        match digits_in(chars, from, to) {
            Some(v) => return Some(v),
            None => {
                if all_digits_in(chars, from, to) {
                    return None;
                }
            },
        }
    }
    dotted_in(chars, from, to)
}

fn all_digits_in(chars: &Vec<char>, from: usize, to: usize) -> (all: bool)
    requires
        from <= to <= chars@.len(),
    ensures
        all == all_digits(chars@.subrange(from as int, to as int)),
{
    let mut i = from;
    while i < to
        invariant
            from <= i <= to <= chars@.len(),
            forall|j: int| from <= j < i ==> is_digit(chars@[j]),
        decreases to - i,
    {
        if !('0' <= chars[i] && chars[i] <= '9') {
            assert(!is_digit(chars@.subrange(from as int, to as int)[i - from]));
            return false;
        }
        i = i + 1;
    }
    assert forall|j: int| 0 <= j < to - from implies is_digit(#[trigger] chars@.subrange(from as int, to as int)[j]) by {
        assert(chars@.subrange(from as int, to as int)[j] == chars@[from + j]);
    }
    true
}

/// Reads a positive amount typed in chat: `10`, `10,50`, `1.234,56`,
/// `R$ 25`. Zero, negative or malformed text gives `None`.
pub fn parse_brl(text: &str) -> (amount: Option<Cents>)
    ensures
        match amount {
            Some(a) => typed_amount(text@) == Some(a.0 as int),
            None => typed_amount(text@).is_none(),
        },
{
    let chars = chars_of(text);
    parse_brl_chars(&chars)
}

/// Where the amount itself sits in `chars`: spaces and an `R$` in front
/// left out.
fn amount_bounds(chars: &Vec<char>) -> (bounds: (usize, usize))
    ensures
        bounds.0 <= bounds.1 <= chars@.len(),
        chars@.subrange(bounds.0 as int, bounds.1 as int) == without_currency(trimmed(chars@)),
{
    let n = chars.len();
    assert(chars@.subrange(0, n as int) =~= chars@);
    let (start, end) = trim_range(chars, 0, n);
    let ghost t = trimmed(chars@);
    if end - start >= 2 && chars[start] == 'R' && chars[start + 1] == '$' {
        proof {
            assert(t.skip(2) =~= chars@.subrange(start + 2, end as int));
        }
        trim_range(chars, start + 2, end)
    } else {
        (start, end)
    }
}

/// The centavos after the comma at `k`, read as [`centavos_value`].
fn centavos_in(chars: &Vec<char>, k: usize, to: usize) -> (value: Option<u64>)
    requires
        k < to <= chars@.len(),
    ensures
        match value {
            Some(v) => centavos_value(chars@.subrange(k + 1, to as int)) == Some(v as nat),
            None => centavos_value(chars@.subrange(k + 1, to as int)).is_none(),
        },
{
    let ghost f = chars@.subrange(k + 1, to as int);
    let frac_len = to - (k + 1);
    if frac_len == 1 && '0' <= chars[k + 1] && chars[k + 1] <= '9' {
        Some(((chars[k + 1] as u32 - 48) * 10) as u64)
    } else if frac_len == 2 && '0' <= chars[k + 1] && chars[k + 1] <= '9' && '0' <= chars[k + 2]
        && chars[k + 2] <= '9' {
        proof {
            assert(f.drop_last().drop_last() =~= Seq::<char>::empty());
            assert(digits_value(f.drop_last().drop_last()) == 0);
            assert(f.drop_last().last() == f[0]);
            assert(is_digit(f[0]) && is_digit(f[1]));
            assert(all_digits(f));
            assert(digits_value(f.drop_last()) == digit_value(f[0]));
            assert(digits_value(f) == digit_value(f[0]) * 10 + digit_value(f[1]));
        }
        Some(((chars[k + 1] as u32 - 48) * 10 + (chars[k + 2] as u32 - 48)) as u64)
    } else {
        proof {
            if f.len() == 2 {
                assert(!is_digit(f[0]) || !is_digit(f[1]));
            }
        }
        None
    }
}

/// [`amount_value`] of `chars[from..to]`, when it fits in a `u64`.
fn amount_in(chars: &Vec<char>, from: usize, to: usize) -> (value: Option<u64>)
    requires
        from <= to <= chars@.len(),
    ensures
        match value {
            Some(v) => amount_value(chars@.subrange(from as int, to as int)) == Some(v as nat),
            None => match amount_value(chars@.subrange(from as int, to as int)) {
                Some(v) => v > u64::MAX,
                None => true,
            },
        },
{
    let ghost body = chars@.subrange(from as int, to as int);
    let comma = find_char(chars, from, to, ',');
    let k = match comma {
        Some(i) => i,
        None => to,
    };
    proof {
        lemma_first_at(body, ',', k - from);
        assert(body.take(k - from) =~= chars@.subrange(from as int, k as int));
    }
    if k == to {
        assert(body =~= chars@.subrange(from as int, k as int));
        return match whole_in(chars, from, to) {
            Some(w) => if w > u64::MAX / 100 { None } else { Some(w * 100) },
            None => None,
        };
    }
    assert(body.skip(k - from + 1) =~= chars@.subrange(k + 1, to as int));
    let centavos = match centavos_in(chars, k, to) {
        Some(c) => c,
        None => return None,
    };
    match whole_in(chars, from, k) {
        Some(w) => if w > (u64::MAX - centavos) / 100 { None } else { Some(w * 100 + centavos) },
        None => None,
    }
}

/// [`parse_brl`] on characters.
pub fn parse_brl_chars(chars: &Vec<char>) -> (amount: Option<Cents>)
    ensures
        match amount {
            Some(a) => typed_amount(chars@) == Some(a.0 as int),
            None => typed_amount(chars@).is_none(),
        },
{
    let (from, to) = amount_bounds(chars);
    match amount_in(chars, from, to) {
        Some(v) => if 0 < v && v <= 9223372036854775807u64 { Some(Cents(v as i64)) } else { None },
        None => None,
    }
}

/// An amount typed as zero (`0`, `0,00`, `R$ 0`), before the usual parse.
pub open spec fn strip_currency_marks(s: Seq<char>) -> Seq<char>
    decreases s.len(),
{
    if s.len() >= 2 && s[0] == 'R' && s[1] == '$' {
        strip_currency_marks(s.skip(2))
    } else {
        s
    }
}

pub open spec fn zero_mark(c: char) -> bool {
    c == '0' || c == ',' || c == '.'
}

/// What [`is_zero`] accepts: after spaces and any `R$` in front, only zeros,
/// commas and dots, at least one of them.
pub open spec fn typed_zero(text: Seq<char>) -> bool {
    let digits = trimmed(strip_currency_marks(trimmed(text)));
    digits.len() > 0 && forall|i: int| 0 <= i < digits.len() ==> zero_mark(#[trigger] digits[i])
}

/// Whether `text` spells zero.
pub fn is_zero(text: &Vec<char>) -> (zero: bool)
    ensures
        zero == typed_zero(text@),
{
    let n = text.len();
    assert(text@.subrange(0, n as int) =~= text@);
    let (start, end) = trim_range(text, 0, n);
    let mut from = start;
    while end - from >= 2 && text[from] == 'R' && text[from + 1] == '$'
        invariant
            start <= from <= end <= text@.len(),
            strip_currency_marks(text@.subrange(start as int, end as int)) == strip_currency_marks(text@.subrange(from as int, end as int)),
        decreases end - from,
    {
        assert(text@.subrange(from as int, end as int).skip(2) =~= text@.subrange(from + 2, end as int));
        from = from + 2;
    }
    assert(strip_currency_marks(text@.subrange(from as int, end as int)) == text@.subrange(from as int, end as int));
    assert(trimmed(text@) == text@.subrange(start as int, end as int));
    let (a, b) = trim_range(text, from, end);
    assert(trimmed(strip_currency_marks(trimmed(text@))) == text@.subrange(a as int, b as int));
    if a == b {
        return false;
    }
    let mut i = a;
    while i < b
        invariant
            a <= i <= b <= text@.len(),
            trimmed(strip_currency_marks(trimmed(text@))) == text@.subrange(a as int, b as int),
            forall|j: int| a <= j < i ==> zero_mark(text@[j]),
        decreases b - i,
    {
        let c = text[i];
        if !(c == '0' || c == ',' || c == '.') {
            assert(!zero_mark(text@.subrange(a as int, b as int)[i - a]));
            return false;
        }
        i = i + 1;
    }
    assert forall|j: int| 0 <= j < b - a implies zero_mark(#[trigger] text@.subrange(a as int, b as int)[j]) by {
        assert(text@.subrange(a as int, b as int)[j] == text@[a + j]);
    }
    true
}

/// What [`grouped`] writes: digits with dots between groups, a digit at
/// each end, and it reads back as `n`.
proof fn lemma_grouped(n: nat)
    ensures
        grouped(n).len() >= 1,
        forall|i: int| 0 <= i < grouped(n).len() ==> is_digit(#[trigger] grouped(n)[i]) || grouped(n)[i] == '.',
        is_digit(grouped(n)[0]),
        is_digit(grouped(n).last()),
        dotted_value(grouped(n)) == Some(n),
        whole_value(grouped(n)) == Some(n),
    decreases n,
{
    let g = grouped(n);
    if n < 1000 {
        lemma_decimal(n);
        assert(pow10(3) == 1000) by {
            reveal_with_fuel(pow10, 4);
        }
        lemma_decimal_len(n, 3);
        assert(is_digit(g[0]));
        assert(is_digit(g[g.len() - 1]));
    } else {
        lemma_grouped(n / 1000);
        lemma_padded_value(n % 1000, 3);
        assert(pow10(3) == 1000) by {
            reveal_with_fuel(pow10, 4);
        }
        let head = grouped(n / 1000);
        let tail = padded(n % 1000, 3);
        assert(g == head + seq!['.'] + tail);
        assert(g.len() == head.len() + 4);
        assert(g[g.len() - 4] == '.');
        assert(g.skip(g.len() - 3) =~= tail);
        assert(g.take(g.len() - 4) =~= head);
        assert forall|i: int| 0 <= i < g.len() implies is_digit(#[trigger] g[i]) || g[i] == '.' by {
            if i < head.len() {
                assert(g[i] == head[i]);
            } else if i == head.len() {
                assert(g[i] == '.');
            } else {
                assert(g[i] == tail[i - head.len() - 1]);
            }
        }
        assert(g[0] == head[0]);
        assert(g.last() == tail[2]);
        assert(!all_digits(g)) by {
            assert(!is_digit(g[g.len() - 4]));
        }
    }
}

/// Digits are not whitespace.
proof fn lemma_digit_not_white(c: char)
    requires
        is_digit(c),
    ensures
        !is_white(c),
{
}

/// An amount the bot writes, typed back, reads as the same amount: for
/// every positive amount, reading [`brl_text`] gives it back.
pub proof fn lemma_shown_amount_reads_back(cents: int)
    requires
        0 < cents <= i64::MAX,
    ensures
        typed_amount(brl_text(cents)) == Some(cents),
{
    let whole = (cents / 100) as nat;
    let rest = (cents % 100) as nat;
    lemma_grouped(whole);
    lemma_padded_value(rest, 2);
    assert(pow10(2) == 100) by {
        reveal_with_fuel(pow10, 3);
    }
    let g = grouped(whole);
    let p = padded(rest, 2);
    let body = g + seq![','] + p;
    let text = brl_text(cents);
    assert(text =~= seq!['R', '$', ' '] + body);
    lemma_digit_not_white(p[1]);
    assert(body.last() == p[1]);
    assert(text.last() == p[1]);
    assert(trim_start(text) == text);
    assert(trim_end(text) == text);
    assert(trimmed(text) == text);
    let after = text.skip(2);
    assert(after =~= seq![' '] + body);
    assert(after.drop_first() =~= body);
    lemma_digit_not_white(g[0]);
    assert(body[0] == g[0]);
    assert(trim_start(body) == body);
    assert(trim_start(after) == body);
    assert(trim_end(body) == body);
    assert(without_currency(trimmed(text)) == body);
    assert forall|j: int| 0 <= j < g.len() implies body[j] != ',' by {
        assert(body[j] == g[j]);
    }
    lemma_first_at(body, ',', g.len() as int);
    assert(body.take(g.len() as int) =~= g);
    assert(body.skip(g.len() as int + 1) =~= p);
    assert(centavos_value(p) == Some(rest));
    assert(amount_value(body) == Some(whole * 100 + rest));
}

} // verus!
