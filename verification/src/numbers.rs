//! Decimal and hexadecimal numerals: how numbers are typed in chat and how
//! they travel inside button payloads.

use vstd::prelude::*;

verus! {

pub open spec fn is_digit(c: char) -> bool {
    '0' <= c && c <= '9'
}

pub open spec fn digit_value(c: char) -> nat {
    (c as int - '0' as int) as nat
}

pub open spec fn digit_char(d: nat) -> char {
    (d + '0' as int) as char
}

pub open spec fn all_digits(s: Seq<char>) -> bool {
    forall|i: int| 0 <= i < s.len() ==> #[trigger] is_digit(s[i])
}

/// The value of a run of decimal digits (empty reads as zero).
pub open spec fn digits_value(s: Seq<char>) -> nat
    decreases s.len(),
{
    if s.len() == 0 {
        0
    } else {
        digits_value(s.drop_last()) * 10 + digit_value(s.last())
    }
}

/// The shortest decimal numeral of `v`.
pub open spec fn decimal(v: nat) -> Seq<char>
    decreases v,
{
    if v < 10 {
        seq![digit_char(v)]
    } else {
        decimal(v / 10).push(digit_char(v % 10))
    }
}

/// `v` as a decimal numeral, with a leading `-` when negative.
pub open spec fn signed_decimal(v: int) -> Seq<char> {
    if v < 0 {
        seq!['-'] + decimal((-v) as nat)
    } else {
        decimal(v as nat)
    }
}

/// `v` as exactly `width` decimal digits, zero-padded (`v` taken modulo
/// `10^width`).
pub open spec fn padded(v: nat, width: nat) -> Seq<char>
    decreases width,
{
    if width == 0 {
        Seq::empty()
    } else {
        padded(v / 10, (width - 1) as nat).push(digit_char(v % 10))
    }
}

/// What Rust's `str::parse` gives for an unsigned integer type, before the
/// range check: an optional `+`, then one or more ASCII digits.
pub open spec fn unsigned_numeral(s: Seq<char>) -> Option<nat> {
    let body = if s.len() > 0 && s[0] == '+' { s.drop_first() } else { s };
    if body.len() > 0 && all_digits(body) {
        Some(digits_value(body))
    } else {
        None
    }
}

/// The same for a signed integer type: an optional `+` or `-`.
pub open spec fn signed_numeral(s: Seq<char>) -> Option<int> {
    if s.len() > 0 && s[0] == '-' {
        let body = s.drop_first();
        if body.len() > 0 && all_digits(body) {
            Some(-digits_value(body))
        } else {
            None
        }
    } else {
        match unsigned_numeral(s) {
            Some(v) => Some(v as int),
            None => None,
        }
    }
}

pub proof fn lemma_digit_char(d: nat)
    requires
        d < 10,
    ensures
        is_digit(digit_char(d)),
        digit_value(digit_char(d)) == d,
{
}

pub proof fn lemma_decimal(v: nat)
    ensures
        decimal(v).len() >= 1,
        all_digits(decimal(v)),
        digits_value(decimal(v)) == v,
        decimal(v)[0] != '-' && decimal(v)[0] != '+',
    decreases v,
{
    if v < 10 {
        lemma_digit_char(v);
        assert(decimal(v).drop_last() =~= Seq::<char>::empty());
        assert(digits_value(Seq::<char>::empty()) == 0);
    } else {
        lemma_decimal(v / 10);
        lemma_digit_char(v % 10);
        let s = decimal(v);
        assert(s.drop_last() =~= decimal(v / 10));
        assert(s[0] == decimal(v / 10)[0]);
        assert(v == (v / 10) * 10 + v % 10) by (nonlinear_arith);
        assert(s.last() == digit_char(v % 10));
        assert(digits_value(s) == digits_value(decimal(v / 10)) * 10 + digit_value(digit_char(v % 10)));
    }
}

pub proof fn lemma_padded(v: nat, width: nat)
    ensures
        padded(v, width).len() == width,
        all_digits(padded(v, width)),
    decreases width,
{
    if width > 0 {
        lemma_padded(v / 10, (width - 1) as nat);
        lemma_digit_char(v % 10);
    }
}

/// `padded(v, width)` spells `v` modulo `10^width`.
pub proof fn lemma_padded_value(v: nat, width: nat)
    ensures
        padded(v, width).len() == width,
        all_digits(padded(v, width)),
        digits_value(padded(v, width)) == v % pow10(width),
    decreases width,
{
    lemma_padded(v, width);
    if width > 0 {
        lemma_padded_value(v / 10, (width - 1) as nat);
        lemma_digit_char(v % 10);
        let s = padded(v, width);
        assert(s.drop_last() =~= padded(v / 10, (width - 1) as nat));
        lemma_pow10_positive((width - 1) as nat);
        vstd::arithmetic::div_mod::lemma_mod_breakdown(v as int, 10, pow10((width - 1) as nat) as int);
    } else {
        assert(v % 1 == 0);
    }
}

pub proof fn lemma_pow10_positive(n: nat)
    ensures
        pow10(n) >= 1,
    decreases n,
{
    if n > 0 {
        lemma_pow10_positive((n - 1) as nat);
    }
}

/// A number below `10^k` has at most `k` decimal digits.
pub proof fn lemma_decimal_len(v: nat, k: nat)
    requires
        1 <= k,
        v < pow10(k),
    ensures
        decimal(v).len() <= k,
    decreases k,
{
    if v >= 10 {
        if k == 1 {
            assert(pow10(1) == 10) by {
                reveal_with_fuel(pow10, 2);
            }
        } else {
            assert(v / 10 < pow10((k - 1) as nat)) by {
                assert(pow10(k) == 10 * pow10((k - 1) as nat));
            }
            lemma_decimal_len(v / 10, (k - 1) as nat);
        }
    }
}

/// Every digit run starts with the value of its prefix.
pub proof fn lemma_digits_value_prefix(s: Seq<char>, i: int)
    requires
        0 <= i <= s.len(),
    ensures
        digits_value(s.take(i)) <= digits_value(s),
    decreases s.len(),
{
    if i < s.len() {
        assert(s.drop_last().take(i) =~= s.take(i));
        lemma_digits_value_prefix(s.drop_last(), i);
    } else {
        assert(s.take(i) =~= s);
    }
}

/// The decimal numeral of a `u64`.
pub fn push_decimal(out: &mut Vec<char>, v: u64)
    ensures
        final(out)@ == old(out)@ + decimal(v as nat),
    decreases v,
{
    if v >= 10 {
        push_decimal(out, v / 10);
    }
    let d = (v % 10) as u8;
    out.push((d + 48) as char);
    assert(((d + 48) as char) == digit_char((v % 10) as nat));
}

/// The decimal numeral of an `i64`, `-` first when negative.
pub fn push_signed_decimal(out: &mut Vec<char>, v: i64)
    ensures
        final(out)@ == old(out)@ + signed_decimal(v as int),
{
    if v < 0 {
        out.push('-');
        let magnitude: u64 = if v == i64::MIN { 9223372036854775808u64 } else { (-v) as u64 };
        push_decimal(out, magnitude);
    } else {
        push_decimal(out, v as u64);
    }
}

/// `v` as `width` zero-padded digits.
pub fn push_padded(out: &mut Vec<char>, v: u64, width: u8)
    ensures
        final(out)@ == old(out)@ + padded(v as nat, width as nat),
    decreases width,
{
    if width > 0 {
        push_padded(out, v / 10, width - 1);
        let d = (v % 10) as u8;
        out.push((d + 48) as char);
        assert(((d + 48) as char) == digit_char((v % 10) as nat));
    }
}

/// The value of the digits `chars[from..to]` when they are all digits and
/// the value fits in a `u64`.
pub fn digits_in(chars: &Vec<char>, from: usize, to: usize) -> (value: Option<u64>)
    requires
        from <= to <= chars@.len(),
    ensures
        ({
            let s = chars@.subrange(from as int, to as int);
            match value {
                Some(v) => all_digits(s) && v == digits_value(s),
                None => !all_digits(s) || digits_value(s) > u64::MAX,
            }
        }),
{
    let ghost s = chars@.subrange(from as int, to as int);
    let mut v: u64 = 0;
    let mut i: usize = from;
    let mut overflow = false;
    while i < to
        invariant
            from <= i <= to <= chars@.len(),
            s == chars@.subrange(from as int, to as int),
            all_digits(s.take(i - from)),
            !overflow ==> v == digits_value(s.take(i - from)),
            overflow ==> digits_value(s.take(i - from)) > u64::MAX,
        decreases to - i,
    {
        let c = chars[i];
        if !('0' <= c && c <= '9') {
            assert(!is_digit(s[i - from]));
            return None;
        }
        let ghost prev = s.take(i - from);
        let ghost next = s.take(i - from + 1);
        assert(next.drop_last() =~= prev);
        assert(next.last() == c);
        let d = (c as u32 - 48) as u64;
        assert(d == digit_value(c));
        if !overflow {
            if v > 1844674407370955161u64 || (v == 1844674407370955161u64 && d > 5) {
                overflow = true;
            } else {
                v = v * 10 + d;
            }
        }
        i = i + 1;
    }
    assert(s.take(to - from) =~= s);
    if overflow {
        None
    } else {
        Some(v)
    }
}

pub open spec fn pow10(n: nat) -> nat
    decreases n,
{
    if n == 0 { 1 } else { 10 * pow10((n - 1) as nat) }
}

/// A run of `n` digits is worth less than `10^n`.
pub proof fn lemma_digits_value_bound(s: Seq<char>)
    requires
        all_digits(s),
    ensures
        digits_value(s) < pow10(s.len()),
    decreases s.len(),
{
    if s.len() > 0 {
        assert(all_digits(s.drop_last())) by {
            assert forall|i: int| 0 <= i < s.drop_last().len() implies is_digit(#[trigger] s.drop_last()[i]) by {
                assert(s.drop_last()[i] == s[i]);
            }
        }
        lemma_digits_value_bound(s.drop_last());
        assert(is_digit(s[s.len() - 1]));
    }
}

/// `chars[from..to].parse::<u64>()`: an optional `+`, then digits.
pub fn parse_unsigned(chars: &Vec<char>, from: usize, to: usize) -> (value: Option<u64>)
    requires
        from <= to <= chars@.len(),
    ensures
        match value {
            Some(v) => unsigned_numeral(chars@.subrange(from as int, to as int)) == Some(v as nat),
            None => match unsigned_numeral(chars@.subrange(from as int, to as int)) {
                Some(v) => v > u64::MAX,
                None => true,
            },
        },
{
    let ghost s = chars@.subrange(from as int, to as int);
    let start = if from < to && chars[from] == '+' { from + 1 } else { from };
    if from < to {
        assert(s.drop_first() =~= chars@.subrange(from + 1, to as int));
    }
    assert(chars@.subrange(start as int, to as int) =~= chars@.subrange(start as int, to as int));
    if start == to {
        return None;
    }
    digits_in(chars, start, to)
}

/// `chars[from..to].parse::<i64>()`: an optional sign, then digits.
pub fn parse_signed(chars: &Vec<char>, from: usize, to: usize) -> (value: Option<i64>)
    requires
        from <= to <= chars@.len(),
    ensures
        match value {
            Some(v) => signed_numeral(chars@.subrange(from as int, to as int)) == Some(v as int),
            None => match signed_numeral(chars@.subrange(from as int, to as int)) {
                Some(v) => v < i64::MIN || v > i64::MAX,
                None => true,
            },
        },
{
    let ghost s = chars@.subrange(from as int, to as int);
    if from < to && chars[from] == '-' {
        assert(s.drop_first() =~= chars@.subrange(from + 1, to as int));
        if from + 1 == to {
            return None;
        }
        let magnitude = match digits_in(chars, from + 1, to) {
            Some(m) => m,
            None => return None,
        };
        if magnitude > 9223372036854775808u64 {
            return None;
        }
        if magnitude == 9223372036854775808u64 {
            return Some(i64::MIN);
        }
        return Some(-(magnitude as i64));
    }
    match parse_unsigned(chars, from, to) {
        Some(v) => if v <= 9223372036854775807u64 { Some(v as i64) } else { None },
        None => None,
    }
}

} // verus!
