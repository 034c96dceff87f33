//! Ids as they travel in button payloads: the hyphenated, lower-case text
//! of a UUID (`8-4-4-4-12` hexadecimal digits).

use vstd::prelude::*;
use vstd::arithmetic::div_mod::lemma_mod_breakdown;

use crate::numbers::{digit_char, digit_value, is_digit};
use crate::text::{push_chars, slice_of};

verus! {

pub open spec fn hex_char(d: nat) -> char {
    if d < 10 {
        digit_char(d)
    } else {
        (d - 10 + 'a' as int) as char
    }
}

pub open spec fn is_hex(c: char) -> bool {
    is_digit(c) || ('a' <= c && c <= 'f') || ('A' <= c && c <= 'F')
}

pub open spec fn hex_value(c: char) -> nat {
    if is_digit(c) {
        digit_value(c)
    } else if 'a' <= c && c <= 'f' {
        (c as int - 'a' as int + 10) as nat
    } else {
        (c as int - 'A' as int + 10) as nat
    }
}

pub open spec fn all_hex(s: Seq<char>) -> bool {
    forall|i: int| 0 <= i < s.len() ==> #[trigger] is_hex(s[i])
}

/// The value of a run of hexadecimal digits.
pub open spec fn hex_digits_value(s: Seq<char>) -> nat
    decreases s.len(),
{
    if s.len() == 0 {
        0
    } else {
        hex_digits_value(s.drop_last()) * 16 + hex_value(s.last())
    }
}

pub open spec fn pow16(n: nat) -> nat
    decreases n,
{
    if n == 0 { 1 } else { 16 * pow16((n - 1) as nat) }
}

/// `v` as `width` lower-case hexadecimal digits (modulo `16^width`).
pub open spec fn hex_padded(v: nat, width: nat) -> Seq<char>
    decreases width,
{
    if width == 0 {
        Seq::empty()
    } else {
        hex_padded(v / 16, (width - 1) as nat).push(hex_char(v % 16))
    }
}

/// The hyphenated text of the UUID whose value is `v`.
pub open spec fn uuid_text(v: nat) -> Seq<char> {
    let h = hex_padded(v, 32);
    h.subrange(0, 8) + seq!['-'] + h.subrange(8, 12) + seq!['-'] + h.subrange(12, 16) + seq!['-']
        + h.subrange(16, 20) + seq!['-'] + h.subrange(20, 32)
}

/// The 32 digits of a hyphenated UUID text, hyphens left out.
pub open spec fn uuid_digits(s: Seq<char>) -> Seq<char> {
    s.subrange(0, 8) + s.subrange(9, 13) + s.subrange(14, 18) + s.subrange(19, 23) + s.subrange(24, 36)
}

pub open spec fn uuid_shape(s: Seq<char>) -> bool {
    s.len() == 36 && s[8] == '-' && s[13] == '-' && s[18] == '-' && s[23] == '-'
}

/// The value of a hyphenated UUID text (either case of hex digits).
pub open spec fn uuid_value(s: Seq<char>) -> Option<nat> {
    if uuid_shape(s) && all_hex(uuid_digits(s)) {
        Some(hex_digits_value(uuid_digits(s)))
    } else {
        None
    }
}

proof fn lemma_hex_char(d: nat)
    requires
        d < 16,
    ensures
        is_hex(hex_char(d)),
        hex_value(hex_char(d)) == d,
{
}

pub proof fn lemma_hex_padded(v: nat, width: nat)
    ensures
        hex_padded(v, width).len() == width,
        all_hex(hex_padded(v, width)),
        hex_digits_value(hex_padded(v, width)) == v % pow16(width),
    decreases width,
{
    if width > 0 {
        lemma_hex_padded(v / 16, (width - 1) as nat);
        lemma_hex_char(v % 16);
        let s = hex_padded(v, width);
        assert(s.drop_last() =~= hex_padded(v / 16, (width - 1) as nat));
        lemma_pow16_positive((width - 1) as nat);
        lemma_mod_breakdown(v as int, 16, pow16((width - 1) as nat) as int);
    } else {
        assert(v % 1 == 0);
    }
}

proof fn lemma_pow16_positive(n: nat)
    ensures
        pow16(n) >= 1,
    decreases n,
{
    if n > 0 {
        lemma_pow16_positive((n - 1) as nat);
    }
}

pub proof fn lemma_hex_digits_bound(s: Seq<char>)
    requires
        all_hex(s),
    ensures
        hex_digits_value(s) < pow16(s.len()),
    decreases s.len(),
{
    if s.len() > 0 {
        assert(all_hex(s.drop_last())) by {
            assert forall|i: int| 0 <= i < s.drop_last().len() implies is_hex(#[trigger] s.drop_last()[i]) by {
                assert(s.drop_last()[i] == s[i]);
            }
        }
        lemma_hex_digits_bound(s.drop_last());
        assert(is_hex(s[s.len() - 1]));
    }
}

proof fn lemma_pow16_32()
    ensures
        pow16(32) == u128::MAX as nat + 1,
{
    reveal_with_fuel(pow16, 33);
}

/// The UUID text of `v` reads back as `v`.
pub proof fn lemma_uuid_round_trip(v: u128)
    ensures
        uuid_value(uuid_text(v as nat)) == Some(v as nat),
        uuid_text(v as nat).len() == 36,
{
    let h = hex_padded(v as nat, 32);
    lemma_hex_padded(v as nat, 32);
    lemma_pow16_32();
    let t = uuid_text(v as nat);
    assert(t.len() == 36);
    assert(t[8] == '-' && t[13] == '-' && t[18] == '-' && t[23] == '-');
    assert(uuid_digits(t) =~= h);
    vstd::arithmetic::div_mod::lemma_small_mod(v as nat, pow16(32));
}

pub fn push_hex_padded(out: &mut Vec<char>, v: u128, width: u8)
    ensures
        final(out)@ == old(out)@ + hex_padded(v as nat, width as nat),
    decreases width,
{
    if width > 0 {
        push_hex_padded(out, v / 16, width - 1);
        let d = (v % 16) as u8;
        let c = if d < 10 { (d + 48) as char } else { (d - 10 + 97) as char };
        assert(c == hex_char((v % 16) as nat));
        out.push(c);
    }
}

/// Appends the hyphenated text of the UUID `v`.
pub fn push_uuid(out: &mut Vec<char>, v: u128)
    ensures
        final(out)@ == old(out)@ + uuid_text(v as nat),
{
    let mut h: Vec<char> = Vec::new();
    push_hex_padded(&mut h, v, 32);
    proof { lemma_hex_padded(v as nat, 32); }
    push_chars(out, &slice_of(&h, 0, 8));
    out.push('-');
    push_chars(out, &slice_of(&h, 8, 12));
    out.push('-');
    push_chars(out, &slice_of(&h, 12, 16));
    out.push('-');
    push_chars(out, &slice_of(&h, 16, 20));
    out.push('-');
    push_chars(out, &slice_of(&h, 20, 32));
    assert(out@ =~= old(out)@ + uuid_text(v as nat));
}

/// The UUID spelled by `chars[from..to]`.
pub fn parse_uuid(chars: &Vec<char>, from: usize, to: usize) -> (value: Option<u128>)
    requires
        from <= to <= chars@.len(),
    ensures
        match value {
            Some(v) => uuid_value(chars@.subrange(from as int, to as int)) == Some(v as nat),
            None => uuid_value(chars@.subrange(from as int, to as int)).is_none(),
        },
{
    let ghost s = chars@.subrange(from as int, to as int);
    if to - from != 36 || chars[from + 8] != '-' || chars[from + 13] != '-' || chars[from + 18] != '-'
        || chars[from + 23] != '-' {
        return None;
    }
    let mut h: Vec<char> = slice_of(chars, from, from + 8);
    push_chars(&mut h, &slice_of(chars, from + 9, from + 13));
    push_chars(&mut h, &slice_of(chars, from + 14, from + 18));
    push_chars(&mut h, &slice_of(chars, from + 19, from + 23));
    push_chars(&mut h, &slice_of(chars, from + 24, from + 36));
    assert(h@ =~= uuid_digits(s));
    let mut value: u128 = 0;
    let mut i: usize = 0;
    proof { lemma_pow16_32(); }
    while i < 32
        invariant
            h@.len() == 32,
            h@ == uuid_digits(s),
            s == chars@.subrange(from as int, to as int),
            i <= 32,
            all_hex(h@.take(i as int)),
            value == hex_digits_value(h@.take(i as int)),
            pow16(32) == u128::MAX as nat + 1,
        decreases 32 - i,
    {
        let c = h[i];
        let d: u128 = if '0' <= c && c <= '9' {
            (c as u32 - 48) as u128
        } else if 'a' <= c && c <= 'f' {
            (c as u32 - 87) as u128
        } else if 'A' <= c && c <= 'F' {
            (c as u32 - 55) as u128
        } else {
            assert(!is_hex(h@[i as int]));
            assert(!all_hex(uuid_digits(s)));
            return None;
        };
        let ghost next = h@.take(i + 1);
        assert(next.drop_last() =~= h@.take(i as int));
        assert(all_hex(next)) by {
            assert forall|j: int| 0 <= j < next.len() implies is_hex(#[trigger] next[j]) by {
                if j < i {
                    assert(next[j] == h@.take(i as int)[j]);
                }
            }
        }
        proof {
            lemma_hex_digits_bound(next);
            lemma_pow16_mono(next.len(), 32);
        }
        value = value * 16 + d;
        i = i + 1;
    }
    assert(h@.take(32) =~= h@);
    Some(value)
}

proof fn lemma_pow16_mono(a: nat, b: nat)
    requires
        a <= b,
    ensures
        pow16(a) <= pow16(b),
    decreases b,
{
    if a < b {
        lemma_pow16_mono(a, (b - 1) as nat);
        lemma_pow16_positive((b - 1) as nat);
    }
}

} // verus!
