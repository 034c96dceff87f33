//! Character-level helpers shared by the parsers and the renderers.

use vstd::prelude::*;

verus! {

/// The characters of `text`, in order.
#[verifier::external_body]
pub(crate) fn chars_of(text: &str) -> (chars: Vec<char>)
    ensures
        chars@ == text@,
{
    text.chars().collect()
}

/// A `String` holding exactly `chars`.
#[verifier::external_body]
pub(crate) fn string_of(chars: &Vec<char>) -> (text: String)
    ensures
        text@ == chars@,
{
    chars.iter().collect()
}

/// Appends every character of `extra` to `out`.
pub fn push_str(out: &mut Vec<char>, extra: &str)
    ensures
        final(out)@ == old(out)@ + extra@,
{
    let chars = chars_of(extra);
    let mut i: usize = 0;
    while i < chars.len()
        invariant
            i <= chars@.len(),
            chars@ == extra@,
            out@ == old(out)@ + chars@.take(i as int),
        decreases chars@.len() - i,
    {
        out.push(chars[i]);
        assert(chars@.take(i as int + 1) =~= chars@.take(i as int).push(chars@[i as int]));
        i = i + 1;
    }
    assert(chars@.take(i as int) =~= chars@);
}

} // verus!

verus! {

/// Whether `chars[from..to]` spells exactly `word`.
pub fn range_is(chars: &Vec<char>, from: usize, to: usize, word: &str) -> (same: bool)
    requires
        from <= to <= chars@.len(),
    ensures
        same == (chars@.subrange(from as int, to as int) == word@),
{
    let expected = chars_of(word);
    if to - from != expected.len() {
        assert(chars@.subrange(from as int, to as int).len() != word@.len());
        return false;
    }
    let mut i: usize = 0;
    while i < expected.len()
        invariant
            expected@ == word@,
            to - from == expected@.len(),
            from <= to <= chars@.len(),
            i <= expected@.len(),
            forall|j: int| 0 <= j < i ==> chars@[from + j] == expected@[j],
        decreases expected@.len() - i,
    {
        if chars[from + i] != expected[i] {
            assert(chars@.subrange(from as int, to as int)[i as int] != word@[i as int]);
            return false;
        }
        i = i + 1;
    }
    assert(chars@.subrange(from as int, to as int) =~= word@);
    true
}

/// Index of the first `target` in `s`, or the length of `s` when absent.
pub open spec fn first_at(s: Seq<char>, target: char) -> nat
    decreases s.len(),
{
    if s.len() == 0 || s[0] == target {
        0
    } else {
        1 + first_at(s.drop_first(), target)
    }
}

pub proof fn lemma_first_at(s: Seq<char>, target: char, k: int)
    requires
        0 <= k <= s.len(),
        forall|j: int| 0 <= j < k ==> s[j] != target,
        k < s.len() ==> s[k] == target,
    ensures
        first_at(s, target) == k,
    decreases k,
{
    if k > 0 {
        lemma_first_at(s.drop_first(), target, k - 1);
    }
}

/// The first position of `target` at or after `from`, before `to`.
pub fn find_char(chars: &Vec<char>, from: usize, to: usize, target: char) -> (found: Option<usize>)
    requires
        from <= to <= chars@.len(),
    ensures
        match found {
            Some(i) => from <= i < to && chars@[i as int] == target
                && forall|j: int| from <= j < i ==> chars@[j] != target,
            None => forall|j: int| from <= j < to ==> chars@[j] != target,
        },
{
    let mut i = from;
    while i < to
        invariant
            from <= i <= to <= chars@.len(),
            forall|j: int| from <= j < i ==> chars@[j] != target,
        decreases to - i,
    {
        if chars[i] == target {
            return Some(i);
        }
        i = i + 1;
    }
    None
}

/// A copy of `chars[from..to]`.
pub fn slice_of(chars: &Vec<char>, from: usize, to: usize) -> (part: Vec<char>)
    requires
        from <= to <= chars@.len(),
    ensures
        part@ == chars@.subrange(from as int, to as int),
{
    let mut part: Vec<char> = Vec::new();
    let mut i = from;
    while i < to
        invariant
            from <= i <= to <= chars@.len(),
            part@ == chars@.subrange(from as int, i as int),
        decreases to - i,
    {
        part.push(chars[i]);
        assert(chars@.subrange(from as int, i + 1) =~= chars@.subrange(from as int, i as int).push(chars@[i as int]));
        i = i + 1;
    }
    part
}

/// Appends `extra` to `out`.
pub fn push_chars(out: &mut Vec<char>, extra: &Vec<char>)
    ensures
        final(out)@ == old(out)@ + extra@,
{
    let mut i: usize = 0;
    while i < extra.len()
        invariant
            i <= extra@.len(),
            out@ == old(out)@ + extra@.take(i as int),
        decreases extra@.len() - i,
    {
        out.push(extra[i]);
        assert(extra@.take(i as int + 1) =~= extra@.take(i as int).push(extra@[i as int]));
        i = i + 1;
    }
    assert(extra@.take(i as int) =~= extra@);
}

} // verus!

verus! {

/// Rust's `char::is_whitespace` (Unicode `White_Space`) beyond ASCII: next
/// line, no-break space, ogham space mark, the spaces from en quad to hair
/// space, line and paragraph separators, narrow no-break space, medium
/// mathematical space and ideographic space.
#[verifier::opaque]
pub open spec fn unicode_whitespace(c: char) -> bool {
    let v = c as u32;
    ||| v == 0x85
    ||| v == 0xA0
    ||| v == 0x1680
    ||| 0x2000 <= v <= 0x200A
    ||| v == 0x2028
    ||| v == 0x2029
    ||| v == 0x202F
    ||| v == 0x205F
    ||| v == 0x3000
}

/// Whitespace as Rust's `char::is_whitespace` sees it: among ASCII
/// characters, tab, line feed, vertical tab, form feed, carriage return and
/// space.
pub open spec fn is_white(c: char) -> bool {
    if (c as u32) < 128 {
        '\t' <= c <= '\r' || c == ' '
    } else {
        unicode_whitespace(c)
    }
}

/// Whitespace as `char::is_whitespace` decides it, written out: the
/// Unicode `White_Space` set is a handful of code points.
pub fn is_whitespace(c: char) -> (white: bool)
    ensures
        white == is_white(c),
        (c as u32) >= 128 ==> white == unicode_whitespace(c),
{
    proof {
        reveal(unicode_whitespace);
    }
    let v = c as u32;
    if v < 128 {
        (9 <= v && v <= 13) || v == 32
    } else {
        v == 0x85 || v == 0xA0 || v == 0x1680 || (0x2000 <= v && v <= 0x200A) || v == 0x2028 || v == 0x2029
            || v == 0x202F || v == 0x205F || v == 0x3000
    }
}

/// Rust's `char::is_alphanumeric` (Unicode `Alphabetic` or `Numeric`)
/// beyond ASCII.
pub uninterp spec fn unicode_alphanumeric(c: char) -> bool;

/// Letters and digits as Rust's `char::is_alphanumeric` sees them; among
/// ASCII characters, `a`-`z`, `A`-`Z` and `0`-`9`.
pub open spec fn is_alnum(c: char) -> bool {
    if (c as u32) < 128 {
        'a' <= c <= 'z' || 'A' <= c <= 'Z' || '0' <= c <= '9'
    } else {
        unicode_alphanumeric(c)
    }
}

/// `char::is_alphanumeric`.
#[verifier::external_body]
pub(crate) fn is_alphanumeric(c: char) -> (alnum: bool)
    ensures
        alnum == is_alnum(c),
        (c as u32) >= 128 ==> alnum == unicode_alphanumeric(c),
{
    c.is_alphanumeric()
}

/// Rust's `str::to_lowercase` (Unicode lower case mapping) on text that is
/// not all ASCII.
pub uninterp spec fn unicode_lowercase(text: Seq<char>) -> Seq<char>;

pub open spec fn ascii_lower(c: char) -> char {
    if 'A' <= c <= 'Z' {
        ((c as u32) + 32) as char
    } else {
        c
    }
}

pub open spec fn is_ascii_text(text: Seq<char>) -> bool {
    forall|i: int| 0 <= i < text.len() ==> (#[trigger] text[i] as u32) < 128
}

/// Bytes `text` takes in UTF-8, which is what Telegram counts.
pub open spec fn byte_len(text: Seq<char>) -> nat {
    vstd::utf8::encode_utf8(text).len()
}

/// ASCII text takes one byte per character.
pub proof fn lemma_ascii_byte_len(text: Seq<char>)
    requires
        is_ascii_text(text),
    ensures
        byte_len(text) == text.len(),
    decreases text.len(),
{
    if text.len() > 0 {
        let rest = text.drop_first();
        assert forall|i: int| 0 <= i < rest.len() implies (#[trigger] rest[i] as u32) < 128 by {
            assert(rest[i] == text[i + 1]);
        }
        lemma_ascii_byte_len(rest);
        assert((text[0] as u32) < 128);
    }
}

/// Joining ASCII texts gives ASCII text.
pub proof fn lemma_ascii_concat(a: Seq<char>, b: Seq<char>)
    requires
        is_ascii_text(a),
        is_ascii_text(b),
    ensures
        is_ascii_text(a + b),
{
    assert forall|i: int| 0 <= i < (a + b).len() implies (#[trigger] (a + b)[i] as u32) < 128 by {
        if i < a.len() {
            assert((a + b)[i] == a[i]);
        } else {
            assert((a + b)[i] == b[i - a.len()]);
        }
    }
}

/// `text` in lower case: on ASCII text each upper-case letter becomes its
/// lower-case letter and nothing else changes.
pub open spec fn lowercased(text: Seq<char>) -> Seq<char> {
    if is_ascii_text(text) {
        text.map_values(|c: char| ascii_lower(c))
    } else {
        unicode_lowercase(text)
    }
}

/// `str::to_lowercase`.
#[verifier::external_body]
pub(crate) fn to_lowercase(text: &Vec<char>) -> (lower: Vec<char>)
    ensures
        lower@ == lowercased(text@),
        !is_ascii_text(text@) ==> lower@ == unicode_lowercase(text@),
{
    let text: String = text.iter().collect();
    text.to_lowercase().chars().collect()
}

/// `text` without leading whitespace.
pub open spec fn trim_start(text: Seq<char>) -> Seq<char>
    decreases text.len(),
{
    if text.len() > 0 && is_white(text[0]) {
        trim_start(text.drop_first())
    } else {
        text
    }
}

/// `text` without trailing whitespace.
pub open spec fn trim_end(text: Seq<char>) -> Seq<char>
    decreases text.len(),
{
    if text.len() > 0 && is_white(text.last()) {
        trim_end(text.drop_last())
    } else {
        text
    }
}

/// `str::trim`: without whitespace on either side.
pub open spec fn trimmed(text: Seq<char>) -> Seq<char> {
    trim_end(trim_start(text))
}

/// Trimming the start drops a prefix.
pub proof fn lemma_trim_start_is_suffix(text: Seq<char>)
    ensures
        trim_start(text).len() <= text.len(),
        trim_start(text) == text.skip(text.len() - trim_start(text).len()),
        trim_start(text).len() > 0 ==> !is_white(trim_start(text)[0]),
    decreases text.len(),
{
    if text.len() > 0 && is_white(text[0]) {
        lemma_trim_start_is_suffix(text.drop_first());
        assert(text.drop_first().skip(text.drop_first().len() - trim_start(text).len()) =~= text.skip(
            text.len() - trim_start(text).len(),
        ));
    } else {
        assert(text.skip(0) =~= text);
    }
}

/// Trimming the end keeps a prefix.
pub proof fn lemma_trim_end_is_prefix(text: Seq<char>)
    ensures
        trim_end(text).len() <= text.len(),
        trim_end(text) == text.take(trim_end(text).len() as int),
        trim_end(text).len() > 0 ==> !is_white(trim_end(text).last()),
    decreases text.len(),
{
    if text.len() > 0 && is_white(text.last()) {
        lemma_trim_end_is_prefix(text.drop_last());
        assert(text.drop_last().take(trim_end(text).len() as int) =~= text.take(trim_end(text).len() as int));
    } else {
        assert(text.take(text.len() as int) =~= text);
    }
}

/// Trimmed text is a stretch of the text, with no whitespace at either
/// end.
pub proof fn lemma_trimmed_shape(text: Seq<char>)
    ensures
        trimmed(text).len() <= text.len(),
        is_ascii_text(text) ==> is_ascii_text(trimmed(text)),
        trimmed(text).len() > 0 ==> !is_white(trimmed(text)[0]) && !is_white(trimmed(text).last()),
{
    let start = trim_start(text);
    lemma_trim_start_is_suffix(text);
    lemma_trim_end_is_prefix(start);
    let t = trimmed(text);
    let from = text.len() - start.len();
    assert(t =~= text.subrange(from, from + t.len()));
    if is_ascii_text(text) {
        assert forall|i: int| 0 <= i < t.len() implies (#[trigger] t[i] as u32) < 128 by {
            assert(t[i] == text[from + i]);
        }
    }
    if t.len() > 0 {
        assert(t[0] == start[0]);
    }
}

/// Text with no whitespace at either end is its own trim.
pub proof fn lemma_trim_plain(text: Seq<char>)
    requires
        text.len() > 0 ==> !is_white(text[0]) && !is_white(text.last()),
    ensures
        trim_start(text) == text,
        trim_end(text) == text,
        trimmed(text) == text,
{
}

/// Trimming twice is trimming once.
pub proof fn lemma_trimmed_twice(text: Seq<char>)
    ensures
        trimmed(trimmed(text)) == trimmed(text),
{
    lemma_trimmed_shape(text);
    lemma_trim_plain(trimmed(text));
}

/// Trimming the start of `a + b`: where `a` has something besides
/// whitespace, it is trimmed alone; otherwise `b` is trimmed.
pub proof fn lemma_trim_start_append(a: Seq<char>, b: Seq<char>)
    ensures
        trim_start(a + b) == if trim_start(a).len() > 0 { trim_start(a) + b } else { trim_start(b) },
    decreases a.len(),
{
    if a.len() == 0 {
        assert(a + b =~= b);
    } else if is_white(a[0]) {
        assert((a + b)[0] == a[0]);
        assert((a + b).drop_first() =~= a.drop_first() + b);
        lemma_trim_start_append(a.drop_first(), b);
    } else {
        assert((a + b)[0] == a[0]);
    }
}

/// Trimming the end of `a + b`: where `b` has something besides
/// whitespace, it is trimmed alone; otherwise `a` is trimmed.
pub proof fn lemma_trim_end_append(a: Seq<char>, b: Seq<char>)
    ensures
        trim_end(a + b) == if trim_end(b).len() > 0 { a + trim_end(b) } else { trim_end(a) },
    decreases b.len(),
{
    if b.len() == 0 {
        assert(a + b =~= a);
    } else if is_white(b.last()) {
        assert((a + b).last() == b.last());
        assert((a + b).drop_last() =~= a + b.drop_last());
        lemma_trim_end_append(a, b.drop_last());
    } else {
        assert((a + b).last() == b.last());
    }
}

/// Every character of `text` is whitespace.
pub open spec fn all_white(text: Seq<char>) -> bool {
    forall|i: int| 0 <= i < text.len() ==> is_white(#[trigger] text[i])
}

/// Whitespace alone trims to nothing from either side.
pub proof fn lemma_all_white_trims(text: Seq<char>)
    requires
        all_white(text),
    ensures
        trim_start(text).len() == 0,
        trim_end(text).len() == 0,
    decreases text.len(),
{
    if text.len() > 0 {
        assert(is_white(text[0]));
        assert(is_white(text[text.len() - 1]));
        assert(all_white(text.drop_first())) by {
            assert forall|i: int| 0 <= i < text.drop_first().len() implies is_white(#[trigger] text.drop_first()[i]) by {
                assert(text.drop_first()[i] == text[i + 1]);
            }
        }
        assert(all_white(text.drop_last())) by {
            assert forall|i: int| 0 <= i < text.drop_last().len() implies is_white(#[trigger] text.drop_last()[i]) by {
                assert(text.drop_last()[i] == text[i]);
            }
        }
        lemma_all_white_trims(text.drop_first());
        lemma_all_white_trims(text.drop_last());
    }
}

/// Whitespace around text changes nothing once it is trimmed.
pub proof fn lemma_trimmed_surrounded(before: Seq<char>, text: Seq<char>, after: Seq<char>)
    requires
        all_white(before),
        all_white(after),
    ensures
        trimmed(before + text + after) == trimmed(text),
{
    lemma_all_white_trims(before);
    lemma_all_white_trims(after);
    assert(before + text + after =~= before + (text + after));
    lemma_trim_start_append(before, text + after);
    lemma_trim_start_append(text, after);
    if trim_start(text).len() > 0 {
        lemma_trim_end_append(trim_start(text), after);
    } else {
        assert(trim_start(after) =~= Seq::<char>::empty());
        assert(trim_start(text) =~= Seq::<char>::empty());
    }
}

/// Spaces around text change nothing once it is trimmed.
pub proof fn lemma_trimmed_padded(text: Seq<char>)
    ensures
        trimmed(seq![' '] + text + seq![' ']) == trimmed(text),
{
    let padded = seq![' '] + text + seq![' '];
    assert(padded =~= seq![' '] + (text + seq![' ']));
    lemma_trim_start_append(seq![' '], text + seq![' ']);
    assert(seq![' '].drop_first() =~= Seq::<char>::empty());
    assert(trim_start(seq![' ']) == trim_start(Seq::<char>::empty()));
    lemma_trim_start_append(text, seq![' ']);
    assert(trim_start(seq![' ']) == trim_start(Seq::<char>::empty()));
    if trim_start(text).len() > 0 {
        lemma_trim_end_append(trim_start(text), seq![' ']);
        assert(seq![' '].drop_last() =~= Seq::<char>::empty());
    } else {
        assert(trim_end(Seq::<char>::empty()) == Seq::<char>::empty());
    }
}

/// The bounds of `chars[from..to]` once trimmed.
pub fn trim_range(chars: &Vec<char>, from: usize, to: usize) -> (bounds: (usize, usize))
    requires
        from <= to <= chars@.len(),
    ensures
        from <= bounds.0 <= bounds.1 <= to,
        chars@.subrange(bounds.0 as int, bounds.1 as int) == trimmed(chars@.subrange(from as int, to as int)),
{
    let mut start = from;
    while start < to && is_whitespace(chars[start])
        invariant
            from <= start <= to <= chars@.len(),
            trim_start(chars@.subrange(from as int, to as int)) == trim_start(chars@.subrange(start as int, to as int)),
        decreases to - start,
    {
        assert(chars@.subrange(start as int, to as int).drop_first() =~= chars@.subrange(start + 1, to as int));
        start = start + 1;
    }
    let mut end = to;
    while end > start && is_whitespace(chars[end - 1])
        invariant
            from <= start <= end <= to <= chars@.len(),
            trim_end(chars@.subrange(start as int, to as int)) == trim_end(chars@.subrange(start as int, end as int)),
        decreases end - start,
    {
        assert(chars@.subrange(start as int, end as int).drop_last() =~= chars@.subrange(start as int, end - 1));
        end = end - 1;
    }
    (start, end)
}

/// The characters of `text` with whitespace trimmed off both sides.
pub fn trim_chars(text: &Vec<char>) -> (trimmed_text: Vec<char>)
    ensures
        trimmed_text@ == trimmed(text@),
{
    let (start, end) = trim_range(text, 0, text.len());
    assert(text@.subrange(0, text@.len() as int) =~= text@);
    slice_of(text, start, end)
}

} // verus!

verus! {

/// Whether `part` occurs somewhere in `text`.
pub open spec fn contains_text(text: Seq<char>, part: Seq<char>) -> bool {
    exists|i: int| 0 <= i && i + part.len() <= text.len() && #[trigger] text.subrange(i, i + part.len()) == part
}

/// Whether `part` occurs somewhere in `text`, like `str::contains`.
pub fn contains(text: &Vec<char>, part: &str) -> (found: bool)
    ensures
        found == contains_text(text@, part@),
{
    let width = chars_of(part).len();
    if width > text.len() {
        return false;
    }
    let last = text.len() - width;
    let mut i: usize = 0;
    loop
        invariant
            width == part@.len(),
            width <= text@.len(),
            last + width == text@.len(),
            text@.len() <= usize::MAX,
            i <= last,
            forall|j: int| 0 <= j < i ==> #[trigger] text@.subrange(j, j + width) != part@,
        decreases last - i,
    {
        if range_is(text, i, i + width, part) {
            return true;
        }
        if i == last {
            return false;
        }
        i = i + 1;
    }
}

} // verus!
