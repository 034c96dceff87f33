//! Slash commands as typed in chat, and the day `/resumo` asks for.

use vstd::prelude::*;

use crate::calendar::{Date, valid_ymd, with_year};
use crate::flows::dates::{parse_typed_date, typed_date};
use crate::text::{
    all_white, ascii_lower, chars_of, find_char, first_at, is_ascii_text, is_white, is_whitespace, lemma_trimmed_padded,
    lemma_trimmed_shape, lemma_trimmed_surrounded, lemma_trimmed_twice, lowercased, slice_of, string_of, to_lowercase, trim_chars, trimmed,
};

verus! {

/// Where the first whitespace character of `s` is (its length when none).
pub open spec fn first_white(s: Seq<char>) -> nat
    decreases s.len(),
{
    if s.len() == 0 {
        0
    } else if is_white(s[0]) {
        0
    } else {
        1 + first_white(s.drop_first())
    }
}

pub open spec fn is_joiner(c: char) -> bool {
    c == '-' || c == '_'
}

/// `s` without `-` and `_`.
pub open spec fn strip_joiners(s: Seq<char>) -> Seq<char>
    decreases s.len(),
{
    if s.len() == 0 {
        s
    } else if is_joiner(s.last()) {
        strip_joiners(s.drop_last())
    } else {
        strip_joiners(s.drop_last()).push(s.last())
    }
}

/// The command name in `head`: the bot mention after `@` left out, lower
/// case, and without `-` or `_` (`/Nova_Categoria@bot` is `novacategoria`).
pub open spec fn command_name(head: Seq<char>) -> Seq<char> {
    strip_joiners(lowercased(head.take(first_at(head, '@') as int)))
}

/// `"/gasto@bot resto"` read as the command `gasto` and its arguments
/// `resto`; `None` when the text is not a command.
pub open spec fn parsed_command(text: Seq<char>) -> Option<(Seq<char>, Seq<char>)> {
    let cleaned = trimmed(text);
    if cleaned.len() == 0 || cleaned[0] != '/' {
        None
    } else {
        let body = cleaned.drop_first();
        let split = first_white(body) as int;
        let rest = if split < body.len() { body.skip(split + 1) } else { Seq::empty() };
        let name = command_name(body.take(split));
        if name.len() == 0 {
            None
        } else {
            Some((name, trimmed(rest)))
        }
    }
}

proof fn lemma_first_white_clear(s: Seq<char>)
    ensures
        first_white(s) <= s.len(),
        forall|j: int| 0 <= j < first_white(s) ==> !is_white(#[trigger] s[j]),
    decreases s.len(),
{
    if s.len() > 0 && !is_white(s[0]) {
        lemma_first_white_clear(s.drop_first());
        assert forall|j: int| 0 <= j < first_white(s) implies !is_white(#[trigger] s[j]) by {
            if j > 0 {
                assert(s[j] == s.drop_first()[j - 1]);
            }
        }
    }
}

proof fn lemma_first_at_clear(s: Seq<char>, target: char)
    ensures
        first_at(s, target) <= s.len(),
        forall|j: int| 0 <= j < first_at(s, target) ==> #[trigger] s[j] != target,
    decreases s.len(),
{
    if s.len() > 0 && s[0] != target {
        lemma_first_at_clear(s.drop_first(), target);
        assert forall|j: int| 0 <= j < first_at(s, target) implies #[trigger] s[j] != target by {
            if j > 0 {
                assert(s[j] == s.drop_first()[j - 1]);
            }
        }
    }
}

proof fn lemma_strip_joiners(s: Seq<char>)
    ensures
        forall|i: int| 0 <= i < strip_joiners(s).len() ==> !is_joiner(#[trigger] strip_joiners(s)[i]) && s.contains(
            strip_joiners(s)[i],
        ),
    decreases s.len(),
{
    if s.len() > 0 {
        lemma_strip_joiners(s.drop_last());
        let kept = strip_joiners(s.drop_last());
        assert forall|i: int| 0 <= i < strip_joiners(s).len() implies !is_joiner(#[trigger] strip_joiners(s)[i])
            && s.contains(strip_joiners(s)[i]) by {
            if i < kept.len() {
                assert(strip_joiners(s)[i] == kept[i]);
                let j = choose|j: int| 0 <= j < s.drop_last().len() && s.drop_last()[j] == kept[i];
                assert(s[j] == kept[i]);
            } else {
                assert(strip_joiners(s)[i] == s.last());
                assert(s[s.len() - 1] == s.last());
            }
        }
    }
}

/// What a command read from a message looks like: only text starting with
/// `/` (spaces aside) is a command; spaces around the message change
/// nothing; the name is never empty and holds no `-` or `_`; the
/// arguments come trimmed. For ASCII text the name is also lower case and
/// holds neither `@` nor whitespace.
pub proof fn lemma_command_shape(text: Seq<char>)
    ensures
        trimmed(text).len() == 0 || trimmed(text)[0] != '/' ==> parsed_command(text) is None,
        parsed_command(seq![' '] + text + seq![' ']) == parsed_command(text),
        parsed_command(text) matches Some((name, rest)) ==> name.len() > 0 && (forall|i: int|
            0 <= i < name.len() ==> !is_joiner(#[trigger] name[i])) && trimmed(rest) == rest,
        is_ascii_text(text) ==> (parsed_command(text) matches Some((name, rest)) ==> forall|i: int|
            0 <= i < name.len() ==> #[trigger] name[i] != '@' && !is_white(name[i]) && !('A' <= name[i] <= 'Z')),
{
    lemma_trimmed_padded(text);
    let cleaned = trimmed(text);
    lemma_trimmed_shape(text);
    if cleaned.len() > 0 && cleaned[0] == '/' {
        let body = cleaned.drop_first();
        let split = first_white(body) as int;
        let rest = if split < body.len() { body.skip(split + 1) } else { Seq::empty() };
        lemma_trimmed_twice(rest);
        lemma_first_white_clear(body);
        let head = body.take(split);
        lemma_first_at_clear(head, '@');
        let bare = head.take(first_at(head, '@') as int);
        let name = strip_joiners(lowercased(bare));
        lemma_strip_joiners(lowercased(bare));
        if is_ascii_text(text) {
            assert forall|i: int| 0 <= i < bare.len() implies (#[trigger] bare[i] as u32) < 128 && bare[i] != '@'
                && !is_white(bare[i]) by {
                assert(bare[i] == cleaned[i + 1]);
                assert(bare[i] == head[i]);
                assert(head[i] == body[i]);
            }
            assert(is_ascii_text(bare));
            let lower = lowercased(bare);
            assert(lower == bare.map_values(|c: char| ascii_lower(c)));
            assert forall|i: int| 0 <= i < name.len() implies #[trigger] name[i] != '@' && !is_white(name[i]) && !(
            'A' <= name[i] <= 'Z') by {
                let j = choose|j: int| 0 <= j < lower.len() && lower[j] == name[i];
                assert(lower[j] == ascii_lower(bare[j]));
            }
        }
    }
}

/// Whitespace of any kind and length around a message changes nothing in
/// the command read from it.
pub proof fn lemma_command_ignores_padding(before: Seq<char>, text: Seq<char>, after: Seq<char>)
    requires
        all_white(before),
        all_white(after),
    ensures
        parsed_command(before + text + after) == parsed_command(text),
{
    lemma_trimmed_surrounded(before, text, after);
}

/// Where the first whitespace character of `chars[from..]` is.
fn find_white(chars: &Vec<char>, from: usize) -> (at: usize)
    requires
        from <= chars@.len(),
    ensures
        from + first_white(chars@.skip(from as int)) == at,
        at <= chars@.len(),
{
    let mut i = from;
    while i < chars.len() && !is_whitespace(chars[i])
        invariant
            from <= i <= chars@.len(),
            from + first_white(chars@.skip(from as int)) == i + first_white(chars@.skip(i as int)),
        decreases chars@.len() - i,
    {
        assert(chars@.skip(i as int).drop_first() =~= chars@.skip(i + 1));
        i = i + 1;
    }
    if i < chars.len() {
        assert(chars@.skip(i as int)[0] == chars@[i as int]);
    }
    i
}

/// `chars` without `-` and `_`.
fn without_joiners(chars: &Vec<char>) -> (kept: Vec<char>)
    ensures
        kept@ == strip_joiners(chars@),
{
    let mut kept: Vec<char> = Vec::new();
    let mut i: usize = 0;
    while i < chars.len()
        invariant
            i <= chars@.len(),
            kept@ == strip_joiners(chars@.take(i as int)),
        decreases chars@.len() - i,
    {
        assert(chars@.take(i + 1).drop_last() =~= chars@.take(i as int));
        assert(chars@.take(i + 1).last() == chars@[i as int]);
        if chars[i] != '-' && chars[i] != '_' {
            kept.push(chars[i]);
        }
        i = i + 1;
    }
    assert(chars@.take(i as int) =~= chars@);
    kept
}

/// `"/gasto@finbot resto"` → `("gasto", "resto")`. Not a command → `None`.
pub fn parse_command(text: &str) -> (command: Option<(String, String)>)
    ensures
        match command {
            Some((name, rest)) => parsed_command(text@) == Some((name@, rest@)),
            None => parsed_command(text@) is None,
        },
{
    let chars = chars_of(text);
    let cleaned = trim_chars(&chars);
    if cleaned.len() == 0 || cleaned[0] != '/' {
        return None;
    }
    let body = slice_of(&cleaned, 1, cleaned.len());
    assert(body@ =~= cleaned@.drop_first());
    let split = find_white(&body, 0);
    assert(body@.skip(0) =~= body@);
    let rest = if split < body.len() {
        let rest = slice_of(&body, split + 1, body.len());
        assert(rest@ =~= body@.skip(split + 1));
        rest
    } else {
        Vec::new()
    };
    let head = slice_of(&body, 0, split);
    assert(head@ =~= body@.take(split as int));
    let mention = match find_char(&head, 0, head.len(), '@') {
        Some(at) => at,
        None => head.len(),
    };
    proof {
        crate::text::lemma_first_at(head@, '@', mention as int);
    }
    let bare = slice_of(&head, 0, mention);
    assert(bare@ =~= head@.take(mention as int));
    let lower = to_lowercase(&bare);
    let name = without_joiners(&lower);
    if name.len() == 0 {
        return None;
    }
    let rest = trim_chars(&rest);
    Some((string_of(&name), string_of(&rest)))
}

pub open spec fn is_date_mark(c: char) -> bool {
    c == '/' || c == '-' || c == '.'
}

/// How many of `s` are `/`, `-` or `.`.
pub open spec fn date_mark_count(s: Seq<char>) -> nat
    decreases s.len(),
{
    if s.len() == 0 {
        0
    } else if is_date_mark(s.last()) {
        date_mark_count(s.drop_last()) + 1
    } else {
        date_mark_count(s.drop_last())
    }
}

/// The day `/resumo` asks for: today when `args` is empty. A `dd/mm` still
/// ahead this year means last year's (in January, `/resumo 20/12` is
/// December).
pub open spec fn summary_day(args: Seq<char>, today: Date) -> Option<Date> {
    if args.len() == 0 {
        Some(today)
    } else {
        match typed_date(args, today) {
            None => None,
            Some(date) => if today.before(date) && date_mark_count(args) == 1 {
                if valid_ymd(today.year - 1, date.month as int, date.day as int) {
                    Some(Date { year: (today.year - 1) as i32, ..date })
                } else {
                    None
                }
            } else {
                Some(date)
            },
        }
    }
}

/// How many of `chars` are `/`, `-` or `.`.
fn date_marks(chars: &Vec<char>) -> (count: usize)
    ensures
        count == date_mark_count(chars@),
{
    let mut count: usize = 0;
    let mut i: usize = 0;
    while i < chars.len()
        invariant
            i <= chars@.len(),
            count == date_mark_count(chars@.take(i as int)),
            count <= i,
        decreases chars@.len() - i,
    {
        assert(chars@.take(i + 1).drop_last() =~= chars@.take(i as int));
        assert(chars@.take(i + 1).last() == chars@[i as int]);
        if chars[i] == '/' || chars[i] == '-' || chars[i] == '.' {
            count = count + 1;
        }
        i = i + 1;
    }
    assert(chars@.take(i as int) =~= chars@);
    count
}

/// The day `/resumo` asks for; `None` when `args` is not a date.
pub fn summary_date(args: &str, today: Date) -> (day: Option<Date>)
    requires
        today.valid(),
    ensures
        day == summary_day(args@, today),
{
    let chars = chars_of(args);
    if chars.len() == 0 {
        return Some(today);
    }
    let date = match parse_typed_date(args, today) {
        Some(date) => date,
        None => return None,
    };
    let without_year = date_marks(&chars) == 1;
    if today.is_before(date) && without_year {
        return with_year(date, today.year - 1);
    }
    Some(date)
}

} // verus!
