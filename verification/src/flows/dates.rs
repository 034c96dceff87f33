//! Dates typed in chat: `dd/mm`, `dd/mm/aa` or `dd/mm/aaaa`; times as
//! `21`, `21h`, `21:30` or `21h30`.

use vstd::prelude::*;

use crate::calendar::{
    Date, Time, day_month_text, day_month_year_text, format_day_month, format_day_month_year,
    valid_ymd,
};
use crate::numbers::{
    all_digits, decimal, digits_in, digits_value, is_digit, lemma_decimal, parse_unsigned,
    signed_numeral, unsigned_numeral,
};
use crate::text::{
    chars_of, find_char, first_at, lemma_first_at, lemma_trim_plain, lowercased, to_lowercase,
    trim_chars, trim_range, trimmed,
};

verus! {

pub open spec fn is_date_sep(c: char) -> bool {
    c == '/' || c == '-' || c == '.'
}

/// `text.split(['/', '-', '.'])`: the pieces between separators.
pub open spec fn date_parts(text: Seq<char>) -> Seq<Seq<char>>
    decreases text.len(),
{
    if text.len() == 0 {
        seq![Seq::empty()]
    } else {
        let rest = date_parts(text.drop_last());
        if is_date_sep(text.last()) {
            rest.push(Seq::empty())
        } else {
            rest.update(rest.len() - 1, rest.last().push(text.last()))
        }
    }
}

pub proof fn lemma_date_parts_len(text: Seq<char>)
    ensures
        date_parts(text).len() >= 1,
    decreases text.len(),
{
    if text.len() > 0 {
        lemma_date_parts_len(text.drop_last());
    }
}

/// Characters with no separator among them only lengthen the last piece.
proof fn lemma_date_parts_extend(front: Seq<char>, rest: Seq<char>)
    requires
        forall|i: int| 0 <= i < rest.len() ==> !is_date_sep(#[trigger] rest[i]),
    ensures
        date_parts(front + rest) == date_parts(front).update(
            date_parts(front).len() - 1,
            date_parts(front).last() + rest,
        ),
    decreases rest.len(),
{
    lemma_date_parts_len(front);
    let pieces = date_parts(front);
    if rest.len() == 0 {
        assert(front + rest =~= front);
        assert(pieces.last() + rest =~= pieces.last());
        assert(pieces.update(pieces.len() - 1, pieces.last() + rest) =~= pieces);
    } else {
        let shorter = rest.drop_last();
        let c = rest.last();
        lemma_date_parts_extend(front, shorter);
        assert((front + rest).drop_last() =~= front + shorter);
        assert((front + rest).last() == c);
        assert(!is_date_sep(c));
        let before = date_parts(front + shorter);
        assert(before.last() == pieces.last() + shorter);
        assert((pieces.last() + shorter).push(c) =~= pieces.last() + rest);
        assert(before.update(before.len() - 1, before.last().push(c)) =~= pieces.update(
            pieces.len() - 1,
            pieces.last() + rest,
        ));
    }
}

/// `day`, one separator and `month`, with no separator inside either,
/// split into exactly those two pieces.
proof fn lemma_date_parts_two(day: Seq<char>, sep: char, month: Seq<char>)
    requires
        is_date_sep(sep),
        forall|i: int| 0 <= i < day.len() ==> !is_date_sep(#[trigger] day[i]),
        forall|i: int| 0 <= i < month.len() ==> !is_date_sep(#[trigger] month[i]),
    ensures
        date_parts(day + seq![sep] + month) == seq![day, month],
{
    let empty = Seq::<char>::empty();
    lemma_date_parts_extend(empty, day);
    assert(empty + day =~= day);
    assert(date_parts(empty) == seq![empty]);
    assert(date_parts(day) =~= seq![day]);
    let with_sep = day + seq![sep];
    assert(with_sep.drop_last() =~= day);
    assert(date_parts(with_sep) =~= seq![day, empty]);
    lemma_date_parts_extend(with_sep, month);
    assert(empty + month =~= month);
    assert(date_parts(with_sep + month) =~= seq![day, month]);
}

/// A day and a month typed with any of the three separators, `/`, `-` or
/// `.`, read as that day of that month in `today`'s year, whenever that
/// day exists: `5/3`, `5-3` and `5.3` are the same date.
pub proof fn lemma_any_date_separator(day: nat, month: nat, sep: char, today: Date)
    requires
        sep == '/' || sep == '-' || sep == '.',
        valid_ymd(today.year as int, month as int, day as int),
    ensures
        typed_date(decimal(day) + seq![sep] + decimal(month), today) == Some(
            Date { year: today.year, month: month as u32, day: day as u32 },
        ),
{
    let d = decimal(day);
    let m = decimal(month);
    lemma_decimal(day);
    lemma_decimal(month);
    assert forall|i: int| 0 <= i < d.len() implies !is_date_sep(#[trigger] d[i]) by {
        assert(is_digit(d[i]));
    }
    assert forall|i: int| 0 <= i < m.len() implies !is_date_sep(#[trigger] m[i]) by {
        assert(is_digit(m[i]));
    }
    let text = d + seq![sep] + m;
    assert(text[0] == d[0]);
    assert(is_digit(d[0]));
    assert(text.last() == m[m.len() - 1]);
    assert(is_digit(m[m.len() - 1]));
    lemma_trim_plain(text);
    lemma_date_parts_two(d, sep, m);
    assert(unsigned_numeral(d) == Some(day));
    assert(unsigned_numeral(m) == Some(month));
}

/// A typed year: two digits mean 20xx, four digits are the year itself.
pub open spec fn typed_year(raw: Seq<char>) -> Option<int> {
    match signed_numeral(raw) {
        Some(v) => if raw.len() == 2 {
            Some(2000 + v)
        } else if raw.len() == 4 {
            Some(v)
        } else {
            None
        },
        None => None,
    }
}

/// The date typed as `dd/mm[/aa[aa]]` (separators `/`, `-` or `.`); with
/// no year, the year of `today`.
pub open spec fn typed_date(text: Seq<char>, today: Date) -> Option<Date> {
    let parts = date_parts(trimmed(text));
    if parts.len() < 2 || parts.len() > 3 {
        None
    } else {
        let year = if parts.len() == 2 { Some(today.year as int) } else { typed_year(parts[2]) };
        match (unsigned_numeral(parts[0]), unsigned_numeral(parts[1]), year) {
            (Some(day), Some(month), Some(year)) => if valid_ymd(year, month as int, day as int) {
                Some(Date { year: year as i32, month: month as u32, day: day as u32 })
            } else {
                None
            },
            _ => None,
        }
    }
}

/// Splits `chars` at each date separator.
fn split_date(chars: &Vec<char>) -> (parts: Vec<Vec<char>>)
    ensures
        parts.deep_view() == date_parts(chars@),
{
    let mut done: Vec<Vec<char>> = Vec::new();
    let mut current: Vec<char> = Vec::new();
    let mut i: usize = 0;
    assert(chars@.take(0) =~= Seq::<char>::empty());
    assert(done.deep_view().push(current@) =~= date_parts(Seq::<char>::empty()));
    while i < chars.len()
        invariant
            i <= chars@.len(),
            done.deep_view().push(current@) == date_parts(chars@.take(i as int)),
        decreases chars@.len() - i,
    {
        let c = chars[i];
        let ghost before = done.deep_view().push(current@);
        assert(chars@.take(i + 1).drop_last() =~= chars@.take(i as int));
        assert(chars@.take(i + 1).last() == c);
        if c == '/' || c == '-' || c == '.' {
            let ghost old_done = done.deep_view();
            let ghost finished_view = current@;
            let finished = current;
            done.push(finished);
            assert(done.deep_view() =~~= old_done.push(finished_view));
            current = Vec::new();
            assert(done.deep_view().push(current@) =~= before.push(Seq::empty()));
        } else {
            current.push(c);
            assert(done.deep_view().push(current@) =~= before.update(before.len() - 1, before.last().push(c)));
        }
        i = i + 1;
    }
    assert(chars@.take(i as int) =~= chars@);
    let ghost old_done = done.deep_view();
    let ghost last_view = current@;
    done.push(current);
    assert(done.deep_view() =~~= old_done.push(last_view));
    done
}

/// [`typed_year`] of `raw`.
fn full_year(raw: &Vec<char>) -> (year: Option<i32>)
    ensures
        match year {
            Some(y) => typed_year(raw@) == Some(y as int),
            None => typed_year(raw@).is_none(),
        },
{
    let n = raw.len();
    if n != 2 && n != 4 {
        return None;
    }
    let ghost s = raw@;
    let negative = raw[0] == '-';
    let start: usize = if raw[0] == '-' || raw[0] == '+' { 1 } else { 0 };
    proof {
        assert(s.drop_first() =~= raw@.subrange(1, n as int));
        assert(raw@.subrange(0, n as int) =~= s);
    }
    if start == n {
        return None;
    }
    let magnitude = match digits_in(raw, start, n) {
        Some(v) => v,
        None => {
            proof {
                if all_digits(raw@.subrange(start as int, n as int)) {
                    crate::numbers::lemma_digits_value_bound(raw@.subrange(start as int, n as int));
                    reveal_with_fuel(crate::numbers::pow10, 5);
                }
            }
            return None;
        },
    };
    proof {
        crate::numbers::lemma_digits_value_bound(raw@.subrange(start as int, n as int));
        reveal_with_fuel(crate::numbers::pow10, 5);
    }
    let value: i32 = if negative { -(magnitude as i32) } else { magnitude as i32 };
    if n == 2 {
        Some(2000 + value)
    } else {
        Some(value)
    }
}

/// Parses a typed date; `dd/mm` uses the year of `today`.
pub fn parse_typed_date(text: &str, today: Date) -> (date: Option<Date>)
    ensures
        date == typed_date(text@, today),
        date matches Some(d) ==> d.valid(),
{
    let chars = chars_of(text);
    parse_typed_date_chars(&chars, today)
}

/// [`parse_typed_date`] on characters.
pub fn parse_typed_date_chars(text: &Vec<char>, today: Date) -> (date: Option<Date>)
    ensures
        date == typed_date(text@, today),
        date matches Some(d) ==> d.valid(),
{
    let trimmed_text = trim_chars(text);
    let parts = split_date(&trimmed_text);
    proof {
        lemma_date_parts_len(trimmed_text@);
    }
    if parts.len() < 2 || parts.len() > 3 {
        return None;
    }
    let ghost p = parts.deep_view();
    assert(parts[0]@ == p[0] && parts[1]@ == p[1]);
    assert(parts[0]@.subrange(0, parts[0]@.len() as int) =~= p[0]);
    assert(parts[1]@.subrange(0, parts[1]@.len() as int) =~= p[1]);
    let day = match parse_unsigned(&parts[0], 0, parts[0].len()) {
        Some(v) => v,
        None => return None,
    };
    let month = match parse_unsigned(&parts[1], 0, parts[1].len()) {
        Some(v) => v,
        None => return None,
    };
    let year = if parts.len() == 2 {
        today.year
    } else {
        assert(parts[2]@ == p[2]);
        match full_year(&parts[2]) {
            Some(y) => y,
            None => return None,
        }
    };
    if day > 31 || month > 12 {
        return None;
    }
    Date::from_ymd_opt(year, month as u32, day as u32)
}

/// `text` lowered and with each `h` read as `:` (`21h30` is `21:30`).
pub open spec fn time_text(text: Seq<char>) -> Seq<char> {
    lowercased(trimmed(text)).map_values(|c: char| if c == 'h' { ':' } else { c })
}

/// The time typed as `hh[:mm]` or `hh[h[mm]]`.
pub open spec fn typed_time(text: Seq<char>) -> Option<Time> {
    let cleaned = time_text(text);
    let k = first_at(cleaned, ':') as int;
    let hours = cleaned.take(k);
    let minutes = if k < cleaned.len() { cleaned.skip(k + 1) } else { Seq::empty() };
    let minute = if minutes.len() == 0 { Some(0nat) } else { unsigned_numeral(minutes) };
    match (unsigned_numeral(trimmed(hours)), minute) {
        (Some(hour), Some(minute)) => if hour < 24 && minute < 60 {
            Some(Time { hour: hour as u32, minute: minute as u32 })
        } else {
            None
        },
        _ => None,
    }
}

/// Parses a typed time of day.
pub fn parse_typed_time(text: &str) -> (time: Option<Time>)
    ensures
        time == typed_time(text@),
        time matches Some(t) ==> t.valid(),
{
    let chars = chars_of(text);
    parse_typed_time_chars(&chars)
}

/// [`parse_typed_time`] on characters.
pub fn parse_typed_time_chars(text: &Vec<char>) -> (time: Option<Time>)
    ensures
        time == typed_time(text@),
        time matches Some(t) ==> t.valid(),
{
    let trimmed_text = trim_chars(text);
    let lower = to_lowercase(&trimmed_text);
    let mut cleaned: Vec<char> = Vec::new();
    let mut i: usize = 0;
    while i < lower.len()
        invariant
            i <= lower@.len(),
            cleaned@ == lower@.take(i as int).map_values(|c: char| if c == 'h' { ':' } else { c }),
        decreases lower@.len() - i,
    {
        let c = lower[i];
        cleaned.push(if c == 'h' { ':' } else { c });
        assert(lower@.take(i + 1) =~= lower@.take(i as int).push(c));
        assert(cleaned@ =~= lower@.take(i + 1).map_values(|c: char| if c == 'h' { ':' } else { c }));
        i = i + 1;
    }
    assert(lower@.take(i as int) =~= lower@);
    let ghost c = time_text(text@);
    assert(cleaned@ == c);
    let n = cleaned.len();
    let k = match find_char(&cleaned, 0, n, ':') {
        Some(k) => k,
        None => n,
    };
    proof {
        lemma_first_at(c, ':', k as int);
        assert(c.take(k as int) =~= cleaned@.subrange(0, k as int));
    }
    let minute: u64 = if k == n {
        0
    } else {
        assert(c.skip(k + 1) =~= cleaned@.subrange(k + 1, n as int));
        if k + 1 == n {
            0
        } else {
            match parse_unsigned(&cleaned, k + 1, n) {
                Some(v) => v,
                None => return None,
            }
        }
    };
    let (a, b) = trim_range(&cleaned, 0, k);
    let hour = match parse_unsigned(&cleaned, a, b) {
        Some(v) => v,
        None => return None,
    };
    if hour >= 24 || minute >= 60 {
        return None;
    }
    Time::from_hm_opt(hour as u32, minute as u32)
}

/// `dd/mm`, adding the year only when it differs from `today`'s.
pub open spec fn short_date_text(date: Date, today: Date) -> Seq<char> {
    if date.year == today.year {
        day_month_text(date)
    } else {
        day_month_year_text(date)
    }
}

/// `dd/mm`, adding the year only when it differs from `today`'s.
pub fn short_date(date: Date, today: Date) -> (text: String)
    requires
        date.valid(),
    ensures
        text@ == short_date_text(date, today),
{
    if date.year == today.year {
        format_day_month(date)
    } else {
        format_day_month_year(date)
    }
}

} // verus!
