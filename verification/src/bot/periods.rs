//! Periods typed after a command: `mm/aaaa` names the cycle that starts in
//! that month (`/exportar 03/2026`).

use vstd::prelude::*;

use crate::numbers::{parse_signed, parse_unsigned, signed_numeral, unsigned_numeral};
use crate::text::{chars_of, find_char, first_at, trim_range, trimmed};

verus! {

/// A month of a year.
#[derive(Clone, Copy, Debug, PartialEq, Eq, Structural)]
pub struct YearMonth {
    pub year: i32,
    pub month: u32,
}

impl YearMonth {
    /// The month, when `month` is 1 to 12.
    pub fn new(year: i32, month: u32) -> (value: Option<YearMonth>)
        ensures
            value == (if 1 <= month <= 12 { Some(YearMonth { year, month }) } else { None }),
    {
        if 1 <= month && month <= 12 {
            Some(YearMonth { year, month })
        } else {
            None
        }
    }
}

/// `mm/aaaa` (spaces allowed around each number) as a month.
pub open spec fn typed_month(text: Seq<char>) -> Option<YearMonth> {
    let split = first_at(text, '/') as int;
    if split == text.len() {
        None
    } else {
        match (unsigned_numeral(trimmed(text.take(split))), signed_numeral(trimmed(text.skip(split + 1)))) {
            (Some(month), Some(year)) => if 1 <= month <= 12 && i32::MIN <= year <= i32::MAX {
                Some(YearMonth { year: year as i32, month: month as u32 })
            } else {
                None
            },
            _ => None,
        }
    }
}

/// Reads `mm/aaaa`; `None` when `text` is not a month.
pub fn parse_month(text: &str) -> (month: Option<YearMonth>)
    ensures
        month == typed_month(text@),
{
    let chars = chars_of(text);
    let n = chars.len();
    let split = match find_char(&chars, 0, n, '/') {
        Some(at) => at,
        None => {
            proof {
                crate::text::lemma_first_at(chars@, '/', n as int);
            }
            return None;
        },
    };
    proof {
        crate::text::lemma_first_at(chars@, '/', split as int);
        assert(chars@.subrange(0, split as int) =~= chars@.take(split as int));
        assert(chars@.subrange(split + 1, n as int) =~= chars@.skip(split + 1));
    }
    let (a, b) = trim_range(&chars, 0, split);
    let (c, d) = trim_range(&chars, split + 1, n);
    let year = match parse_signed(&chars, c, d) {
        Some(year) => year,
        None => return None,
    };
    let month = match parse_unsigned(&chars, a, b) {
        Some(month) => month,
        None => return None,
    };
    if year < -2147483648i64 || year > 2147483647i64 || month > 12 {
        return None;
    }
    YearMonth::new(year as i32, month as u32)
}

} // verus!
