//! Days and times of day. Dates are plain year/month/day values; whether
//! one exists, the day before it and the text forms come from `chrono`.

use vstd::prelude::*;

use chrono::Datelike;

use crate::numbers::{all_digits, decimal, digits_value, padded};

verus! {

pub open spec fn is_leap_year(year: int) -> bool {
    (year % 4 == 0 && year % 100 != 0) || year % 400 == 0
}

pub open spec fn days_in_month(year: int, month: int) -> int {
    if month == 2 {
        if is_leap_year(year) { 29 } else { 28 }
    } else if month == 4 || month == 6 || month == 9 || month == 11 {
        30
    } else {
        31
    }
}

/// The years `chrono::NaiveDate` can hold.
pub open spec fn min_year() -> int {
    -262143
}

pub open spec fn max_year() -> int {
    262142
}

/// Whether the day exists in the proleptic Gregorian calendar, within the
/// years a `chrono::NaiveDate` holds.
pub open spec fn valid_ymd(year: int, month: int, day: int) -> bool {
    &&& min_year() <= year <= max_year()
    &&& 1 <= month <= 12
    &&& 1 <= day <= days_in_month(year, month)
}

/// A calendar day.
#[derive(Clone, Copy, Debug, PartialEq, Eq, Hash, Structural)]
pub struct Date {
    pub year: i32,
    pub month: u32,
    pub day: u32,
}

impl Date {
    pub open spec fn valid(self) -> bool {
        valid_ymd(self.year as int, self.month as int, self.day as int)
    }

    /// Whether `self` comes before `other`.
    pub open spec fn before(self, other: Date) -> bool {
        ||| self.year < other.year
        ||| self.year == other.year && self.month < other.month
        ||| self.year == other.year && self.month == other.month && self.day < other.day
    }

    /// The date, when that day exists.
    pub fn from_ymd_opt(year: i32, month: u32, day: u32) -> (date: Option<Date>)
        ensures
            match date {
                Some(d) => valid_ymd(year as int, month as int, day as int) && d == (Date { year, month, day }),
                None => !valid_ymd(year as int, month as int, day as int),
            },
    {
        if day_exists(year, month, day) {
            Some(Date { year, month, day })
        } else {
            None
        }
    }

    pub fn is_before(self, other: Date) -> (earlier: bool)
        ensures
            earlier == self.before(other),
    {
        self.year < other.year || (self.year == other.year && self.month < other.month) || (
        self.year == other.year && self.month == other.month && self.day < other.day)
    }
}

/// The day before `date`, when there is one.
pub open spec fn day_before(date: Date) -> Option<Date> {
    if date.day > 1 {
        Some(Date { day: (date.day - 1) as u32, ..date })
    } else if date.month > 1 {
        Some(
            Date {
                year: date.year,
                month: (date.month - 1) as u32,
                day: days_in_month(date.year as int, date.month - 1) as u32,
            },
        )
    } else if date.year > min_year() {
        Some(Date { year: (date.year - 1) as i32, month: 12, day: 31 })
    } else {
        None
    }
}

/// `chrono::NaiveDate::from_ymd_opt(year, month, day).is_some()`.
#[verifier::external_body]
fn day_exists(year: i32, month: u32, day: u32) -> (exists: bool)
    ensures
        exists == valid_ymd(year as int, month as int, day as int),
{
    chrono::NaiveDate::from_ymd_opt(year, month, day).is_some()
}

/// The day before a real day, when there is one, is a real day too.
pub proof fn lemma_day_before_valid(date: Date)
    requires
        date.valid(),
    ensures
        day_before(date) matches Some(previous) ==> previous.valid(),
{
}

/// `chrono::NaiveDate::checked_sub_days(date, Days::new(1))`: the day before.
#[verifier::external_body]
pub(crate) fn previous_day(date: Date) -> (previous: Option<Date>)
    requires
        date.valid(),
    ensures
        previous == day_before(date),
{
    let naive = chrono::NaiveDate::from_ymd_opt(date.year, date.month, date.day).unwrap();
    naive.checked_sub_days(chrono::Days::new(1)).map(|d| Date { year: d.year(), month: d.month(), day: d.day() })
}

/// `chrono::NaiveDate::with_year`: the same day and month in `year`, when it exists.
#[verifier::external_body]
pub(crate) fn with_year(date: Date, year: i32) -> (moved: Option<Date>)
    requires
        date.valid(),
    ensures
        match moved {
            Some(d) => valid_ymd(year as int, date.month as int, date.day as int)
                && d == (Date { year, ..date }),
            None => !valid_ymd(year as int, date.month as int, date.day as int),
        },
{
    let naive = chrono::NaiveDate::from_ymd_opt(date.year, date.month, date.day).unwrap();
    naive.with_year(year).map(|d| Date { year: d.year(), month: d.month(), day: d.day() })
}

/// Days from 1970-01-01 to `date` in the proleptic Gregorian calendar
/// (negative before it): the civil day count.
#[verifier::opaque]
pub open spec fn civil_day(date: Date) -> int {
    let y: int = if date.month <= 2 { date.year - 1 } else { date.year as int };
    let era: int = y / 400;
    let year_of_era: int = y - era * 400;
    let shifted_month: int = if date.month > 2 { date.month - 3 } else { date.month + 9 };
    let day_of_year: int = (153 * shifted_month + 2) / 5 + date.day - 1;
    let day_of_era: int = year_of_era * 365 + year_of_era / 4 - year_of_era / 100 + day_of_year;
    era * 146097 + day_of_era - 719468
}

/// What `chrono` gives for `(later - earlier).num_days()`: the difference
/// of the two civil day counts.
pub open spec fn chrono_days_between(later: Date, earlier: Date) -> int {
    civil_day(later) - civil_day(earlier)
}

/// `(later - earlier).num_days()` on `chrono::NaiveDate`: whole days from
/// `earlier` to `later`, negative when `later` comes first. Both lie in
/// the years `chrono` holds, so the count stays within 200 million days.
#[verifier::external_body]
pub(crate) fn days_between(later: Date, earlier: Date) -> (days: i64)
    requires
        later.valid(),
        earlier.valid(),
    ensures
        days == chrono_days_between(later, earlier),
        -200_000_000 <= days <= 200_000_000,
{
    let later = chrono::NaiveDate::from_ymd_opt(later.year, later.month, later.day).unwrap();
    let earlier = chrono::NaiveDate::from_ymd_opt(earlier.year, earlier.month, earlier.day).unwrap();
    (later - earlier).num_days()
}

/// Four digits for the years 0 to 9999, as `chrono` writes them with `%Y`.
pub open spec fn four_digit_year(year: int) -> bool {
    0 <= year <= 9999
}

/// How `chrono` writes a year outside 0 to 9999, with `%Y` and in the ISO
/// form alike: a sign, then the size of the year in at least four digits.
pub open spec fn signed_year_text(year: int) -> Seq<char> {
    let size: nat = if year < 0 { (-year) as nat } else { year as nat };
    (if year < 0 { seq!['-'] } else { seq!['+'] }) + if size < 10000 { padded(size, 4) } else { decimal(size) }
}

/// What `chrono` writes for `date.format("%d/%m/%Y")` when the year is
/// not four digits.
pub open spec fn chrono_day_month_year(date: Date) -> Seq<char> {
    day_month_text(date) + seq!['/'] + signed_year_text(date.year as int)
}

/// What `chrono` writes for `date.format("%Y%m%d")` when the year is not
/// four digits.
pub open spec fn chrono_compact(date: Date) -> Seq<char> {
    signed_year_text(date.year as int) + padded(date.month as nat, 2) + padded(date.day as nat, 2)
}

/// What `chrono` writes for `date.to_string()` when the year is not four
/// digits.
pub open spec fn chrono_iso(date: Date) -> Seq<char> {
    signed_year_text(date.year as int) + seq!['-'] + padded(date.month as nat, 2) + seq!['-'] + padded(
        date.day as nat,
        2,
    )
}

/// `dd/mm`.
pub open spec fn day_month_text(date: Date) -> Seq<char> {
    padded(date.day as nat, 2) + seq!['/'] + padded(date.month as nat, 2)
}

/// `dd/mm/aaaa`.
pub open spec fn day_month_year_text(date: Date) -> Seq<char> {
    if four_digit_year(date.year as int) {
        day_month_text(date) + seq!['/'] + padded(date.year as nat, 4)
    } else {
        chrono_day_month_year(date)
    }
}

/// `aaaammdd`.
pub open spec fn compact_text(date: Date) -> Seq<char> {
    if four_digit_year(date.year as int) {
        padded(date.year as nat, 4) + padded(date.month as nat, 2) + padded(date.day as nat, 2)
    } else {
        chrono_compact(date)
    }
}

/// `aaaa-mm-dd`, the ISO form.
pub open spec fn iso_text(date: Date) -> Seq<char> {
    if four_digit_year(date.year as int) {
        padded(date.year as nat, 4) + seq!['-'] + padded(date.month as nat, 2) + seq!['-']
            + padded(date.day as nat, 2)
    } else {
        chrono_iso(date)
    }
}

/// What `chrono` writes for `date.format("%m/%Y")` when the year is not
/// four digits.
pub open spec fn chrono_month_year(date: Date) -> Seq<char> {
    padded(date.month as nat, 2) + seq!['/'] + signed_year_text(date.year as int)
}

/// `mm/aaaa`.
pub open spec fn month_year_text(date: Date) -> Seq<char> {
    if four_digit_year(date.year as int) {
        padded(date.month as nat, 2) + seq!['/'] + padded(date.year as nat, 4)
    } else {
        chrono_month_year(date)
    }
}

/// `date.format("%m/%Y")` from `chrono`.
#[verifier::external_body]
pub(crate) fn format_month_year(date: Date) -> (text: String)
    requires
        date.valid(),
    ensures
        text@ == month_year_text(date),
        !four_digit_year(date.year as int) ==> text@ == chrono_month_year(date),
{
    let naive = chrono::NaiveDate::from_ymd_opt(date.year, date.month, date.day).unwrap();
    naive.format("%m/%Y").to_string()
}

/// What `chrono` writes for `date.format("%Y-%m")` when the year is not
/// four digits.
pub open spec fn chrono_year_month(date: Date) -> Seq<char> {
    signed_year_text(date.year as int) + seq!['-'] + padded(date.month as nat, 2)
}

/// `aaaa-mm`.
pub open spec fn year_month_text(date: Date) -> Seq<char> {
    if four_digit_year(date.year as int) {
        padded(date.year as nat, 4) + seq!['-'] + padded(date.month as nat, 2)
    } else {
        chrono_year_month(date)
    }
}

/// `date.format("%Y-%m")` from `chrono`.
#[verifier::external_body]
pub(crate) fn format_year_month(date: Date) -> (text: String)
    requires
        date.valid(),
    ensures
        text@ == year_month_text(date),
        !four_digit_year(date.year as int) ==> text@ == chrono_year_month(date),
{
    let naive = chrono::NaiveDate::from_ymd_opt(date.year, date.month, date.day).unwrap();
    naive.format("%Y-%m").to_string()
}

/// `date.format("%d/%m")` from `chrono`.
#[verifier::external_body]
pub(crate) fn format_day_month(date: Date) -> (text: String)
    requires
        date.valid(),
    ensures
        text@ == day_month_text(date),
{
    let naive = chrono::NaiveDate::from_ymd_opt(date.year, date.month, date.day).unwrap();
    naive.format("%d/%m").to_string()
}

/// `date.format("%d/%m/%Y")` from `chrono`.
#[verifier::external_body]
pub(crate) fn format_day_month_year(date: Date) -> (text: String)
    requires
        date.valid(),
    ensures
        text@ == day_month_year_text(date),
        !four_digit_year(date.year as int) ==> text@ == chrono_day_month_year(date),
{
    let naive = chrono::NaiveDate::from_ymd_opt(date.year, date.month, date.day).unwrap();
    naive.format("%d/%m/%Y").to_string()
}

/// `date.format("%Y%m%d")` from `chrono`.
#[verifier::external_body]
pub(crate) fn format_compact(date: Date) -> (text: String)
    requires
        date.valid(),
    ensures
        text@ == compact_text(date),
        !four_digit_year(date.year as int) ==> text@ == chrono_compact(date),
{
    let naive = chrono::NaiveDate::from_ymd_opt(date.year, date.month, date.day).unwrap();
    naive.format("%Y%m%d").to_string()
}

/// `chrono::NaiveDate`'s `Display`: `aaaa-mm-dd`.
#[verifier::external_body]
pub(crate) fn format_iso(date: Date) -> (text: String)
    requires
        date.valid(),
    ensures
        text@ == iso_text(date),
        !four_digit_year(date.year as int) ==> text@ == chrono_iso(date),
{
    let naive = chrono::NaiveDate::from_ymd_opt(date.year, date.month, date.day).unwrap();
    naive.to_string()
}

/// The date spelled by eight digits `aaaammdd`.
pub open spec fn compact_date(text: Seq<char>) -> Option<Date> {
    let (year, month, day) = (
        digits_value(text.subrange(0, 4)),
        digits_value(text.subrange(4, 6)),
        digits_value(text.subrange(6, 8)),
    );
    if valid_ymd(year as int, month as int, day as int) {
        Some(Date { year: year as i32, month: month as u32, day: day as u32 })
    } else {
        None
    }
}

/// The date spelled `aaaa-mm-dd` with those ten characters.
pub open spec fn iso_date(text: Seq<char>) -> Option<Date> {
    compact_date(text.subrange(0, 4) + text.subrange(5, 7) + text.subrange(8, 10))
}

pub open spec fn is_compact_shape(text: Seq<char>) -> bool {
    text.len() == 8 && all_digits(text)
}

pub open spec fn is_iso_shape(text: Seq<char>) -> bool {
    &&& text.len() == 10
    &&& text[4] == '-' && text[7] == '-'
    &&& all_digits(text.subrange(0, 4)) && all_digits(text.subrange(5, 7)) && all_digits(text.subrange(8, 10))
}

/// What `chrono::NaiveDate::parse_from_str(text, "%Y%m%d")` gives on text
/// that is not eight digits.
pub uninterp spec fn chrono_parse_compact(text: Seq<char>) -> Option<Date>;

/// What `text.parse::<chrono::NaiveDate>()` gives on text not shaped
/// `dddd-dd-dd`.
pub uninterp spec fn chrono_parse_iso(text: Seq<char>) -> Option<Date>;

/// The date `%Y%m%d` reads from `text`.
pub open spec fn parsed_compact(text: Seq<char>) -> Option<Date> {
    if is_compact_shape(text) {
        compact_date(text)
    } else {
        chrono_parse_compact(text)
    }
}

/// The date `%Y-%m-%d` reads from `text`.
pub open spec fn parsed_iso(text: Seq<char>) -> Option<Date> {
    if is_iso_shape(text) {
        iso_date(text)
    } else {
        chrono_parse_iso(text)
    }
}

/// `chrono::NaiveDate::parse_from_str(text, "%Y%m%d")`. On eight ASCII
/// digits `chrono` reads four for the year, two for the month and two for
/// the day; other shapes (signs, spaces) are left to `chrono`.
#[verifier::external_body]
pub(crate) fn parse_compact(text: &str) -> (date: Option<Date>)
    ensures
        date == parsed_compact(text@),
        !is_compact_shape(text@) ==> date == chrono_parse_compact(text@),
        date matches Some(d) ==> d.valid(),
{
    chrono::NaiveDate::parse_from_str(text, "%Y%m%d").ok().map(|d| Date { year: d.year(), month: d.month(), day: d.day() })
}

/// `text.parse::<chrono::NaiveDate>()`, which reads `%Y-%m-%d`. On the
/// shape `dddd-dd-dd` it reads four digits of year, two of month, two of
/// day; other shapes are left to `chrono`.
#[verifier::external_body]
pub(crate) fn parse_iso(text: &str) -> (date: Option<Date>)
    ensures
        date == parsed_iso(text@),
        !is_iso_shape(text@) ==> date == chrono_parse_iso(text@),
        date matches Some(d) ==> d.valid(),
{
    text.parse::<chrono::NaiveDate>().ok().map(|d| Date { year: d.year(), month: d.month(), day: d.day() })
}

/// A time of day, to the minute.
#[derive(Clone, Copy, Debug, PartialEq, Eq, Hash, Structural)]
pub struct Time {
    pub hour: u32,
    pub minute: u32,
}

impl Time {
    pub open spec fn valid(self) -> bool {
        self.hour < 24 && self.minute < 60
    }

    /// `chrono::NaiveTime::from_hms_opt(hour, minute, 0)`.
    pub fn from_hm_opt(hour: u32, minute: u32) -> (time: Option<Time>)
        ensures
            match time {
                Some(t) => t == (Time { hour, minute }) && t.valid(),
                None => !(hour < 24 && minute < 60),
            },
    {
        if time_exists(hour, minute) {
            Some(Time { hour, minute })
        } else {
            None
        }
    }
}

/// `chrono::NaiveTime::from_hms_opt(hour, minute, 0).is_some()`.
#[verifier::external_body]
fn time_exists(hour: u32, minute: u32) -> (exists: bool)
    ensures
        exists == (hour < 24 && minute < 60),
{
    chrono::NaiveTime::from_hms_opt(hour, minute, 0).is_some()
}

/// `hh:mm`.
pub open spec fn hour_minute_text(time: Time) -> Seq<char> {
    padded(time.hour as nat, 2) + seq![':'] + padded(time.minute as nat, 2)
}

/// `time.format("%H:%M")` from `chrono`.
#[verifier::external_body]
pub(crate) fn format_hour_minute(time: Time) -> (text: String)
    requires
        time.valid(),
    ensures
        text@ == hour_minute_text(time),
{
    chrono::NaiveTime::from_hms_opt(time.hour, time.minute, 0).unwrap().format("%H:%M").to_string()
}

} // verus!
