//! Calendar days: the day stamps the log and the nudge work with, the in-game (YC) year, and
//! the dates chrono reads and writes for them.

use vstd::prelude::*;
use chrono::{DateTime, Datelike, NaiveDate};
use crate::text::{push_str, signed_decimal, signed_decimal_chars, string_from_chars};

verus! {

/// The Gregorian year the YC calendar counts from.
pub const YC_EPOCH_OFFSET: i32 = 1898;

/// A calendar day.
#[derive(Clone, Copy, Debug, PartialEq, Eq, Structural)]
pub struct DayStamp {
    pub year: i32,
    pub month: u32,
    pub day: u32,
}

/// The earliest and latest years chrono's `NaiveDate` holds (January 1, 262144 BCE to
/// December 31, 262142 CE).
pub const CHRONO_MIN_YEAR: i32 = -262143;
pub const CHRONO_MAX_YEAR: i32 = 262142;

/// A Gregorian leap year: divisible by 4, and by 400 when divisible by 100.
pub open spec fn is_leap_year(year: int) -> bool {
    year % 4 == 0 && (year % 100 != 0 || year % 400 == 0)
}

/// How many days month `month` of `year` has.
pub open spec fn days_in_month(year: int, month: int) -> int {
    if month == 2 {
        if is_leap_year(year) { 29 } else { 28 }
    } else if month == 4 || month == 6 || month == 9 || month == 11 {
        30
    } else {
        31
    }
}

/// A day that exists in the Gregorian calendar, within the years chrono holds.
pub open spec fn is_real_day(date: DayStamp) -> bool {
    &&& CHRONO_MIN_YEAR <= date.year <= CHRONO_MAX_YEAR
    &&& 1 <= date.month <= 12
    &&& 1 <= date.day <= days_in_month(date.year as int, date.month as int)
}

/// The YC year of a Gregorian year.
pub fn yc_year(gregorian_year: i32) -> (r: i32)
    requires
        gregorian_year >= i32::MIN + YC_EPOCH_OFFSET,
    ensures
        r == gregorian_year - YC_EPOCH_OFFSET,
{
    gregorian_year - YC_EPOCH_OFFSET
}

/// `YC` and the YC year of a day, as the calendar header shows it.
pub fn yc_label(date: DayStamp) -> (r: String)
    requires
        date.year >= i32::MIN + YC_EPOCH_OFFSET,
    ensures
        r@ == "YC "@ + signed_decimal(date.year - YC_EPOCH_OFFSET),
{
    let mut v: Vec<char> = Vec::new();
    push_str(&mut v, "YC ");
    let mut digits = signed_decimal_chars((date.year - YC_EPOCH_OFFSET) as i64);
    v.append(&mut digits);
    string_from_chars(&v)
}

/// The day that chrono reads from `text` with the format `%Y-%m-%d`, when it reads one.
pub uninterp spec fn iso_date(text: Seq<char>) -> Option<DayStamp>;

/// Reads `text` with chrono's `NaiveDate::parse_from_str` and the format `%Y-%m-%d`, and
/// returns the year, month and day of the date it gives, which is a day that exists; `None`
/// where chrono reports an error. What chrono accepts is left to its name, `iso_date`.
#[verifier::external_body]
fn parse_iso_date(text: &str) -> (r: Option<DayStamp>)
    ensures
        r == iso_date(text@),
        r matches Some(d) ==> is_real_day(d),
{
    match NaiveDate::parse_from_str(text, "%Y-%m-%d") {
        Ok(d) => Some(DayStamp { year: d.year(), month: d.month(), day: d.day() }),
        Err(_) => None,
    }
}

/// The day the header shows once the selection was read: the day read, else today.
pub fn date_or_today(read: Option<DayStamp>, today: DayStamp) -> (r: DayStamp)
    ensures
        r == (match read {
            Some(d) => d,
            None => today,
        }),
{
    match read {
        Some(d) => d,
        None => today,
    }
}

/// The day the log's header shows: the selected day when its date reads as a day, else today.
pub fn displayed_date(selected: Option<&str>, today: DayStamp) -> (r: DayStamp)
    ensures
        is_real_day(today) ==> is_real_day(r),
        r == (match selected {
            Some(iso) => match iso_date(iso@) {
                Some(d) => d,
                None => today,
            },
            None => today,
        }),
{
    match selected {
        Some(iso) => date_or_today(parse_iso_date(iso), today),
        None => today,
    }
}

/// The text chrono writes for `date` with the format `%A, %-d %B` (weekday, day, month), when
/// the date exists.
pub uninterp spec fn human_date_text(date: DayStamp) -> Option<Seq<char>>;

/// Builds the date with chrono's `NaiveDate::from_ymd_opt` and writes it with `format` and the
/// pattern `%A, %-d %B`; `None` exactly where `from_ymd_opt` finds no such day, which its
/// documentation gives as a day that does not exist, an invalid month or day, or a year out of
/// its range. The text is left to its name, `human_date_text`.
#[verifier::external_body]
fn format_human_date(date: DayStamp) -> (r: Option<String>)
    ensures
        r is Some <==> is_real_day(date),
        match r {
            Some(s) => human_date_text(date) == Some(s@),
            None => human_date_text(date) is None,
        },
{
    match NaiveDate::from_ymd_opt(date.year, date.month, date.day) {
        Some(d) => Some(d.format("%A, %-d %B").to_string()),
        None => None,
    }
}

/// The header's long form of a day, such as `Sunday, 5 July`; `None` for a day that does not
/// exist.
pub fn human_date(date: DayStamp) -> (r: Option<String>)
    ensures
        r is Some <==> is_real_day(date),
        match r {
            Some(s) => human_date_text(date) == Some(s@),
            None => human_date_text(date) is None,
        },
{
    format_human_date(date)
}

/// The text chrono writes with the pattern `%-d %b · %I:%M %p` for the time that it reads from
/// `text` as RFC 3339, when it reads one.
pub uninterp spec fn rfc3339_stamp(text: Seq<char>) -> Option<Seq<char>>;

/// Reads `text` with chrono's `DateTime::parse_from_rfc3339` and writes the time with `format`
/// and the pattern `%-d %b · %I:%M %p`; `None` where chrono reports an error. The text is left
/// to its name, `rfc3339_stamp`.
#[verifier::external_body]
pub(crate) fn format_rfc3339_stamp(text: &str) -> (r: Option<String>)
    ensures
        match r {
            Some(s) => rfc3339_stamp(text@) == Some(s@),
            None => rfc3339_stamp(text@) is None,
        },
{
    match DateTime::parse_from_rfc3339(text) {
        Ok(t) => Some(t.format("%-d %b · %I:%M %p").to_string()),
        Err(_) => None,
    }
}

} // verus!
