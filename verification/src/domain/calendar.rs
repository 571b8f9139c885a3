//! Calendar dates written "YYYY-MM-DD", through chrono's `NaiveDate`.
//!
//! A date is handled as its day number in the proleptic Gregorian calendar
//! (January 1 of year 1 is day 1), the count `NaiveDate::num_days_from_ce`
//! gives; adding days to a date is adding to its day number.

use chrono::Datelike;
use vstd::prelude::*;

verus! {

/// First day number chrono can represent (`NaiveDate::MIN`, January 1 of
/// year -262143).
pub open spec fn first_calendar_day() -> int {
    -95_746_129
}

/// Last day number chrono can represent (`NaiveDate::MAX`, December 31 of
/// year 262142).
pub open spec fn last_calendar_day() -> int {
    95_745_399
}

/// Day number of the date that `NaiveDate::parse_from_str(text, "%Y-%m-%d")`
/// reads from `text`, or `None` when it reads none.
pub uninterp spec fn parsed_iso_day(text: Seq<char>) -> Option<int>;

/// Text that `NaiveDate::format("%Y-%m-%d")` writes for the date with the
/// given day number.
pub uninterp spec fn iso_date_text(day: int) -> Seq<char>;

/// Reads a "YYYY-MM-DD" date with `NaiveDate::parse_from_str(text, "%Y-%m-%d")`
/// and gives its day number (`num_days_from_ce`). Claimed: the result is the
/// named one, and a date read is a date chrono represents, so its day number
/// lies between the first and the last calendar day.
#[verifier::external_body]
pub(crate) fn parse_iso_date(text: &str) -> (r: Option<i32>)
    ensures
        match r {
            Some(d) => parsed_iso_day(text@) == Some(d as int),
            None => parsed_iso_day(text@) is None,
        },
        r matches Some(d) ==> first_calendar_day() <= d <= last_calendar_day(),
{
    chrono::NaiveDate::parse_from_str(text, "%Y-%m-%d").ok().map(|d| d.num_days_from_ce())
}

/// Writes the date with the given day number as "YYYY-MM-DD"
/// (`NaiveDate::from_num_days_from_ce_opt`, then `format("%Y-%m-%d")`).
/// Claimed: there is a date exactly for the day numbers between the first
/// and the last calendar day (chrono's `NaiveDate::MIN` and `MAX`), and its
/// text is the named one.
#[verifier::external_body]
pub(crate) fn format_iso_date(day: i32) -> (r: Option<String>)
    ensures
        r is Some <==> first_calendar_day() <= day <= last_calendar_day(),
        r matches Some(s) ==> s@ == iso_date_text(day as int),
{
    chrono::NaiveDate::from_num_days_from_ce_opt(day).map(|d| d.format("%Y-%m-%d").to_string())
}

} // verus!
