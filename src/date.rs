//! Calendar dates as day numbers. A date is held as the count of days in the
//! proleptic Gregorian calendar with January 1 of year 1 as day 1, so that a
//! later date is a larger number.
use vstd::prelude::*;

verus! {

/// The pattern in which entries write their dates: `YYYY-MM-DD`.
pub const DATE_PATTERN: &'static str = "%Y-%m-%d";

/// The name for what chrono makes of `text` read with `pattern`: the date's
/// day number, or nothing where the text is no date in that pattern.
pub uninterp spec fn day_number_of(text: Seq<char>, pattern: Seq<char>) -> Option<int>;

/// Relies on `chrono::NaiveDate::parse_from_str` to read the date, and on
/// `chrono::Datelike::num_days_from_ce` to turn it into its day number.
#[verifier::external_body]
fn parse_day_number(text: &str, pattern: &str) -> (r: Option<i32>)
    ensures
        match r {
            Some(d) => day_number_of(text@, pattern@) == Some(d as int),
            None => day_number_of(text@, pattern@) is None,
        },
{
    match chrono::NaiveDate::parse_from_str(text, pattern) {
        Ok(date) => Some(chrono::Datelike::num_days_from_ce(&date)),
        Err(_) => None,
    }
}

/// The day number of an optional date text; an absent or malformed date
/// gives none.
pub open spec fn day_of(date: Option<Seq<char>>) -> Option<int> {
    match date {
        Some(t) => day_number_of(t, DATE_PATTERN@),
        None => None,
    }
}

/// Reads an optional `YYYY-MM-DD` date as its day number.
pub fn date_day(date: &Option<String>) -> (r: Option<i32>)
    ensures
        match r {
            Some(d) => day_of(crate::entry::opt_text(*date)) == Some(d as int),
            None => day_of(crate::entry::opt_text(*date)) is None,
        },
{
    match date {
        Some(t) => parse_day_number(t.as_str(), DATE_PATTERN),
        None => None,
    }
}

} // verus!
