//! Which log files an admin's query selects: files are named by the day
//! they cover, and a query asks for the days between two dates.
use vstd::prelude::*;

use crate::error::ShaideError;
use crate::text::owned;

verus! {

/// The calendar day `chrono::NaiveDate::parse_from_str` reads from `s`
/// with the format "%Y-%m-%d", as year, month and day.
pub uninterp spec fn ymd_of(s: Seq<char>) -> Option<(i32, u32, u32)>;

/// Reads a day with `chrono::NaiveDate::parse_from_str(s, "%Y-%m-%d")`;
/// what is read is a function of the text.
#[verifier::external_body]
fn parse_ymd(s: &str) -> (r: Option<(i32, u32, u32)>)
    ensures
        r == ymd_of(s@),
{
    chrono::NaiveDate::parse_from_str(s, "%Y-%m-%d")
        .ok()
        .map(|d| (chrono::Datelike::year(&d), chrono::Datelike::month(&d), chrono::Datelike::day(&d)))
}

/// Day `a` is not later than day `b`.
pub open spec fn day_le(a: (i32, u32, u32), b: (i32, u32, u32)) -> bool {
    a.0 < b.0 || (a.0 == b.0 && (a.1 < b.1 || (a.1 == b.1 && a.2 <= b.2)))
}

/// Compares two days.
fn day_le_exec(a: (i32, u32, u32), b: (i32, u32, u32)) -> (r: bool)
    ensures
        r == day_le(a, b),
{
    a.0 < b.0 || (a.0 == b.0 && (a.1 < b.1 || (a.1 == b.1 && a.2 <= b.2)))
}

/// The days a log query covers, from its start and end dates; a date that
/// does not read as a day is refused.
pub fn log_query_range(start_date: &str, end_date: &str) -> (r: Result<((i32, u32, u32), (i32, u32, u32)), ShaideError>)
    ensures
        match ymd_of(start_date@) {
            None => r matches Err(ShaideError::BadRequest(m)) && m@ == "Could not parse start_date"@,
            Some(s) => match ymd_of(end_date@) {
                None => r matches Err(ShaideError::BadRequest(m)) && m@ == "Could not parse end_date"@,
                Some(e) => r == Ok::<((i32, u32, u32), (i32, u32, u32)), ShaideError>((s, e)),
            },
        },
{
    let start = match parse_ymd(start_date) {
        Some(d) => d,
        None => return Err(ShaideError::BadRequest(owned("Could not parse start_date"))),
    };
    let end = match parse_ymd(end_date) {
        Some(d) => d,
        None => return Err(ShaideError::BadRequest(owned("Could not parse end_date"))),
    };
    Ok((start, end))
}

/// Whether a log file whose name begins with `name_prefix` (its first ten
/// bytes) belongs to the days from `start` to `end`: the prefix must read
/// as a day in that range.
pub fn log_file_selected(name_prefix: &str, start: (i32, u32, u32), end: (i32, u32, u32)) -> (r: bool)
    ensures
        r == (ymd_of(name_prefix@) matches Some(d) && day_le(start, d) && day_le(d, end)),
{
    match parse_ymd(name_prefix) {
        Some(d) => day_le_exec(start, d) && day_le_exec(d, end),
        None => false,
    }
}

} // verus!
