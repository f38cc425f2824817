//! Calendar dates of request windows, read from `YYYY-MM-DD` query values.

use chrono::Datelike;
use vstd::prelude::*;

verus! {

/// A calendar date, as chrono reports one: the month counts from 1 to 12 and the
/// day of the month from 1 to 31.
#[derive(Debug, Clone, Copy, PartialEq, Eq, Structural)]
pub struct Date {
    pub year: i32,
    pub month: u32,
    pub day: u32,
}

/// The date `chrono::NaiveDate::parse_from_str` reads from `text` under `format`,
/// as (year, month, day), or `None` where chrono rejects the text.
pub uninterp spec fn chrono_parsed_date(text: Seq<char>, format: Seq<char>) -> Option<(int, int, int)>;

pub open spec fn date_triple(d: Date) -> (int, int, int) {
    (d.year as int, d.month as int, d.day as int)
}

pub open spec fn date_in_range(d: Date) -> bool {
    1 <= d.month <= 12 && 1 <= d.day <= 31
}

/// Calls `chrono::NaiveDate::parse_from_str(text, format)`. Trusted: the result is
/// the one named by `chrono_parsed_date`; a parsed date's month is in 1..=12 and its
/// day in 1..=31 (chrono's documented ranges of `month()` and `day()`).
#[verifier::external_body]
fn parse_with_format(text: &str, format: &str) -> (r: Option<Date>)
    ensures
        match r {
            Some(d) => chrono_parsed_date(text@, format@) == Some(date_triple(d)) && date_in_range(d),
            None => chrono_parsed_date(text@, format@) is None,
        },
{
    match chrono::NaiveDate::parse_from_str(text, format) {
        Ok(d) => Some(Date { year: d.year(), month: d.month(), day: d.day() }),
        Err(_) => None,
    }
}

/// Calls `chrono::Utc::now().date_naive()`. Trusted only for the documented ranges
/// of month and day; which date comes back depends on the clock.
#[verifier::external_body]
pub(crate) fn today_utc() -> (r: Date)
    ensures
        date_in_range(r),
{
    let d = chrono::Utc::now().date_naive();
    Date { year: d.year(), month: d.month(), day: d.day() }
}

/// The `YYYY-MM-DD` format that query dates are read in.
pub open spec fn iso_format() -> Seq<char> {
    seq!['%', 'Y', '-', '%', 'm', '-', '%', 'd']
}

/// 1970-01-01, the start of a window with no `from` value.
pub open spec fn epoch() -> Date {
    Date { year: 1970, month: 1, day: 1 }
}

/// The date a query value names, or `fallback` where there is no value or chrono
/// does not read it as a `YYYY-MM-DD` date.
pub open spec fn date_or(value: Option<Seq<char>>, fallback: Date) -> Date {
    match value {
        Some(v) => match chrono_parsed_date(v, iso_format()) {
            Some(t) => Date { year: t.0 as i32, month: t.1 as u32, day: t.2 as u32 },
            None => fallback,
        },
        None => fallback,
    }
}

pub fn epoch_date() -> (r: Date)
    ensures
        r == epoch(),
{
    Date { year: 1970, month: 1, day: 1 }
}

/// The date `value` names in `YYYY-MM-DD` form, or `fallback`.
pub fn parse_date_or(value: Option<&str>, fallback: Date) -> (r: Date)
    ensures
        r == date_or(
            match value {
                Some(s) => Some(s@),
                None => None,
            },
            fallback,
        ),
{
    match value {
        Some(v) => {
            proof {
                reveal_strlit("%Y-%m-%d");
                assert("%Y-%m-%d"@ =~= iso_format());
            }
            match parse_with_format(v, "%Y-%m-%d") {
                Some(d) => d,
                None => fallback,
            }
        },
        None => fallback,
    }
}

/// Whether chrono reads `value` as a `YYYY-MM-DD` date.
pub fn is_iso_date(value: &str) -> (r: bool)
    ensures
        r == chrono_parsed_date(value@, iso_format()) is Some,
{
    proof {
        reveal_strlit("%Y-%m-%d");
        assert("%Y-%m-%d"@ =~= iso_format());
    }
    parse_with_format(value, "%Y-%m-%d").is_some()
}

} // verus!
