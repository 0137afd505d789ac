//! Calendar dates, held as the day number that `chrono` gives a date
//! (`NaiveDate::num_days_from_ce`: January 1 of year 1 is day 1).
use vstd::prelude::*;

verus! {

/// Day number of `NaiveDate::MIN` (January 1, 262144 BCE).
pub const MIN_DAYS: i32 = -95746129i32;

/// Day number of `NaiveDate::MAX` (December 31, 262142 CE).
pub const MAX_DAYS: i32 = 95745399i32;

/// A date of the proleptic Gregorian calendar.
#[derive(Debug, Clone, Copy, PartialEq, Eq, Structural)]
pub struct Date {
    pub days_from_ce: i32,
}

/// The day number of `NaiveDate::from_ymd_opt(year, month, day)`, where that is `Some`.
pub uninterp spec fn naive_date_from_ymd(year: i32, month: u32, day: u32) -> Option<i32>;

/// The year of the date with this day number.
pub uninterp spec fn naive_date_year(days: i32) -> i32;

/// The day number of `NaiveDate::parse_from_str(text, "%F")`, where that is `Ok`.
pub uninterp spec fn naive_date_parse(text: Seq<char>) -> Option<i32>;

/// The text that `NaiveDate::format("%F")` writes for the date with this day number.
pub uninterp spec fn naive_date_format(days: i32) -> Seq<char>;

/// Calls `chrono::NaiveDate::from_ymd_opt`. Claimed: the day number is the named
/// result on the arguments, and lies in `chrono`'s documented range.
#[verifier::external_body]
fn chrono_from_ymd(year: i32, month: u32, day: u32) -> (r: Option<i32>)
    ensures
        r == naive_date_from_ymd(year, month, day),
        r matches Some(d) ==> MIN_DAYS <= d <= MAX_DAYS,
{
    match chrono::NaiveDate::from_ymd_opt(year, month, day) {
        Some(d) => Some(chrono::Datelike::num_days_from_ce(&d)),
        None => None,
    }
}

/// Calls `chrono::Datelike::year`. Claimed: the result is the named result on
/// the day number.
#[verifier::external_body]
fn chrono_year(days: i32) -> (r: i32)
    requires
        MIN_DAYS <= days <= MAX_DAYS,
    ensures
        r == naive_date_year(days),
{
    chrono::Datelike::year(&chrono::NaiveDate::from_num_days_from_ce_opt(days).unwrap())
}

/// Calls `chrono::NaiveDate::parse_from_str` with the format `%F`. Claimed: the
/// day number is the named result on the text, and lies in the documented range.
#[verifier::external_body]
fn chrono_parse(text: &str) -> (r: Option<i32>)
    ensures
        r == naive_date_parse(text@),
        r matches Some(d) ==> MIN_DAYS <= d <= MAX_DAYS,
{
    match chrono::NaiveDate::parse_from_str(text, "%F") {
        Ok(d) => Some(chrono::Datelike::num_days_from_ce(&d)),
        Err(_) => None,
    }
}

/// Calls `chrono::NaiveDate::format` with `%F` and renders it. Claimed: the
/// text is the named result on the day number.
#[verifier::external_body]
fn chrono_format(days: i32) -> (r: String)
    requires
        MIN_DAYS <= days <= MAX_DAYS,
    ensures
        r@ == naive_date_format(days),
{
    chrono::NaiveDate::from_num_days_from_ce_opt(days).unwrap().format("%F").to_string()
}

impl Date {
    /// The date lies in the range that `chrono` can represent.
    pub open spec fn wf(self) -> bool {
        MIN_DAYS <= self.days_from_ce <= MAX_DAYS
    }

    /// The date with the given year, month (1-12) and day (1-31), if it exists.
    pub fn from_ymd_opt(year: i32, month: u32, day: u32) -> (r: Option<Date>)
        ensures
            r == (match naive_date_from_ymd(year, month, day) {
                Some(d) => Some(Date { days_from_ce: d }),
                None => None,
            }),
            r matches Some(d) ==> d.wf(),
    {
        match chrono_from_ymd(year, month, day) {
            Some(d) => Some(Date { days_from_ce: d }),
            None => None,
        }
    }

    /// The date with this day number, if it lies in range.
    pub fn from_days(days_from_ce: i32) -> (r: Option<Date>)
        ensures
            r is Some <==> MIN_DAYS <= days_from_ce <= MAX_DAYS,
            r matches Some(d) ==> d.days_from_ce == days_from_ce,
    {
        if MIN_DAYS <= days_from_ce && days_from_ce <= MAX_DAYS {
            Some(Date { days_from_ce })
        } else {
            None
        }
    }

    /// The year of the date.
    pub fn year(&self) -> (r: i32)
        requires
            self.wf(),
        ensures
            r == naive_date_year(self.days_from_ce),
    {
        chrono_year(self.days_from_ce)
    }

    /// Parses a date written `YYYY-MM-DD`.
    pub fn parse(text: &str) -> (r: Option<Date>)
        ensures
            r == (match naive_date_parse(text@) {
                Some(d) => Some(Date { days_from_ce: d }),
                None => None,
            }),
            r matches Some(d) ==> d.wf(),
    {
        match chrono_parse(text) {
            Some(d) => Some(Date { days_from_ce: d }),
            None => None,
        }
    }

    /// The date written `YYYY-MM-DD`.
    pub fn to_string(&self) -> (r: String)
        requires
            self.wf(),
        ensures
            r@ == naive_date_format(self.days_from_ce),
    {
        chrono_format(self.days_from_ce)
    }

    /// The date `days` days earlier.
    pub fn minus_days(self, days: i32) -> (r: Date)
        requires
            self.wf(),
            0 <= days,
            self.days_from_ce - days >= MIN_DAYS,
        ensures
            r.days_from_ce == self.days_from_ce - days,
            r.wf(),
    {
        Date { days_from_ce: self.days_from_ce - days }
    }
}

} // verus!
