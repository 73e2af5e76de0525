//! Calendar dates, carried as the day count that `chrono` gives a `NaiveDate`
//! (January 1 of year 1 is day 1). Parsing and printing are `chrono`'s.

use vstd::prelude::*;
use chrono::NaiveDate;

verus! {

/// Day count of `NaiveDate::MIN` (January 1, 262144 BCE).
pub const MIN_DAYS: i32 = -95746129i32;

/// Day count of `NaiveDate::MAX` (December 31, 262142 CE).
pub const MAX_DAYS: i32 = 95745399i32;

/// Every `NaiveDate` has a day count in this range, and every day count in it
/// is a `NaiveDate`.
pub open spec fn days_in_range(d: int) -> bool {
    MIN_DAYS <= d <= MAX_DAYS
}

/// What `NaiveDate::parse_from_str(s, "%Y-%m-%d")` gives, as a day count.
pub uninterp spec fn ymd_parse(s: Seq<char>) -> Option<int>;

/// What `NaiveDate`'s `Display` writes for the date with this day count.
pub uninterp spec fn date_display(days: int) -> Seq<char>;

/// What `NaiveDate::format("%Y-%m-%d").to_string()` writes for this day count.
pub uninterp spec fn date_format_ymd(days: int) -> Seq<char>;

/// A calendar date in the proleptic Gregorian calendar.
#[derive(Clone, Copy, Debug, PartialEq, Eq)]
pub struct Date {
    days: i32,
}

impl Date {
    #[verifier::type_invariant]
    closed spec fn inv(self) -> bool {
        days_in_range(self.days as int)
    }

    /// The day count (January 1 of year 1 is day 1).
    pub closed spec fn spec_days(self) -> int {
        self.days as int
    }

    /// The date with this day count, if it lies in `chrono`'s range.
    pub fn from_days_from_ce(days: i32) -> (r: Option<Date>)
        ensures
            r is Some <==> days_in_range(days as int),
            r matches Some(d) ==> d.spec_days() == days,
    {
        if MIN_DAYS <= days && days <= MAX_DAYS {
            Some(Date { days })
        } else {
            None
        }
    }

    /// The day count (January 1 of year 1 is day 1).
    pub fn days_from_ce(&self) -> (r: i32)
        ensures
            r as int == self.spec_days(),
            days_in_range(r as int),
    {
        proof {
            use_type_invariant(self);
        }
        self.days
    }

    /// The date `n` days earlier, as `date - Duration::days(n)` gives it.
    pub fn minus_days(&self, n: i64) -> (r: Date)
        requires
            days_in_range(self.spec_days() - n),
        ensures
            r.spec_days() == self.spec_days() - n,
    {
        let d = (self.days as i64 - n) as i32;
        Date { days: d }
    }

    /// The date `n` days later, as `date + Duration::days(n)` gives it.
    pub fn plus_days(&self, n: i64) -> (r: Date)
        requires
            days_in_range(self.spec_days() + n),
        ensures
            r.spec_days() == self.spec_days() + n,
    {
        let d = (self.days as i64 + n) as i32;
        Date { days: d }
    }

    /// Whole days from `earlier` to `self`, as `(self - earlier).num_days()` gives them.
    pub fn days_since(&self, earlier: &Date) -> (r: i64)
        ensures
            r as int == self.spec_days() - earlier.spec_days(),
    {
        proof {
            use_type_invariant(self);
            use_type_invariant(earlier);
        }
        self.days as i64 - earlier.days as i64
    }

    /// Parses `YYYY-MM-DD` with `chrono`'s `%Y-%m-%d`.
    pub fn parse_ymd(s: &str) -> (r: Option<Date>)
        ensures
            r matches Some(d) ==> ymd_parse(s@) == Some(d.spec_days()),
            r is None ==> ymd_parse(s@) is None,
    {
        match raw_parse_ymd(s) {
            Some(days) => Some(Date { days }),
            None => None,
        }
    }

    /// The date as `NaiveDate`'s `Display` writes it.
    pub fn to_text(&self) -> (r: String)
        ensures
            r@ == date_display(self.spec_days()),
    {
        proof {
            use_type_invariant(self);
        }
        raw_display(self.days)
    }

    /// The date written with `%Y-%m-%d`.
    pub fn format_ymd(&self) -> (r: String)
        ensures
            r@ == date_format_ymd(self.spec_days()),
    {
        proof {
            use_type_invariant(self);
        }
        raw_format_ymd(self.days)
    }
}

/// `NaiveDate::parse_from_str(s, "%Y-%m-%d")`, taken to its day count; a
/// `NaiveDate` always has a day count in range.
#[verifier::external_body]
fn raw_parse_ymd(s: &str) -> (r: Option<i32>)
    ensures
        r matches Some(d) ==> ymd_parse(s@) == Some(d as int) && days_in_range(d as int),
        r is None ==> ymd_parse(s@) is None,
{
    match NaiveDate::parse_from_str(s, "%Y-%m-%d") {
        Ok(d) => Some(chrono::Datelike::num_days_from_ce(&d)),
        Err(_) => None,
    }
}

/// `NaiveDate`'s `Display` of the date with this day count.
#[verifier::external_body]
fn raw_display(days: i32) -> (r: String)
    requires
        days_in_range(days as int),
    ensures
        r@ == date_display(days as int),
{
    NaiveDate::from_num_days_from_ce_opt(days).unwrap().to_string()
}

/// `NaiveDate::format("%Y-%m-%d")` of the date with this day count.
#[verifier::external_body]
fn raw_format_ymd(days: i32) -> (r: String)
    requires
        days_in_range(days as int),
    ensures
        r@ == date_format_ymd(days as int),
{
    NaiveDate::from_num_days_from_ce_opt(days).unwrap().format("%Y-%m-%d").to_string()
}

} // verus!
