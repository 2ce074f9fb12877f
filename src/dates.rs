use chrono::Datelike;
use vstd::prelude::*;

verus! {

/// A calendar date of the proleptic Gregorian calendar.
#[derive(Clone, Copy, Debug, PartialEq, Eq, Structural)]
pub struct Date {
    pub year: i32,
    pub month: u32,
    pub day: u32,
}

pub open spec fn is_leap_year(year: int) -> bool {
    (year % 4 == 0 && year % 100 != 0) || year % 400 == 0
}

pub open spec fn days_in_month(year: int, month: int) -> int {
    if month == 2 {
        if is_leap_year(year) { 29 } else { 28 }
    } else if month == 4 || month == 6 || month == 9 || month == 11 {
        30
    } else {
        31
    }
}

impl Date {
    /// The date exists in the calendar.
    pub open spec fn valid(self) -> bool {
        &&& 1 <= self.month <= 12
        &&& 1 <= self.day <= days_in_month(self.year as int, self.month as int)
    }

    /// `self` comes strictly before `other` within a year (by month, then day).
    pub open spec fn earlier_in_year(self, other: Date) -> bool {
        self.month < other.month || (self.month == other.month && self.day < other.day)
    }

    /// `self` is the same day as `other` or an earlier one.
    pub open spec fn not_after(self, other: Date) -> bool {
        self.year < other.year || (self.year == other.year && !other.earlier_in_year(self))
    }
}

/// Whole calendar years from `birth` to `today`: the difference of the years,
/// less one while the anniversary has not yet come this year, and 0 where
/// that would be negative.
pub open spec fn age_on(birth: Date, today: Date) -> int {
    let years = today.year - birth.year - (if today.earlier_in_year(birth) { 1int } else { 0int });
    if years >= 0 { years } else { 0 }
}

/// Age in whole years of someone born on `birth`, on the day `today`.
pub fn age_at(birth: &Date, today: &Date) -> (r: u32)
    ensures
        r as int == age_on(*birth, *today),
{
    let earlier: bool = today.month < birth.month || (today.month == birth.month && today.day < birth.day);
    let years: i64 = today.year as i64 - birth.year as i64 - if earlier { 1i64 } else { 0i64 };
    if years >= 0 {
        years as u32
    } else {
        0
    }
}

/// Whether `date` is `today` or lies before it.
pub fn date_not_after(date: &Date, today: &Date) -> (r: bool)
    ensures
        r == date.not_after(*today),
{
    date.year < today.year || (date.year == today.year && !(today.month < date.month
        || (today.month == date.month && today.day < date.day)))
}

/// Relies on chrono's `Utc::now` and `DateTime::date_naive`: the current
/// date in UTC, which is always a date of the calendar no later than
/// `NaiveDate::MAX` (the last day of year 262142).
#[verifier::external_body]
pub(crate) fn today() -> (r: Date)
    ensures
        r.valid(),
        r.year <= 262142,
{
    let d = chrono::Utc::now().date_naive();
    Date { year: d.year(), month: d.month(), day: d.day() }
}

/// Age in whole years of someone born on `birth`, as of the current date.
pub fn calculate_age(birth: &Date) -> (r: u32)
    ensures
        exists|t: Date| t.valid() && r as int == age_on(*birth, t),
{
    let t = today();
    age_at(birth, &t)
}

/// Whether `date` is today or lies in the past.
pub fn has_date_passed(date: &Date) -> (r: bool)
    ensures
        exists|t: Date| t.valid() && r == date.not_after(t),
{
    let t = today();
    date_not_after(date, &t)
}

/// The same day of the month one year later; the 29th of February falls
/// on the 28th in a year that is not a leap year.
pub open spec fn one_year_after(d: Date) -> Date {
    if d.month == 2 && d.day == 29 && !is_leap_year(d.year + 1) {
        Date { year: (d.year + 1) as i32, month: 2, day: 28 }
    } else {
        Date { year: (d.year + 1) as i32, month: d.month, day: d.day }
    }
}

/// The date one year after `d`.
pub fn add_one_year(d: &Date) -> (r: Date)
    requires
        d.year < i32::MAX,
    ensures
        r == one_year_after(*d),
        d.valid() ==> r.valid(),
{
    let y: i32 = d.year + 1;
    let leap: bool = (y % 4 == 0 && y % 100 != 0) || y % 400 == 0;
    if d.month == 2 && d.day == 29 && !leap {
        Date { year: y, month: 2, day: 28 }
    } else {
        Date { year: y, month: d.month, day: d.day }
    }
}

} // verus!
