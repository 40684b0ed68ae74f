use vstd::prelude::*;

verus! {

/// Seconds in one day.
pub const SECONDS_PER_DAY: u64 = 86400;

/// A day of the proleptic Gregorian calendar.
#[derive(Clone, Copy, Debug, PartialEq, Eq, Structural)]
pub struct CivilDate {
    pub year: u64,
    pub month: u64,
    pub day: u64,
}

pub open spec fn is_leap(y: int) -> bool {
    (y % 4 == 0 && y % 100 != 0) || y % 400 == 0
}

pub open spec fn year_len(y: int) -> int {
    if is_leap(y) {
        366
    } else {
        365
    }
}

pub open spec fn month_len(y: int, m: int) -> int {
    if m == 2 {
        if is_leap(y) {
            29
        } else {
            28
        }
    } else if m == 4 || m == 6 || m == 9 || m == 11 {
        30
    } else {
        31
    }
}

/// Days from 1970-01-01 to the first day of year `y`.
pub open spec fn days_before_year(y: int) -> int
    decreases y - 1970,
{
    if y <= 1970 {
        0
    } else {
        days_before_year(y - 1) + year_len(y - 1)
    }
}

/// Days from the first of January of year `y` to the first day of month `m`.
pub open spec fn days_before_month(y: int, m: int) -> int
    decreases m,
{
    if m <= 1 {
        0
    } else {
        days_before_month(y, m - 1) + month_len(y, m - 1)
    }
}

impl CivilDate {
    /// The date names a day that exists, on or after 1970-01-01.
    pub open spec fn valid(self) -> bool {
        &&& 1970 <= self.year
        &&& 1 <= self.month <= 12
        &&& 1 <= self.day <= month_len(self.year as int, self.month as int)
    }

    /// Days from 1970-01-01 to this date.
    pub open spec fn day_number(self) -> int {
        days_before_year(self.year as int) + days_before_month(self.year as int, self.month as int)
            + self.day - 1
    }
}

proof fn lemma_months_fill_year(y: int)
    ensures
        days_before_month(y, 13) == year_len(y),
{
    reveal_with_fuel(days_before_month, 13);
}

fn leap(y: u64) -> (r: bool)
    ensures
        r == is_leap(y as int),
{
    (y % 4 == 0 && y % 100 != 0) || y % 400 == 0
}

fn days_in_year(y: u64) -> (r: u64)
    ensures
        r == year_len(y as int),
{
    if leap(y) {
        366
    } else {
        365
    }
}

fn days_in_month(y: u64, m: u64) -> (r: u64)
    ensures
        r == month_len(y as int, m as int),
{
    if m == 2 {
        if leap(y) {
            29
        } else {
            28
        }
    } else if m == 4 || m == 6 || m == 9 || m == 11 {
        30
    } else {
        31
    }
}

/// The calendar day (UTC) on which a moment given in seconds since 1970-01-01 falls.
pub fn date_of_timestamp(secs: u64) -> (r: CivilDate)
    ensures
        r.valid(),
        r.day_number() == secs as int / SECONDS_PER_DAY as int,
{
    let days = secs / SECONDS_PER_DAY;
    let mut year: u64 = 1970;
    let mut rem: u64 = days;
    while rem >= days_in_year(year)
        invariant
            1970 <= year,
            year - 1970 <= days - rem,
            rem <= days,
            days <= u64::MAX / 2,
            days_before_year(year as int) + rem == days,
        decreases rem,
    {
        rem = rem - days_in_year(year);
        year = year + 1;
    }
    proof {
        lemma_months_fill_year(year as int);
    }
    let mut month: u64 = 1;
    let ghost in_year = rem;
    while rem >= days_in_month(year, month)
        invariant
            1 <= month <= 12,
            in_year < year_len(year as int),
            days_before_month(year as int, month as int) + rem == in_year,
            days_before_month(year as int, 13) == year_len(year as int),
        decreases rem,
    {
        if month == 12 {
            assert(days_before_month(year as int, 13) == days_before_month(year as int, 12)
                + month_len(year as int, 12));
        }
        rem = rem - days_in_month(year, month);
        month = month + 1;
    }
    CivilDate { year, month, day: rem + 1 }
}

} // verus!
