//! Gregorian calendar dates.
//!
//! Dates are validated on construction: years start at 1582, months run
//! 1 to 12 and days are bounded by the month length, with the leap-year
//! rule that applies from 1624 on. A date can also be built from a year
//! and a day-of-year number.

use vstd::prelude::*;

verus! {

pub type Year = u16;

pub type Month = u8;

pub type DayOfMonth = u8;

pub type DayOfYear = u16;

/// First year a date may have.
pub const FIRST_YEAR: u16 = 1582;

/// The leap-year rule: every fourth year from 1624 on, except
/// centuries that are not multiples of 400.
pub open spec fn spec_is_leap_year(year: int) -> bool {
    &&& 1624 <= year
    &&& year % 4 == 0
    &&& (year % 400 == 0 || year % 100 != 0)
}

/// Days of a month; zero for a month outside 1 to 12.
pub open spec fn spec_month_days(leap: bool, month: int) -> int {
    if month == 1 || month == 3 || month == 5 || month == 7 || month == 8 || month == 10 || month
        == 12 {
        31
    } else if month == 4 || month == 6 || month == 9 || month == 11 {
        30
    } else if month == 2 {
        if leap {
            29
        } else {
            28
        }
    } else {
        0
    }
}

/// Days of the year that precede a month's first day.
pub open spec fn spec_days_before(leap: bool, month: int) -> int {
    let extra: int = if leap {
        1
    } else {
        0
    };
    if month == 1 {
        0
    } else if month == 2 {
        31
    } else if month == 3 {
        59 + extra
    } else if month == 4 {
        90 + extra
    } else if month == 5 {
        120 + extra
    } else if month == 6 {
        151 + extra
    } else if month == 7 {
        181 + extra
    } else if month == 8 {
        212 + extra
    } else if month == 9 {
        243 + extra
    } else if month == 10 {
        273 + extra
    } else if month == 11 {
        304 + extra
    } else if month == 12 {
        334 + extra
    } else {
        0
    }
}

/// Ordinal of a day within its year, January the first being 1.
pub open spec fn spec_day_of_year(leap: bool, month: int, day: int) -> int {
    spec_days_before(leap, month) + day
}

/// A valid date: year from 1582, month 1 to 12, day within the month.
pub open spec fn spec_wf_date(year: int, month: int, day: int) -> bool {
    &&& FIRST_YEAR <= year
    &&& 1 <= month <= 12
    &&& 1 <= day <= spec_month_days(spec_is_leap_year(year), month)
}

/// The day numbers of the firsts of two consecutive months differ by
/// exactly the length of the earlier month.
pub proof fn lemma_month_span(leap: bool, month: int)
    requires
        1 <= month <= 11,
    ensures
        spec_day_of_year(leap, month + 1, 1) - spec_day_of_year(leap, month, 1)
            == spec_month_days(leap, month),
{
}

/// A validated Gregorian date. [`GregorianDateBuilder::build`] is the
/// validating constructor; a value put together by hand may not be a
/// real date.
#[derive(Debug, Clone, Copy)]
pub struct GregorianDate {
    pub year: Year,
    pub month: Month,
    pub day_of_month: DayOfMonth,
}

/// Why a date was rejected.
#[derive(Debug, PartialEq, Eq, Structural)]
pub enum Error {
    InvalidYear,
    InvalidMonth,
    InvalidDayOfMonth,
    InvalidDayOfYear,
}

impl GregorianDate {
    /// This date is a real calendar date.
    pub open spec fn wf(&self) -> bool {
        spec_wf_date(self.year as int, self.month as int, self.day_of_month as int)
    }

    pub fn year(&self) -> (r: Year)
        ensures
            r == self.year,
    {
        self.year
    }

    pub fn month(&self) -> (r: Month)
        ensures
            r == self.month,
    {
        self.month
    }

    pub fn day_of_month(&self) -> (r: DayOfMonth)
        ensures
            r == self.day_of_month,
    {
        self.day_of_month
    }

    /// Ordinal of this date's day within its year; zero for a month
    /// outside 1 to 12.
    pub fn day_of_year(&self) -> (r: DayOfYear)
        ensures
            1 <= self.month <= 12 ==> r == spec_day_of_year(
                spec_is_leap_year(self.year as int),
                self.month as int,
                self.day_of_month as int,
            ),
            !(1 <= self.month <= 12) ==> r == 0,
    {
        let extra: u16 = if self.is_leap_year() {
            1
        } else {
            0
        };
        match self.month {
            1 => self.day_of_month as u16,
            2 => 31 + self.day_of_month as u16,
            3 => 59 + self.day_of_month as u16 + extra,
            4 => 90 + self.day_of_month as u16 + extra,
            5 => 120 + self.day_of_month as u16 + extra,
            6 => 151 + self.day_of_month as u16 + extra,
            7 => 181 + self.day_of_month as u16 + extra,
            8 => 212 + self.day_of_month as u16 + extra,
            9 => 243 + self.day_of_month as u16 + extra,
            10 => 273 + self.day_of_month as u16 + extra,
            11 => 304 + self.day_of_month as u16 + extra,
            12 => 334 + self.day_of_month as u16 + extra,
            _ => 0,
        }
    }

    /// Whether this date's year is a leap year.
    pub fn is_leap_year(&self) -> (r: bool)
        ensures
            r == spec_is_leap_year(self.year as int),
    {
        (1624 <= self.year) && (0 == (self.year % 4)) && (0 == (self.year % 400) || 0 != (
        self.year % 100))
    }

    /// Days of this date's month.
    pub fn month_days(&self) -> (r: DayOfMonth)
        ensures
            r == spec_month_days(spec_is_leap_year(self.year as int), self.month as int),
    {
        match self.month {
            1 | 3 | 5 | 7 | 8 | 10 | 12 => 31,
            4 | 6 | 9 | 11 => 30,
            2 => {
                if self.is_leap_year() {
                    29
                } else {
                    28
                }
            }
            _ => 0,
        }
    }

    /// Days of this date's year.
    pub fn year_days(&self) -> (r: DayOfYear)
        ensures
            r == if spec_is_leap_year(self.year as int) {
                366int
            } else {
                365int
            },
    {
        if self.is_leap_year() {
            366
        } else {
            365
        }
    }

    /// The same month with the day set to its first.
    pub fn first_of_month(&self) -> (r: GregorianDate)
        ensures
            r.year == self.year,
            r.month == self.month,
            r.day_of_month == 1,
    {
        GregorianDate { year: self.year, month: self.month, day_of_month: 1 }
    }

    /// The same month with the day set to its last.
    pub fn last_of_month(&self) -> (r: GregorianDate)
        ensures
            r.year == self.year,
            r.month == self.month,
            r.day_of_month == spec_month_days(spec_is_leap_year(self.year as int), self.month as int),
    {
        GregorianDate { year: self.year, month: self.month, day_of_month: self.month_days() }
    }
}

impl PartialEq for GregorianDate {
    /// Dates compare field by field.
    fn eq(&self, other: &Self) -> (r: bool) {
        self.year == other.year && self.month == other.month && self.day_of_month
            == other.day_of_month
    }
}

impl vstd::std_specs::cmp::PartialEqSpecImpl for GregorianDate {
    open spec fn obeys_eq_spec() -> bool {
        true
    }

    open spec fn eq_spec(&self, other: &Self) -> bool {
        self.year == other.year && self.month == other.month && self.day_of_month
            == other.day_of_month
    }
}

/// Lexicographic order on (year, month, day).
pub open spec fn spec_date_cmp(a: GregorianDate, b: GregorianDate) -> core::cmp::Ordering {
    if a.year != b.year {
        if a.year < b.year {
            core::cmp::Ordering::Less
        } else {
            core::cmp::Ordering::Greater
        }
    } else if a.month != b.month {
        if a.month < b.month {
            core::cmp::Ordering::Less
        } else {
            core::cmp::Ordering::Greater
        }
    } else if a.day_of_month != b.day_of_month {
        if a.day_of_month < b.day_of_month {
            core::cmp::Ordering::Less
        } else {
            core::cmp::Ordering::Greater
        }
    } else {
        core::cmp::Ordering::Equal
    }
}

impl PartialOrd for GregorianDate {
    /// Dates order lexicographically by year, month and day.
    fn partial_cmp(&self, other: &Self) -> (r: Option<core::cmp::Ordering>) {
        if self.year != other.year {
            if self.year < other.year {
                Some(core::cmp::Ordering::Less)
            } else {
                Some(core::cmp::Ordering::Greater)
            }
        } else if self.month != other.month {
            if self.month < other.month {
                Some(core::cmp::Ordering::Less)
            } else {
                Some(core::cmp::Ordering::Greater)
            }
        } else if self.day_of_month != other.day_of_month {
            if self.day_of_month < other.day_of_month {
                Some(core::cmp::Ordering::Less)
            } else {
                Some(core::cmp::Ordering::Greater)
            }
        } else {
            Some(core::cmp::Ordering::Equal)
        }
    }
}

impl vstd::std_specs::cmp::PartialOrdSpecImpl for GregorianDate {
    open spec fn obeys_partial_cmp_spec() -> bool {
        true
    }

    open spec fn partial_cmp_spec(&self, other: &Self) -> Option<core::cmp::Ordering> {
        Some(spec_date_cmp(*self, *other))
    }
}

/// Builds a [`GregorianDate`] from a year and either a month and day or
/// a day-of-year ordinal, validating on [`GregorianDateBuilder::build`].
#[derive(Debug)]
pub struct GregorianDateBuilder {
    pub year: Year,
    pub month: Month,
    pub day_of_month: DayOfMonth,
    pub day_of_year: Option<DayOfYear>,
}

impl GregorianDateBuilder {
    /// Starts from the first valid date, 1582-01-01.
    pub fn new() -> (r: GregorianDateBuilder)
        ensures
            r.year == FIRST_YEAR,
            r.month == 1,
            r.day_of_month == 1,
            r.day_of_year is None,
    {
        GregorianDateBuilder { year: FIRST_YEAR, month: 1, day_of_month: 1, day_of_year: None }
    }

    pub fn year(self, year: Year) -> (r: GregorianDateBuilder)
        ensures
            r == (GregorianDateBuilder { year, ..self }),
    {
        GregorianDateBuilder { year, ..self }
    }

    pub fn month(self, month: Month) -> (r: GregorianDateBuilder)
        ensures
            r == (GregorianDateBuilder { month, ..self }),
    {
        GregorianDateBuilder { month, ..self }
    }

    pub fn day_of_month(self, day_of_month: DayOfMonth) -> (r: GregorianDateBuilder)
        ensures
            r == (GregorianDateBuilder { day_of_month, ..self }),
    {
        GregorianDateBuilder { day_of_month, ..self }
    }

    /// Selects a month and a day at once, discarding any day-of-year.
    pub fn month_and_day(self, month: Month, day: DayOfMonth) -> (r: GregorianDateBuilder)
        ensures
            r == (GregorianDateBuilder { month, day_of_month: day, day_of_year: None, ..self }),
    {
        GregorianDateBuilder { month, day_of_month: day, day_of_year: None, ..self }
    }

    /// Selects a day by its ordinal within the year, discarding any
    /// month and day.
    pub fn day_of_year(self, day_of_year: DayOfYear) -> (r: GregorianDateBuilder)
        ensures
            r == (GregorianDateBuilder { day_of_year: Some(day_of_year), ..self }),
    {
        GregorianDateBuilder { day_of_year: Some(day_of_year), ..self }
    }

    /// Validates the chosen fields and yields the date. With a
    /// day-of-year, the resulting date is the unique valid date of that
    /// year whose ordinal matches.
    pub fn build(&self) -> (res: Result<GregorianDate, Error>)
        ensures
            ({
                let leap = spec_is_leap_year(self.year as int);
                match self.day_of_year {
                    None => {
                        if self.year < FIRST_YEAR {
                            res == Err::<GregorianDate, Error>(Error::InvalidYear)
                        } else if !(1 <= self.month <= 12) {
                            res == Err::<GregorianDate, Error>(Error::InvalidMonth)
                        } else if !(1 <= self.day_of_month <= spec_month_days(
                            leap,
                            self.month as int,
                        )) {
                            res == Err::<GregorianDate, Error>(Error::InvalidDayOfMonth)
                        } else {
                            &&& res matches Ok(d)
                            &&& d.year == self.year
                            &&& d.month == self.month
                            &&& d.day_of_month == self.day_of_month
                            &&& d.wf()
                        }
                    },
                    Some(ordinal) => {
                        let year_days: int = if leap {
                            366
                        } else {
                            365
                        };
                        if self.year < FIRST_YEAR {
                            res == Err::<GregorianDate, Error>(Error::InvalidYear)
                        } else if !(1 <= ordinal <= year_days) {
                            res == Err::<GregorianDate, Error>(Error::InvalidDayOfYear)
                        } else {
                            &&& res matches Ok(d)
                            &&& d.year == self.year
                            &&& d.wf()
                            &&& spec_day_of_year(leap, d.month as int, d.day_of_month as int)
                                == ordinal
                        }
                    },
                }
            }),
    {
        if self.year < FIRST_YEAR {
            return Err(Error::InvalidYear);
        }
        let probe = GregorianDate { year: self.year, month: 1, day_of_month: 1 };
        let leap = probe.is_leap_year();
        match self.day_of_year {
            None => {
                let date = GregorianDate {
                    year: self.year,
                    month: self.month,
                    day_of_month: self.day_of_month,
                };
                if 1 > date.month || 12 < date.month {
                    return Err(Error::InvalidMonth);
                }
                if 1 > date.day_of_month || date.month_days() < date.day_of_month {
                    return Err(Error::InvalidDayOfMonth);
                }
                Ok(date)
            }
            Some(ordinal) => {
                let limit: u16 = if leap {
                    366
                } else {
                    365
                };
                if 1 > ordinal || ordinal > limit {
                    return Err(Error::InvalidDayOfYear);
                }
                let mut month: u8 = 1;
                let mut scout = GregorianDate { year: self.year, month: 1, day_of_month: 1 };
                while month < 12 && ordinal > days_before(leap, month) + (scout.month_days()
                    as u16)
                    invariant
                        1 <= month <= 12,
                        scout.year == self.year,
                        scout.month == month,
                        leap == spec_is_leap_year(self.year as int),
                        ordinal > spec_days_before(leap, month as int),
                    decreases 12 - month,
                {
                    proof {
                        lemma_month_span(leap, month as int);
                    }
                    month = month + 1;
                    scout = GregorianDate { year: self.year, month, day_of_month: 1 };
                }
                let day: u8 = (ordinal - days_before(leap, month)) as u8;
                proof {
                    if month == 12 {
                        assert(spec_days_before(leap, 12) + spec_month_days(leap, 12) == if leap {
                            366int
                        } else {
                            365int
                        });
                    }
                }
                Ok(GregorianDate { year: self.year, month, day_of_month: day })
            }
        }
    }
}

/// Days of the year that precede a month's first day.
fn days_before(leap: bool, month: u8) -> (r: u16)
    ensures
        r == spec_days_before(leap, month as int),
{
    let extra: u16 = if leap {
        1
    } else {
        0
    };
    match month {
        1 => 0,
        2 => 31,
        3 => 59 + extra,
        4 => 90 + extra,
        5 => 120 + extra,
        6 => 151 + extra,
        7 => 181 + extra,
        8 => 212 + extra,
        9 => 243 + extra,
        10 => 273 + extra,
        11 => 304 + extra,
        12 => 334 + extra,
        _ => 0,
    }
}

} // verus!
