//! Calendar dates with validity checking, and a user's age relative to a
//! fixed "today". The reference day is a constant of this module.

use vstd::prelude::*;

verus! {

/// The fixed reference date: year, month and day of "today".
pub open spec fn spec_now() -> (int, int, int) {
    (2019, 6, 26)
}

/// A year is a leap year when it is divisible by 4 but not by 100, or
/// divisible by 400.
pub open spec fn spec_is_leap_year(year: int) -> bool {
    (year % 4 == 0 && year % 100 != 0) || year % 400 == 0
}

/// The number of days in the given month; 0 for an illegal month number.
pub open spec fn spec_days_in_month(year: int, month: int) -> int {
    if month == 1 || month == 3 || month == 5 || month == 7 || month == 8 || month == 10 || month
        == 12 {
        31
    } else if month == 4 || month == 6 || month == 9 || month == 11 {
        30
    } else if month == 2 {
        if spec_is_leap_year(year) {
            29
        } else {
            28
        }
    } else {
        0
    }
}

/// A legal calendar date: month in 1..=12 and day within the month.
pub open spec fn spec_valid_date(year: int, month: int, day: int) -> bool {
    1 <= month <= 12 && 1 <= day <= spec_days_in_month(year, month)
}

pub fn is_leap_year(year: i32) -> (r: bool)
    ensures
        r == spec_is_leap_year(year as int),
{
    (year % 4 == 0 && year % 100 != 0) || year % 400 == 0
}

pub fn days_in_month(year: i32, month: u32) -> (r: u32)
    ensures
        r == spec_days_in_month(year as int, month as int),
{
    match month {
        1 | 3 | 5 | 7 | 8 | 10 | 12 => 31,
        4 | 6 | 9 | 11 => 30,
        2 => if is_leap_year(year) {
            29
        } else {
            28
        },
        _ => 0,
    }
}

/// A calendar date that is known to be legal.
#[derive(Clone, Copy, Debug, PartialEq, Eq, Structural, PartialOrd, Ord)]
pub struct Date {
    year: i32,
    month: u32,
    day: u32,
}

impl Date {
    /// The date's components.
    pub closed spec fn spec_year(self) -> int {
        self.year as int
    }

    pub closed spec fn spec_month(self) -> int {
        self.month as int
    }

    pub closed spec fn spec_day(self) -> int {
        self.day as int
    }

    /// Builds a date, refusing illegal month or day numbers.
    pub fn new(year: i32, month: u32, day: u32) -> (r: Option<Date>)
        ensures
            match r {
                Some(d) => {
                    &&& spec_valid_date(year as int, month as int, day as int)
                    &&& d.spec_year() == year
                    &&& d.spec_month() == month
                    &&& d.spec_day() == day
                },
                None => !spec_valid_date(year as int, month as int, day as int),
            },
    {
        if month < 1 || month > 12 {
            return None;
        }
        let max_day = days_in_month(year, month);
        if day < 1 || day > max_day {
            return None;
        }
        Some(Date { year, month, day })
    }
}

/// Chronological order on dates, as a specification.
pub open spec fn spec_date_after(a: Date, b: Date) -> bool {
    ||| a.spec_year() > b.spec_year()
    ||| (a.spec_year() == b.spec_year() && a.spec_month() > b.spec_month())
    ||| (a.spec_year() == b.spec_year() && a.spec_month() == b.spec_month() && a.spec_day()
        > b.spec_day())
}

/// The fixed "today".
pub fn now_date() -> (r: Date)
    ensures
        r.spec_year() == spec_now().0,
        r.spec_month() == spec_now().1,
        r.spec_day() == spec_now().2,
{
    Date { year: 2019, month: 6, day: 26 }
}

/// The age in whole years that someone born on `(y, m, d)` has reached on
/// the reference date, clamped to `u16`; 0 for a birthdate in the future.
pub open spec fn spec_age_of(birth: Option<Date>) -> int {
    match birth {
        None => 0,
        Some(b) => {
            let (ny, nm, nd) = spec_now();
            if b.spec_year() > ny || (b.spec_year() == ny && b.spec_month() > nm) || (b.spec_year()
                == ny && b.spec_month() == nm && b.spec_day() > nd) {
                0
            } else {
                let years = ny - b.spec_year() - if nm < b.spec_month() || (nm == b.spec_month()
                    && nd < b.spec_day()) {
                    1int
                } else {
                    0int
                };
                if years <= 0 {
                    0
                } else if years > u16::MAX {
                    u16::MAX as int
                } else {
                    years
                }
            }
        },
    }
}

/// Someone with an optional birthdate.
pub struct User {
    birthdate: Option<Date>,
}

impl User {
    /// The recorded birthdate, if the given components formed a legal date.
    pub closed spec fn spec_birthdate(self) -> Option<Date> {
        self.birthdate
    }

    /// Records the birthdate when the components form a legal date; an
    /// illegal date leaves the user without one.
    pub fn with_birthdate(year: i32, month: u32, day: u32) -> (r: Self)
        ensures
            spec_valid_date(year as int, month as int, day as int) ==> (r.spec_birthdate()
                matches Some(d) && d.spec_year() == year && d.spec_month() == month && d.spec_day()
                == day),
            !spec_valid_date(year as int, month as int, day as int) ==> r.spec_birthdate() is None,
    {
        User { birthdate: Date::new(year, month, day) }
    }

    /// The user's age in years on the reference date.
    pub fn age(&self) -> (r: u16)
        ensures
            r == spec_age_of(self.spec_birthdate()),
    {
        let b = match self.birthdate {
            None => {
                return 0;
            },
            Some(b) => b,
        };
        let now = now_date();
        let (by, bm, bd) = (b.year, b.month, b.day);
        if by > now.year || (by == now.year && bm > now.month) || (by == now.year && bm
            == now.month && bd > now.day) {
            return 0;
        }
        let mut years: i64 = now.year as i64 - by as i64;
        if now.month < bm || (now.month == bm && now.day < bd) {
            years = years - 1;
        }
        if years <= 0 {
            0
        } else if years > u16::MAX as i64 {
            u16::MAX
        } else {
            years as u16
        }
    }

    /// Whether the user has turned 18 by the reference date.
    pub fn is_adult(&self) -> (r: bool)
        ensures
            r == (spec_age_of(self.spec_birthdate()) >= 18),
    {
        self.age() >= 18
    }
}

} // verus!
