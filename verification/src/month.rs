//! The twelve months of the year.

use vstd::prelude::*;
use crate::calendar::{floor_mod, month_days};

verus! {

/// A month of the year. Its number runs from 1 (January) to 12 (December).
#[derive(Debug, Clone, Copy, PartialEq, Eq, Hash, PartialOrd, Ord, Structural)]
pub enum Month {
    January,
    February,
    March,
    April,
    May,
    June,
    July,
    August,
    September,
    October,
    November,
    December,
}

/// The month with the given number, counted from January as 1.
pub open spec fn month_from_number(number: int) -> Month {
    if number == 1 {
        Month::January
    } else if number == 2 {
        Month::February
    } else if number == 3 {
        Month::March
    } else if number == 4 {
        Month::April
    } else if number == 5 {
        Month::May
    } else if number == 6 {
        Month::June
    } else if number == 7 {
        Month::July
    } else if number == 8 {
        Month::August
    } else if number == 9 {
        Month::September
    } else if number == 10 {
        Month::October
    } else if number == 11 {
        Month::November
    } else {
        Month::December
    }
}

impl Month {
    /// The number of the month: 1 for January up to 12 for December.
    pub open spec fn number(self) -> int {
        match self {
            Month::January => 1,
            Month::February => 2,
            Month::March => 3,
            Month::April => 4,
            Month::May => 5,
            Month::June => 6,
            Month::July => 7,
            Month::August => 8,
            Month::September => 9,
            Month::October => 10,
            Month::November => 11,
            Month::December => 12,
        }
    }

    /// The upper-case English name of the month.
    pub open spec fn name(self) -> Seq<char> {
        match self {
            Month::January => "JANUARY"@,
            Month::February => "FEBRUARY"@,
            Month::March => "MARCH"@,
            Month::April => "APRIL"@,
            Month::May => "MAY"@,
            Month::June => "JUNE"@,
            Month::July => "JULY"@,
            Month::August => "AUGUST"@,
            Month::September => "SEPTEMBER"@,
            Month::October => "OCTOBER"@,
            Month::November => "NOVEMBER"@,
            Month::December => "DECEMBER"@,
        }
    }

    /// The month with number `value`, which must lie between 1 and 12.
    pub fn of(value: i32) -> (month: Month)
        requires
            1 <= value <= 12,
        ensures
            month.number() == value,
            month == month_from_number(value as int),
    {
        if value == 1 {
            Month::January
        } else if value == 2 {
            Month::February
        } else if value == 3 {
            Month::March
        } else if value == 4 {
            Month::April
        } else if value == 5 {
            Month::May
        } else if value == 6 {
            Month::June
        } else if value == 7 {
            Month::July
        } else if value == 8 {
            Month::August
        } else if value == 9 {
            Month::September
        } else if value == 10 {
            Month::October
        } else if value == 11 {
            Month::November
        } else {
            Month::December
        }
    }

    /// The number of the month: 1 for January up to 12 for December.
    pub fn value(self) -> (value: i32)
        ensures
            value == self.number(),
            1 <= value <= 12,
    {
        match self {
            Month::January => 1,
            Month::February => 2,
            Month::March => 3,
            Month::April => 4,
            Month::May => 5,
            Month::June => 6,
            Month::July => 7,
            Month::August => 8,
            Month::September => 9,
            Month::October => 10,
            Month::November => 11,
            Month::December => 12,
        }
    }

    /// The number of days of the month, in a leap year or in a common year.
    pub fn length(self, leap_year: bool) -> (days: i32)
        ensures
            days == month_days(self.number(), leap_year),
            28 <= days <= 31,
    {
        match self {
            Month::January => 31,
            Month::February => if leap_year {
                29
            } else {
                28
            },
            Month::March => 31,
            Month::April => 30,
            Month::May => 31,
            Month::June => 30,
            Month::July => 31,
            Month::August => 31,
            Month::September => 30,
            Month::October => 31,
            Month::November => 30,
            Month::December => 31,
        }
    }

    /// The number of days of the month in a common year.
    pub fn min_length(self) -> (days: i32)
        ensures
            days == month_days(self.number(), false),
    {
        self.length(false)
    }

    /// The number of days of the month in a leap year.
    pub fn max_length(self) -> (days: i32)
        ensures
            days == month_days(self.number(), true),
    {
        self.length(true)
    }

    /// The month that comes `months` months after this one, going round the
    /// year; a negative count goes back.
    pub fn plus(self, months: i64) -> (month: Month)
        ensures
            month.number() == (self.number() - 1 + months) % 12 + 1,
    {
        let zero: i64 = (self.value() - 1) as i64;
        let wrapped: i64 = floor_mod(zero + floor_mod(months, 12), 12);
        Month::of((wrapped as i32) + 1)
    }

    /// The month that comes `months` months before this one, going round the year.
    pub fn minus(self, months: i64) -> (month: Month)
        ensures
            month.number() == (self.number() - 1 - months) % 12 + 1,
    {
        self.plus(-floor_mod(months, 12))
    }

    /// The upper-case English name of the month, such as `JANUARY`.
    pub fn to_string(&self) -> (text: String)
        ensures
            text@ == self.name(),
    {
        let name: &'static str = match self {
            Month::January => "JANUARY",
            Month::February => "FEBRUARY",
            Month::March => "MARCH",
            Month::April => "APRIL",
            Month::May => "MAY",
            Month::June => "JUNE",
            Month::July => "JULY",
            Month::August => "AUGUST",
            Month::September => "SEPTEMBER",
            Month::October => "OCTOBER",
            Month::November => "NOVEMBER",
            Month::December => "DECEMBER",
        };
        name.to_owned()
    }
}

/// A month is the month of its number, and each number from 1 to 12 is the
/// number of its month.
pub proof fn lemma_month_numbering_is_bijective(month: Month, number: int)
    ensures
        month_from_number(month.number()) == month,
        1 <= number <= 12 ==> month_from_number(number).number() == number,
{
}

} // verus!
