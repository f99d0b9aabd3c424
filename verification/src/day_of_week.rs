//! The seven days of the week, Monday first.

use vstd::prelude::*;
use vstd::std_specs::convert::FromSpecImpl;
use crate::calendar::floor_mod;
use crate::civil::weekday_number;

verus! {

/// A day of the week. Its number runs from 1 (Monday) to 7 (Sunday).
#[derive(Debug, Clone, Copy, PartialEq, Eq, Hash, PartialOrd, Ord, Structural)]
pub enum DayOfWeek {
    Monday,
    Tuesday,
    Wednesday,
    Thursday,
    Friday,
    Saturday,
    Sunday,
}

/// The day of the week with the given number, counted from Monday as 1.
pub open spec fn day_of_week_from_number(number: int) -> DayOfWeek {
    if number == 1 {
        DayOfWeek::Monday
    } else if number == 2 {
        DayOfWeek::Tuesday
    } else if number == 3 {
        DayOfWeek::Wednesday
    } else if number == 4 {
        DayOfWeek::Thursday
    } else if number == 5 {
        DayOfWeek::Friday
    } else if number == 6 {
        DayOfWeek::Saturday
    } else {
        DayOfWeek::Sunday
    }
}

/// The day of the week that a `time` weekday stands for.
pub open spec fn day_of_weekday(weekday: time::Weekday) -> DayOfWeek {
    match weekday {
        time::Weekday::Monday => DayOfWeek::Monday,
        time::Weekday::Tuesday => DayOfWeek::Tuesday,
        time::Weekday::Wednesday => DayOfWeek::Wednesday,
        time::Weekday::Thursday => DayOfWeek::Thursday,
        time::Weekday::Friday => DayOfWeek::Friday,
        time::Weekday::Saturday => DayOfWeek::Saturday,
        time::Weekday::Sunday => DayOfWeek::Sunday,
    }
}

/// The `time` weekday that stands for a day of the week.
pub open spec fn weekday_of_day(day: DayOfWeek) -> time::Weekday {
    match day {
        DayOfWeek::Monday => time::Weekday::Monday,
        DayOfWeek::Tuesday => time::Weekday::Tuesday,
        DayOfWeek::Wednesday => time::Weekday::Wednesday,
        DayOfWeek::Thursday => time::Weekday::Thursday,
        DayOfWeek::Friday => time::Weekday::Friday,
        DayOfWeek::Saturday => time::Weekday::Saturday,
        DayOfWeek::Sunday => time::Weekday::Sunday,
    }
}

impl DayOfWeek {
    /// The number of the day: 1 for Monday up to 7 for Sunday.
    pub open spec fn number(self) -> int {
        match self {
            DayOfWeek::Monday => 1,
            DayOfWeek::Tuesday => 2,
            DayOfWeek::Wednesday => 3,
            DayOfWeek::Thursday => 4,
            DayOfWeek::Friday => 5,
            DayOfWeek::Saturday => 6,
            DayOfWeek::Sunday => 7,
        }
    }

    /// The upper-case English name of the day.
    pub open spec fn name(self) -> Seq<char> {
        match self {
            DayOfWeek::Monday => "MONDAY"@,
            DayOfWeek::Tuesday => "TUESDAY"@,
            DayOfWeek::Wednesday => "WEDNESDAY"@,
            DayOfWeek::Thursday => "THURSDAY"@,
            DayOfWeek::Friday => "FRIDAY"@,
            DayOfWeek::Saturday => "SATURDAY"@,
            DayOfWeek::Sunday => "SUNDAY"@,
        }
    }

    /// The day with number `value`, which must lie between 1 and 7.
    pub fn of(value: i32) -> (day: DayOfWeek)
        requires
            1 <= value <= 7,
        ensures
            day.number() == value,
            day == day_of_week_from_number(value as int),
    {
        if value == 1 {
            DayOfWeek::Monday
        } else if value == 2 {
            DayOfWeek::Tuesday
        } else if value == 3 {
            DayOfWeek::Wednesday
        } else if value == 4 {
            DayOfWeek::Thursday
        } else if value == 5 {
            DayOfWeek::Friday
        } else if value == 6 {
            DayOfWeek::Saturday
        } else {
            DayOfWeek::Sunday
        }
    }

    /// The day with number `value`, or an error message when `value` is not
    /// between 1 and 7.
    pub fn try_of(value: i32) -> (result: Result<DayOfWeek, &'static str>)
        ensures
            1 <= value <= 7 ==> result == Ok::<DayOfWeek, &'static str>(
                day_of_week_from_number(value as int),
            ),
            !(1 <= value <= 7) ==> result is Err && result->Err_0@
                == "invalid day-of-week value (1-7)"@,
    {
        if 1 <= value && value <= 7 {
            Ok(DayOfWeek::of(value))
        } else {
            Err("invalid day-of-week value (1-7)")
        }
    }

    /// The number of the day: 1 for Monday up to 7 for Sunday.
    pub fn value(self) -> (value: i32)
        ensures
            value == self.number(),
            1 <= value <= 7,
    {
        match self {
            DayOfWeek::Monday => 1,
            DayOfWeek::Tuesday => 2,
            DayOfWeek::Wednesday => 3,
            DayOfWeek::Thursday => 4,
            DayOfWeek::Friday => 5,
            DayOfWeek::Saturday => 6,
            DayOfWeek::Sunday => 7,
        }
    }

    /// Whether the day is Saturday or Sunday.
    pub fn is_weekend(self) -> (weekend: bool)
        ensures
            weekend == (self == DayOfWeek::Saturday || self == DayOfWeek::Sunday),
    {
        match self {
            DayOfWeek::Saturday => true,
            DayOfWeek::Sunday => true,
            _ => false,
        }
    }

    /// Whether the day is one of Monday to Friday.
    pub fn is_weekday(self) -> (weekday: bool)
        ensures
            weekday == (self.number() <= 5),
            weekday == !(self == DayOfWeek::Saturday || self == DayOfWeek::Sunday),
    {
        !self.is_weekend()
    }

    /// The day that comes `days` days after this one, going round the week;
    /// a negative count goes back.
    pub fn plus(self, days: i64) -> (day: DayOfWeek)
        ensures
            day.number() == (self.number() - 1 + days) % 7 + 1,
    {
        let zero_based: i64 = (self.value() - 1) as i64;
        let wrapped: i64 = floor_mod(zero_based + floor_mod(days, 7), 7);
        DayOfWeek::of((wrapped as i32) + 1)
    }

    /// The day that comes `days` days before this one, going round the week.
    pub fn minus(self, days: i64) -> (day: DayOfWeek)
        ensures
            day.number() == (self.number() - 1 - days) % 7 + 1,
    {
        self.plus(-floor_mod(days, 7))
    }

    /// The upper-case English name of the day, such as `MONDAY`.
    pub fn to_string(&self) -> (text: String)
        ensures
            text@ == self.name(),
    {
        let name: &'static str = match self {
            DayOfWeek::Monday => "MONDAY",
            DayOfWeek::Tuesday => "TUESDAY",
            DayOfWeek::Wednesday => "WEDNESDAY",
            DayOfWeek::Thursday => "THURSDAY",
            DayOfWeek::Friday => "FRIDAY",
            DayOfWeek::Saturday => "SATURDAY",
            DayOfWeek::Sunday => "SUNDAY",
        };
        name.to_owned()
    }
}

impl From<time::Weekday> for DayOfWeek {
    /// The day of the week that a `time` weekday stands for.
    fn from(value: time::Weekday) -> (day: DayOfWeek) {
        match value {
            time::Weekday::Monday => DayOfWeek::Monday,
            time::Weekday::Tuesday => DayOfWeek::Tuesday,
            time::Weekday::Wednesday => DayOfWeek::Wednesday,
            time::Weekday::Thursday => DayOfWeek::Thursday,
            time::Weekday::Friday => DayOfWeek::Friday,
            time::Weekday::Saturday => DayOfWeek::Saturday,
            time::Weekday::Sunday => DayOfWeek::Sunday,
        }
    }
}

impl FromSpecImpl<time::Weekday> for DayOfWeek {
    open spec fn obeys_from_spec() -> bool {
        true
    }

    open spec fn from_spec(value: time::Weekday) -> DayOfWeek {
        day_of_weekday(value)
    }
}

impl From<DayOfWeek> for time::Weekday {
    /// The `time` weekday that stands for a day of the week.
    fn from(value: DayOfWeek) -> (weekday: time::Weekday) {
        match value {
            DayOfWeek::Monday => time::Weekday::Monday,
            DayOfWeek::Tuesday => time::Weekday::Tuesday,
            DayOfWeek::Wednesday => time::Weekday::Wednesday,
            DayOfWeek::Thursday => time::Weekday::Thursday,
            DayOfWeek::Friday => time::Weekday::Friday,
            DayOfWeek::Saturday => time::Weekday::Saturday,
            DayOfWeek::Sunday => time::Weekday::Sunday,
        }
    }
}

impl FromSpecImpl<DayOfWeek> for time::Weekday {
    open spec fn obeys_from_spec() -> bool {
        true
    }

    open spec fn from_spec(value: DayOfWeek) -> time::Weekday {
        weekday_of_day(value)
    }
}

/// Every `time` weekday maps to one day of the week with the same number, and
/// mapping there and back gives the value one started from.
pub proof fn lemma_weekday_mapping_is_bijective(day: DayOfWeek, weekday: time::Weekday)
    ensures
        day_of_weekday(weekday).number() == weekday_number(weekday),
        weekday_number(weekday_of_day(day)) == day.number(),
        day_of_weekday(weekday_of_day(day)) == day,
        weekday_of_day(day_of_weekday(weekday)) == weekday,
{
}

} // verus!
