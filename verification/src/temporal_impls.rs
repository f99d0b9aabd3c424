//! The date and time types as temporal values: each is ordered, and has the
//! date, the time of day, or both, that the traits of `temporal` read and replace.

use vstd::prelude::*;
use crate::day_of_week::DayOfWeek;
use crate::local_date::LocalDate;
use crate::local_date_time::{lemma_time_units_carry_into_date, LocalDateTime};
use crate::local_time::LocalTime;
use crate::month::Month;
use crate::offset_date_time::OffsetDateTime;
use crate::temporal::{Temporal, TemporalDate, TemporalDateTime, TemporalTime};
use crate::zoned_date_time::ZonedDateTime;

verus! {

impl LocalDateTime {
    /// This time of day on another date.
    fn having_date(self, date: LocalDate) -> (result: LocalDateTime)
        ensures
            result == (LocalDateTime { date, time: self.time }),
    {
        LocalDateTime { date, time: self.time }
    }

    /// This date at another time of day.
    fn having_time(self, time: LocalTime) -> (result: LocalDateTime)
        ensures
            result == (LocalDateTime { date: self.date, time }),
    {
        LocalDateTime { date: self.date, time }
    }

    /// The date and time `nanos` nanoseconds later, with the time of day
    /// that the move arrives at going round the day.
    fn moved_by(self, nanos: i128) -> (result: LocalDateTime)
        requires
            self.wf(),
            self.can_move_by(nanos as int),
        ensures
            result.wf(),
            result.local_nanos() == self.local_nanos() + nanos,
    {
        LocalDateTime::plus_nanos_exact(self, nanos)
    }
}

impl OffsetDateTime {
    /// This value on another date.
    fn having_date(self, date: LocalDate) -> (result: OffsetDateTime)
        ensures
            result == (OffsetDateTime {
                date_time: LocalDateTime { date, time: self.date_time.time },
                ..self
            }),
    {
        OffsetDateTime { date_time: self.date_time.having_date(date), offset: self.offset }
    }

    /// This value at another time of day.
    fn having_time(self, time: LocalTime) -> (result: OffsetDateTime)
        ensures
            result == (OffsetDateTime {
                date_time: LocalDateTime { date: self.date_time.date, time },
                ..self
            }),
    {
        OffsetDateTime { date_time: self.date_time.having_time(time), offset: self.offset }
    }

    /// This value with its date and time `nanos` nanoseconds later.
    fn moved_by(self, nanos: i128) -> (result: OffsetDateTime)
        requires
            self.wf(),
            self.date_time.can_move_by(nanos as int),
        ensures
            result.wf(),
            result == (OffsetDateTime { date_time: result.date_time, ..self }),
            result.date_time.local_nanos() == self.date_time.local_nanos() + nanos,
    {
        OffsetDateTime { date_time: self.date_time.moved_by(nanos), offset: self.offset }
    }
}

impl ZonedDateTime {
    /// This value on another date.
    fn having_date(self, date: LocalDate) -> (result: ZonedDateTime)
        ensures
            result == (ZonedDateTime {
                date_time: LocalDateTime { date, time: self.date_time.time },
                ..self
            }),
    {
        ZonedDateTime {
            date_time: self.date_time.having_date(date),
            offset: self.offset,
            zone: self.zone,
        }
    }

    /// This value at another time of day.
    fn having_time(self, time: LocalTime) -> (result: ZonedDateTime)
        ensures
            result == (ZonedDateTime {
                date_time: LocalDateTime { date: self.date_time.date, time },
                ..self
            }),
    {
        ZonedDateTime {
            date_time: self.date_time.having_time(time),
            offset: self.offset,
            zone: self.zone,
        }
    }

    /// This value with its date and time `nanos` nanoseconds later.
    fn moved_by(self, nanos: i128) -> (result: ZonedDateTime)
        requires
            self.wf(),
            self.date_time.can_move_by(nanos as int),
        ensures
            result.wf(),
            result == (ZonedDateTime { date_time: result.date_time, ..self }),
            result.date_time.local_nanos() == self.date_time.local_nanos() + nanos,
    {
        ZonedDateTime {
            date_time: self.date_time.moved_by(nanos),
            offset: self.offset,
            zone: self.zone,
        }
    }
}

impl Temporal for LocalDate {
    open spec fn well_formed(self) -> bool {
        self.wf()
    }

    open spec fn position(self) -> int {
        self.julian_day()
    }

    fn is_before(self, other: LocalDate) -> (before: bool) {
        LocalDate::is_before(self, other)
    }

    fn is_after(self, other: LocalDate) -> (after: bool) {
        LocalDate::is_after(self, other)
    }

    fn is_on_or_before(self, other: LocalDate) -> (on_or_before: bool) {
        LocalDate::is_on_or_before(self, other)
    }

    fn is_on_or_after(self, other: LocalDate) -> (on_or_after: bool) {
        LocalDate::is_on_or_after(self, other)
    }
}

impl TemporalDate for LocalDate {
    open spec fn date_part(self) -> LocalDate {
        self
    }

    open spec fn with_date_part(self, date: LocalDate) -> LocalDate {
        date
    }

    fn year(self) -> (year: i32) {
        LocalDate::year(self)
    }

    fn month(self) -> (month: Month) {
        LocalDate::month(self)
    }

    fn month_value(self) -> (month: i32) {
        LocalDate::month_value(self)
    }

    fn day_of_year(self) -> (ordinal: u16) {
        LocalDate::day_of_year(self) as u16
    }

    fn day_of_month(self) -> (day: u8) {
        self.day
    }

    fn day_of_week(self) -> (day: DayOfWeek) {
        LocalDate::day_of_week(self)
    }

    fn length_of_month(self) -> (days: i32) {
        LocalDate::length_of_month(self)
    }

    fn is_leap_year(self) -> (leap: bool) {
        LocalDate::is_leap_year(self)
    }

    fn length_of_year(self) -> (days: i32) {
        LocalDate::length_of_year(self)
    }

    fn plus_years(self, years: i64) -> (result: LocalDate) {
        LocalDate::plus_years(self, years)
    }

    fn minus_years(self, years: i64) -> (result: LocalDate) {
        LocalDate::minus_years(self, years)
    }

    fn plus_months(self, months: i64) -> (result: LocalDate) {
        LocalDate::shifted_by_months(self, months)
    }

    fn minus_months(self, months: i64) -> (result: LocalDate) {
        LocalDate::shifted_by_months(self, -months)
    }

    fn plus_weeks(self, weeks: i64) -> (result: LocalDate) {
        LocalDate::plus_weeks(self, weeks)
    }

    fn minus_weeks(self, weeks: i64) -> (result: LocalDate) {
        LocalDate::minus_weeks(self, weeks)
    }

    fn plus_days(self, days: i64) -> (result: LocalDate) {
        LocalDate::plus_days(self, days)
    }

    fn minus_days(self, days: i64) -> (result: LocalDate) {
        LocalDate::minus_days(self, days)
    }

    fn with_year(self, year: i32) -> (result: LocalDate) {
        LocalDate::with_year(self, year)
    }

    fn with_month(self, month: i32) -> (result: LocalDate) {
        LocalDate::with_month(self, month)
    }

    fn with_day_of_month(self, day: u8) -> (result: LocalDate) {
        LocalDate::with_day_of_month(self, day as i32)
    }

    fn with_day_of_year(self, day_of_year: u16) -> (result: LocalDate) {
        LocalDate::with_day_of_year(self, day_of_year)
    }

    fn first_day_of_month(self) -> (result: LocalDate) {
        LocalDate::first_day_of_month(self)
    }

    fn last_day_of_month(self) -> (result: LocalDate) {
        LocalDate::last_day_of_month(self)
    }

    fn first_day_of_year(self) -> (result: LocalDate) {
        LocalDate::first_day_of_year(self)
    }

    fn last_day_of_year(self) -> (result: LocalDate) {
        LocalDate::last_day_of_year(self)
    }

    fn first_in_month(self, dow: DayOfWeek) -> (result: LocalDate) {
        LocalDate::first_in_month(self, dow)
    }

    fn last_in_month(self, dow: DayOfWeek) -> (result: LocalDate) {
        LocalDate::last_in_month(self, dow)
    }

    fn next(self, dow: DayOfWeek) -> (result: LocalDate) {
        LocalDate::next(self, dow)
    }

    fn next_or_same(self, dow: DayOfWeek) -> (result: LocalDate) {
        LocalDate::next_or_same(self, dow)
    }

    fn previous(self, dow: DayOfWeek) -> (result: LocalDate) {
        LocalDate::previous(self, dow)
    }

    fn previous_or_same(self, dow: DayOfWeek) -> (result: LocalDate) {
        LocalDate::previous_or_same(self, dow)
    }
}

impl Temporal for LocalTime {
    open spec fn well_formed(self) -> bool {
        self.wf()
    }

    open spec fn position(self) -> int {
        self.nanos_of_day()
    }

    fn is_before(self, other: LocalTime) -> (before: bool) {
        LocalTime::is_before(self, other)
    }

    fn is_after(self, other: LocalTime) -> (after: bool) {
        LocalTime::is_after(self, other)
    }

    fn is_on_or_before(self, other: LocalTime) -> (on_or_before: bool) {
        LocalTime::is_on_or_before(self, other)
    }

    fn is_on_or_after(self, other: LocalTime) -> (on_or_after: bool) {
        LocalTime::is_on_or_after(self, other)
    }
}

impl TemporalTime for LocalTime {
    open spec fn time_part(self) -> LocalTime {
        self
    }

    open spec fn with_time_part(self, time: LocalTime) -> LocalTime {
        time
    }

    open spec fn can_shift(self, nanos: int) -> bool {
        true
    }

    fn hour(self) -> (hour: u8) {
        self.hour
    }

    fn minute(self) -> (minute: u8) {
        self.minute
    }

    fn second(self) -> (second: u8) {
        self.second
    }

    fn millisecond(self) -> (millisecond: u16) {
        (self.nano / 1_000_000) as u16
    }

    fn nanosecond(self) -> (nanosecond: i32) {
        self.nano as i32
    }

    fn total_nanoseconds_of_day(self) -> (nanos: u128) {
        LocalTime::to_nanos_of_day(self) as u128
    }

    fn plus_hours(self, hours: i64) -> (result: LocalTime) {
        LocalTime::plus_hours(self, hours)
    }

    fn plus_minutes(self, minutes: i64) -> (result: LocalTime) {
        LocalTime::plus_minutes(self, minutes)
    }

    fn plus_seconds(self, seconds: i64) -> (result: LocalTime) {
        LocalTime::plus_seconds(self, seconds)
    }

    fn plus_milliseconds(self, milliseconds: i64) -> (result: LocalTime) {
        LocalTime::plus_milliseconds(self, milliseconds)
    }

    fn plus_nanoseconds(self, nanoseconds: i64) -> (result: LocalTime) {
        LocalTime::plus_nanoseconds(self, nanoseconds)
    }

    fn minus_hours(self, hours: i64) -> (result: LocalTime) {
        LocalTime::minus_hours(self, hours)
    }

    fn minus_minutes(self, minutes: i64) -> (result: LocalTime) {
        LocalTime::minus_minutes(self, minutes)
    }

    fn minus_seconds(self, seconds: i64) -> (result: LocalTime) {
        LocalTime::minus_seconds(self, seconds)
    }

    fn minus_milliseconds(self, milliseconds: i64) -> (result: LocalTime) {
        LocalTime::minus_milliseconds(self, milliseconds)
    }

    fn minus_nanoseconds(self, nanoseconds: i64) -> (result: LocalTime) {
        LocalTime::minus_nanoseconds(self, nanoseconds)
    }

    fn with_hour(self, hour: u8) -> (result: LocalTime) {
        LocalTime::with_hour(self, hour)
    }

    fn with_minute(self, minute: u8) -> (result: LocalTime) {
        LocalTime::with_minute(self, minute)
    }

    fn with_second(self, second: u8) -> (result: LocalTime) {
        LocalTime::with_second(self, second)
    }

    fn with_millisecond(self, millisecond: u16) -> (result: LocalTime) {
        LocalTime::with_millisecond(self, millisecond)
    }

    fn with_nanosecond(self, nanosecond: u32) -> (result: LocalTime) {
        LocalTime::with_nanosecond(self, nanosecond)
    }
}

impl Temporal for LocalDateTime {
    open spec fn well_formed(self) -> bool {
        self.wf()
    }

    open spec fn position(self) -> int {
        self.local_nanos()
    }

    fn is_before(self, other: LocalDateTime) -> (before: bool) {
        LocalDateTime::is_before(self, other)
    }

    fn is_after(self, other: LocalDateTime) -> (after: bool) {
        LocalDateTime::is_after(self, other)
    }

    fn is_on_or_before(self, other: LocalDateTime) -> (on_or_before: bool) {
        LocalDateTime::is_on_or_before(self, other)
    }

    fn is_on_or_after(self, other: LocalDateTime) -> (on_or_after: bool) {
        LocalDateTime::is_on_or_after(self, other)
    }
}

impl TemporalDate for LocalDateTime {
    open spec fn date_part(self) -> LocalDate {
        self.date
    }

    open spec fn with_date_part(self, date: LocalDate) -> LocalDateTime {
        LocalDateTime { date, time: self.time }
    }

    fn year(self) -> (year: i32) {
        LocalDate::year(self.date)
    }

    fn month(self) -> (month: Month) {
        LocalDate::month(self.date)
    }

    fn month_value(self) -> (month: i32) {
        LocalDate::month_value(self.date)
    }

    fn day_of_year(self) -> (ordinal: u16) {
        LocalDate::day_of_year(self.date) as u16
    }

    fn day_of_month(self) -> (day: u8) {
        self.date.day
    }

    fn day_of_week(self) -> (day: DayOfWeek) {
        LocalDate::day_of_week(self.date)
    }

    fn length_of_month(self) -> (days: i32) {
        LocalDate::length_of_month(self.date)
    }

    fn is_leap_year(self) -> (leap: bool) {
        LocalDate::is_leap_year(self.date)
    }

    fn length_of_year(self) -> (days: i32) {
        LocalDate::length_of_year(self.date)
    }

    fn plus_years(self, years: i64) -> (result: LocalDateTime) {
        self.having_date(LocalDate::plus_years(self.date, years))
    }

    fn minus_years(self, years: i64) -> (result: LocalDateTime) {
        self.having_date(LocalDate::minus_years(self.date, years))
    }

    fn plus_months(self, months: i64) -> (result: LocalDateTime) {
        self.having_date(LocalDate::shifted_by_months(self.date, months))
    }

    fn minus_months(self, months: i64) -> (result: LocalDateTime) {
        self.having_date(LocalDate::shifted_by_months(self.date, -months))
    }

    fn plus_weeks(self, weeks: i64) -> (result: LocalDateTime) {
        self.having_date(LocalDate::plus_weeks(self.date, weeks))
    }

    fn minus_weeks(self, weeks: i64) -> (result: LocalDateTime) {
        self.having_date(LocalDate::minus_weeks(self.date, weeks))
    }

    fn plus_days(self, days: i64) -> (result: LocalDateTime) {
        self.having_date(LocalDate::plus_days(self.date, days))
    }

    fn minus_days(self, days: i64) -> (result: LocalDateTime) {
        self.having_date(LocalDate::minus_days(self.date, days))
    }

    fn with_year(self, year: i32) -> (result: LocalDateTime) {
        self.having_date(LocalDate::with_year(self.date, year))
    }

    fn with_month(self, month: i32) -> (result: LocalDateTime) {
        self.having_date(LocalDate::with_month(self.date, month))
    }

    fn with_day_of_month(self, day: u8) -> (result: LocalDateTime) {
        self.having_date(LocalDate::with_day_of_month(self.date, day as i32))
    }

    fn with_day_of_year(self, day_of_year: u16) -> (result: LocalDateTime) {
        self.having_date(LocalDate::with_day_of_year(self.date, day_of_year))
    }

    fn first_day_of_month(self) -> (result: LocalDateTime) {
        self.having_date(LocalDate::first_day_of_month(self.date))
    }

    fn last_day_of_month(self) -> (result: LocalDateTime) {
        self.having_date(LocalDate::last_day_of_month(self.date))
    }

    fn first_day_of_year(self) -> (result: LocalDateTime) {
        self.having_date(LocalDate::first_day_of_year(self.date))
    }

    fn last_day_of_year(self) -> (result: LocalDateTime) {
        self.having_date(LocalDate::last_day_of_year(self.date))
    }

    fn first_in_month(self, dow: DayOfWeek) -> (result: LocalDateTime) {
        self.having_date(LocalDate::first_in_month(self.date, dow))
    }

    fn last_in_month(self, dow: DayOfWeek) -> (result: LocalDateTime) {
        self.having_date(LocalDate::last_in_month(self.date, dow))
    }

    fn next(self, dow: DayOfWeek) -> (result: LocalDateTime) {
        self.having_date(LocalDate::next(self.date, dow))
    }

    fn next_or_same(self, dow: DayOfWeek) -> (result: LocalDateTime) {
        self.having_date(LocalDate::next_or_same(self.date, dow))
    }

    fn previous(self, dow: DayOfWeek) -> (result: LocalDateTime) {
        self.having_date(LocalDate::previous(self.date, dow))
    }

    fn previous_or_same(self, dow: DayOfWeek) -> (result: LocalDateTime) {
        self.having_date(LocalDate::previous_or_same(self.date, dow))
    }
}

impl TemporalTime for LocalDateTime {
    open spec fn time_part(self) -> LocalTime {
        self.time
    }

    open spec fn with_time_part(self, time: LocalTime) -> LocalDateTime {
        LocalDateTime { date: self.date, time }
    }

    open spec fn can_shift(self, nanos: int) -> bool {
        self.can_move_by(nanos)
    }

    fn hour(self) -> (hour: u8) {
        self.time.hour
    }

    fn minute(self) -> (minute: u8) {
        self.time.minute
    }

    fn second(self) -> (second: u8) {
        self.time.second
    }

    fn millisecond(self) -> (millisecond: u16) {
        (self.time.nano / 1_000_000) as u16
    }

    fn nanosecond(self) -> (nanosecond: i32) {
        self.time.nano as i32
    }

    fn total_nanoseconds_of_day(self) -> (nanos: u128) {
        LocalTime::to_nanos_of_day(self.time) as u128
    }

    fn plus_hours(self, hours: i64) -> (result: LocalDateTime) {
        let result = self.moved_by((hours as i128) * 3_600_000_000_000);
        proof {
            lemma_time_units_carry_into_date(self, result, hours * 3_600_000_000_000);
        }
        result
    }

    fn plus_minutes(self, minutes: i64) -> (result: LocalDateTime) {
        let result = self.moved_by((minutes as i128) * 60_000_000_000);
        proof {
            lemma_time_units_carry_into_date(self, result, minutes * 60_000_000_000);
        }
        result
    }

    fn plus_seconds(self, seconds: i64) -> (result: LocalDateTime) {
        let result = self.moved_by((seconds as i128) * 1_000_000_000);
        proof {
            lemma_time_units_carry_into_date(self, result, seconds * 1_000_000_000);
        }
        result
    }

    fn plus_milliseconds(self, milliseconds: i64) -> (result: LocalDateTime) {
        let result = self.moved_by((milliseconds as i128) * 1_000_000);
        proof {
            lemma_time_units_carry_into_date(self, result, milliseconds * 1_000_000);
        }
        result
    }

    fn plus_nanoseconds(self, nanoseconds: i64) -> (result: LocalDateTime) {
        let result = self.moved_by(nanoseconds as i128);
        proof {
            lemma_time_units_carry_into_date(self, result, nanoseconds as int);
        }
        result
    }

    fn minus_hours(self, hours: i64) -> (result: LocalDateTime) {
        let result = self.moved_by(-((hours as i128) * 3_600_000_000_000));
        proof {
            lemma_time_units_carry_into_date(self, result, -(hours * 3_600_000_000_000));
        }
        result
    }

    fn minus_minutes(self, minutes: i64) -> (result: LocalDateTime) {
        let result = self.moved_by(-((minutes as i128) * 60_000_000_000));
        proof {
            lemma_time_units_carry_into_date(self, result, -(minutes * 60_000_000_000));
        }
        result
    }

    fn minus_seconds(self, seconds: i64) -> (result: LocalDateTime) {
        let result = self.moved_by(-((seconds as i128) * 1_000_000_000));
        proof {
            lemma_time_units_carry_into_date(self, result, -(seconds * 1_000_000_000));
        }
        result
    }

    fn minus_milliseconds(self, milliseconds: i64) -> (result: LocalDateTime) {
        let result = self.moved_by(-((milliseconds as i128) * 1_000_000));
        proof {
            lemma_time_units_carry_into_date(self, result, -(milliseconds * 1_000_000));
        }
        result
    }

    fn minus_nanoseconds(self, nanoseconds: i64) -> (result: LocalDateTime) {
        let result = self.moved_by(-(nanoseconds as i128));
        proof {
            lemma_time_units_carry_into_date(self, result, -(nanoseconds as int));
        }
        result
    }

    fn with_hour(self, hour: u8) -> (result: LocalDateTime) {
        self.having_time(LocalTime::with_hour(self.time, hour))
    }

    fn with_minute(self, minute: u8) -> (result: LocalDateTime) {
        self.having_time(LocalTime::with_minute(self.time, minute))
    }

    fn with_second(self, second: u8) -> (result: LocalDateTime) {
        self.having_time(LocalTime::with_second(self.time, second))
    }

    fn with_millisecond(self, millisecond: u16) -> (result: LocalDateTime) {
        self.having_time(LocalTime::with_millisecond(self.time, millisecond))
    }

    fn with_nanosecond(self, nanosecond: u32) -> (result: LocalDateTime) {
        self.having_time(LocalTime::with_nanosecond(self.time, nanosecond))
    }
}

impl TemporalDateTime for LocalDateTime {
    fn to_local_date(self) -> (date: LocalDate) {
        self.date
    }

    fn to_local_time(self) -> (time: LocalTime) {
        self.time
    }

    fn to_local_date_time(self) -> (date_time: LocalDateTime) {
        LocalDateTime { date: self.date, time: self.time }
    }
}

impl Temporal for OffsetDateTime {
    open spec fn well_formed(self) -> bool {
        self.wf()
    }

    open spec fn position(self) -> int {
        self.instant_nanos()
    }

    fn is_before(self, other: OffsetDateTime) -> (before: bool) {
        OffsetDateTime::is_before(self, other)
    }

    fn is_after(self, other: OffsetDateTime) -> (after: bool) {
        OffsetDateTime::is_after(self, other)
    }

    fn is_on_or_before(self, other: OffsetDateTime) -> (on_or_before: bool) {
        OffsetDateTime::is_on_or_before(self, other)
    }

    fn is_on_or_after(self, other: OffsetDateTime) -> (on_or_after: bool) {
        OffsetDateTime::is_on_or_after(self, other)
    }
}

impl TemporalDate for OffsetDateTime {
    open spec fn date_part(self) -> LocalDate {
        self.date_time.date
    }

    open spec fn with_date_part(self, date: LocalDate) -> OffsetDateTime {
        OffsetDateTime {
            date_time: LocalDateTime { date, time: self.date_time.time },
            ..self
        }
    }

    fn year(self) -> (year: i32) {
        LocalDate::year(self.date_time.date)
    }

    fn month(self) -> (month: Month) {
        LocalDate::month(self.date_time.date)
    }

    fn month_value(self) -> (month: i32) {
        LocalDate::month_value(self.date_time.date)
    }

    fn day_of_year(self) -> (ordinal: u16) {
        LocalDate::day_of_year(self.date_time.date) as u16
    }

    fn day_of_month(self) -> (day: u8) {
        self.date_time.date.day
    }

    fn day_of_week(self) -> (day: DayOfWeek) {
        LocalDate::day_of_week(self.date_time.date)
    }

    fn length_of_month(self) -> (days: i32) {
        LocalDate::length_of_month(self.date_time.date)
    }

    fn is_leap_year(self) -> (leap: bool) {
        LocalDate::is_leap_year(self.date_time.date)
    }

    fn length_of_year(self) -> (days: i32) {
        LocalDate::length_of_year(self.date_time.date)
    }

    fn plus_years(self, years: i64) -> (result: OffsetDateTime) {
        self.having_date(LocalDate::plus_years(self.date_time.date, years))
    }

    fn minus_years(self, years: i64) -> (result: OffsetDateTime) {
        self.having_date(LocalDate::minus_years(self.date_time.date, years))
    }

    fn plus_months(self, months: i64) -> (result: OffsetDateTime) {
        self.having_date(LocalDate::shifted_by_months(self.date_time.date, months))
    }

    fn minus_months(self, months: i64) -> (result: OffsetDateTime) {
        self.having_date(LocalDate::shifted_by_months(self.date_time.date, -months))
    }

    fn plus_weeks(self, weeks: i64) -> (result: OffsetDateTime) {
        self.having_date(LocalDate::plus_weeks(self.date_time.date, weeks))
    }

    fn minus_weeks(self, weeks: i64) -> (result: OffsetDateTime) {
        self.having_date(LocalDate::minus_weeks(self.date_time.date, weeks))
    }

    fn plus_days(self, days: i64) -> (result: OffsetDateTime) {
        self.having_date(LocalDate::plus_days(self.date_time.date, days))
    }

    fn minus_days(self, days: i64) -> (result: OffsetDateTime) {
        self.having_date(LocalDate::minus_days(self.date_time.date, days))
    }

    fn with_year(self, year: i32) -> (result: OffsetDateTime) {
        self.having_date(LocalDate::with_year(self.date_time.date, year))
    }

    fn with_month(self, month: i32) -> (result: OffsetDateTime) {
        self.having_date(LocalDate::with_month(self.date_time.date, month))
    }

    fn with_day_of_month(self, day: u8) -> (result: OffsetDateTime) {
        self.having_date(LocalDate::with_day_of_month(self.date_time.date, day as i32))
    }

    fn with_day_of_year(self, day_of_year: u16) -> (result: OffsetDateTime) {
        self.having_date(LocalDate::with_day_of_year(self.date_time.date, day_of_year))
    }

    fn first_day_of_month(self) -> (result: OffsetDateTime) {
        self.having_date(LocalDate::first_day_of_month(self.date_time.date))
    }

    fn last_day_of_month(self) -> (result: OffsetDateTime) {
        self.having_date(LocalDate::last_day_of_month(self.date_time.date))
    }

    fn first_day_of_year(self) -> (result: OffsetDateTime) {
        self.having_date(LocalDate::first_day_of_year(self.date_time.date))
    }

    fn last_day_of_year(self) -> (result: OffsetDateTime) {
        self.having_date(LocalDate::last_day_of_year(self.date_time.date))
    }

    fn first_in_month(self, dow: DayOfWeek) -> (result: OffsetDateTime) {
        self.having_date(LocalDate::first_in_month(self.date_time.date, dow))
    }

    fn last_in_month(self, dow: DayOfWeek) -> (result: OffsetDateTime) {
        self.having_date(LocalDate::last_in_month(self.date_time.date, dow))
    }

    fn next(self, dow: DayOfWeek) -> (result: OffsetDateTime) {
        self.having_date(LocalDate::next(self.date_time.date, dow))
    }

    fn next_or_same(self, dow: DayOfWeek) -> (result: OffsetDateTime) {
        self.having_date(LocalDate::next_or_same(self.date_time.date, dow))
    }

    fn previous(self, dow: DayOfWeek) -> (result: OffsetDateTime) {
        self.having_date(LocalDate::previous(self.date_time.date, dow))
    }

    fn previous_or_same(self, dow: DayOfWeek) -> (result: OffsetDateTime) {
        self.having_date(LocalDate::previous_or_same(self.date_time.date, dow))
    }
}

impl TemporalTime for OffsetDateTime {
    open spec fn time_part(self) -> LocalTime {
        self.date_time.time
    }

    open spec fn with_time_part(self, time: LocalTime) -> OffsetDateTime {
        OffsetDateTime {
            date_time: LocalDateTime { date: self.date_time.date, time },
            ..self
        }
    }

    open spec fn can_shift(self, nanos: int) -> bool {
        self.date_time.can_move_by(nanos)
    }

    fn hour(self) -> (hour: u8) {
        self.date_time.time.hour
    }

    fn minute(self) -> (minute: u8) {
        self.date_time.time.minute
    }

    fn second(self) -> (second: u8) {
        self.date_time.time.second
    }

    fn millisecond(self) -> (millisecond: u16) {
        (self.date_time.time.nano / 1_000_000) as u16
    }

    fn nanosecond(self) -> (nanosecond: i32) {
        self.date_time.time.nano as i32
    }

    fn total_nanoseconds_of_day(self) -> (nanos: u128) {
        LocalTime::to_nanos_of_day(self.date_time.time) as u128
    }

    fn plus_hours(self, hours: i64) -> (result: OffsetDateTime) {
        let result = self.moved_by((hours as i128) * 3_600_000_000_000);
        proof {
            lemma_time_units_carry_into_date(
                self.date_time,
                result.date_time,
                hours * 3_600_000_000_000,
            );
        }
        result
    }

    fn plus_minutes(self, minutes: i64) -> (result: OffsetDateTime) {
        let result = self.moved_by((minutes as i128) * 60_000_000_000);
        proof {
            lemma_time_units_carry_into_date(
                self.date_time,
                result.date_time,
                minutes * 60_000_000_000,
            );
        }
        result
    }

    fn plus_seconds(self, seconds: i64) -> (result: OffsetDateTime) {
        let result = self.moved_by((seconds as i128) * 1_000_000_000);
        proof {
            lemma_time_units_carry_into_date(
                self.date_time,
                result.date_time,
                seconds * 1_000_000_000,
            );
        }
        result
    }

    fn plus_milliseconds(self, milliseconds: i64) -> (result: OffsetDateTime) {
        let result = self.moved_by((milliseconds as i128) * 1_000_000);
        proof {
            lemma_time_units_carry_into_date(
                self.date_time,
                result.date_time,
                milliseconds * 1_000_000,
            );
        }
        result
    }

    fn plus_nanoseconds(self, nanoseconds: i64) -> (result: OffsetDateTime) {
        let result = self.moved_by(nanoseconds as i128);
        proof {
            lemma_time_units_carry_into_date(self.date_time, result.date_time, nanoseconds as int);
        }
        result
    }

    fn minus_hours(self, hours: i64) -> (result: OffsetDateTime) {
        let result = self.moved_by(-((hours as i128) * 3_600_000_000_000));
        proof {
            lemma_time_units_carry_into_date(
                self.date_time,
                result.date_time,
                -(hours * 3_600_000_000_000),
            );
        }
        result
    }

    fn minus_minutes(self, minutes: i64) -> (result: OffsetDateTime) {
        let result = self.moved_by(-((minutes as i128) * 60_000_000_000));
        proof {
            lemma_time_units_carry_into_date(
                self.date_time,
                result.date_time,
                -(minutes * 60_000_000_000),
            );
        }
        result
    }

    fn minus_seconds(self, seconds: i64) -> (result: OffsetDateTime) {
        let result = self.moved_by(-((seconds as i128) * 1_000_000_000));
        proof {
            lemma_time_units_carry_into_date(
                self.date_time,
                result.date_time,
                -(seconds * 1_000_000_000),
            );
        }
        result
    }

    fn minus_milliseconds(self, milliseconds: i64) -> (result: OffsetDateTime) {
        let result = self.moved_by(-((milliseconds as i128) * 1_000_000));
        proof {
            lemma_time_units_carry_into_date(
                self.date_time,
                result.date_time,
                -(milliseconds * 1_000_000),
            );
        }
        result
    }

    fn minus_nanoseconds(self, nanoseconds: i64) -> (result: OffsetDateTime) {
        let result = self.moved_by(-(nanoseconds as i128));
        proof {
            lemma_time_units_carry_into_date(
                self.date_time,
                result.date_time,
                -(nanoseconds as int),
            );
        }
        result
    }

    fn with_hour(self, hour: u8) -> (result: OffsetDateTime) {
        self.having_time(LocalTime::with_hour(self.date_time.time, hour))
    }

    fn with_minute(self, minute: u8) -> (result: OffsetDateTime) {
        self.having_time(LocalTime::with_minute(self.date_time.time, minute))
    }

    fn with_second(self, second: u8) -> (result: OffsetDateTime) {
        self.having_time(LocalTime::with_second(self.date_time.time, second))
    }

    fn with_millisecond(self, millisecond: u16) -> (result: OffsetDateTime) {
        self.having_time(LocalTime::with_millisecond(self.date_time.time, millisecond))
    }

    fn with_nanosecond(self, nanosecond: u32) -> (result: OffsetDateTime) {
        self.having_time(LocalTime::with_nanosecond(self.date_time.time, nanosecond))
    }
}

impl TemporalDateTime for OffsetDateTime {
    fn to_local_date(self) -> (date: LocalDate) {
        self.date_time.date
    }

    fn to_local_time(self) -> (time: LocalTime) {
        self.date_time.time
    }

    fn to_local_date_time(self) -> (date_time: LocalDateTime) {
        LocalDateTime { date: self.date_time.date, time: self.date_time.time }
    }
}

impl Temporal for ZonedDateTime {
    open spec fn well_formed(self) -> bool {
        self.wf()
    }

    open spec fn position(self) -> int {
        self.instant_nanos()
    }

    fn is_before(self, other: ZonedDateTime) -> (before: bool) {
        ZonedDateTime::is_before(self, other)
    }

    fn is_after(self, other: ZonedDateTime) -> (after: bool) {
        ZonedDateTime::is_after(self, other)
    }

    fn is_on_or_before(self, other: ZonedDateTime) -> (on_or_before: bool) {
        ZonedDateTime::is_on_or_before(self, other)
    }

    fn is_on_or_after(self, other: ZonedDateTime) -> (on_or_after: bool) {
        ZonedDateTime::is_on_or_after(self, other)
    }
}

impl TemporalDate for ZonedDateTime {
    open spec fn date_part(self) -> LocalDate {
        self.date_time.date
    }

    open spec fn with_date_part(self, date: LocalDate) -> ZonedDateTime {
        ZonedDateTime {
            date_time: LocalDateTime { date, time: self.date_time.time },
            ..self
        }
    }

    fn year(self) -> (year: i32) {
        LocalDate::year(self.date_time.date)
    }

    fn month(self) -> (month: Month) {
        LocalDate::month(self.date_time.date)
    }

    fn month_value(self) -> (month: i32) {
        LocalDate::month_value(self.date_time.date)
    }

    fn day_of_year(self) -> (ordinal: u16) {
        LocalDate::day_of_year(self.date_time.date) as u16
    }

    fn day_of_month(self) -> (day: u8) {
        self.date_time.date.day
    }

    fn day_of_week(self) -> (day: DayOfWeek) {
        LocalDate::day_of_week(self.date_time.date)
    }

    fn length_of_month(self) -> (days: i32) {
        LocalDate::length_of_month(self.date_time.date)
    }

    fn is_leap_year(self) -> (leap: bool) {
        LocalDate::is_leap_year(self.date_time.date)
    }

    fn length_of_year(self) -> (days: i32) {
        LocalDate::length_of_year(self.date_time.date)
    }

    fn plus_years(self, years: i64) -> (result: ZonedDateTime) {
        self.having_date(LocalDate::plus_years(self.date_time.date, years))
    }

    fn minus_years(self, years: i64) -> (result: ZonedDateTime) {
        self.having_date(LocalDate::minus_years(self.date_time.date, years))
    }

    fn plus_months(self, months: i64) -> (result: ZonedDateTime) {
        self.having_date(LocalDate::shifted_by_months(self.date_time.date, months))
    }

    fn minus_months(self, months: i64) -> (result: ZonedDateTime) {
        self.having_date(LocalDate::shifted_by_months(self.date_time.date, -months))
    }

    fn plus_weeks(self, weeks: i64) -> (result: ZonedDateTime) {
        self.having_date(LocalDate::plus_weeks(self.date_time.date, weeks))
    }

    fn minus_weeks(self, weeks: i64) -> (result: ZonedDateTime) {
        self.having_date(LocalDate::minus_weeks(self.date_time.date, weeks))
    }

    fn plus_days(self, days: i64) -> (result: ZonedDateTime) {
        self.having_date(LocalDate::plus_days(self.date_time.date, days))
    }

    fn minus_days(self, days: i64) -> (result: ZonedDateTime) {
        self.having_date(LocalDate::minus_days(self.date_time.date, days))
    }

    fn with_year(self, year: i32) -> (result: ZonedDateTime) {
        self.having_date(LocalDate::with_year(self.date_time.date, year))
    }

    fn with_month(self, month: i32) -> (result: ZonedDateTime) {
        self.having_date(LocalDate::with_month(self.date_time.date, month))
    }

    fn with_day_of_month(self, day: u8) -> (result: ZonedDateTime) {
        self.having_date(LocalDate::with_day_of_month(self.date_time.date, day as i32))
    }

    fn with_day_of_year(self, day_of_year: u16) -> (result: ZonedDateTime) {
        self.having_date(LocalDate::with_day_of_year(self.date_time.date, day_of_year))
    }

    fn first_day_of_month(self) -> (result: ZonedDateTime) {
        self.having_date(LocalDate::first_day_of_month(self.date_time.date))
    }

    fn last_day_of_month(self) -> (result: ZonedDateTime) {
        self.having_date(LocalDate::last_day_of_month(self.date_time.date))
    }

    fn first_day_of_year(self) -> (result: ZonedDateTime) {
        self.having_date(LocalDate::first_day_of_year(self.date_time.date))
    }

    fn last_day_of_year(self) -> (result: ZonedDateTime) {
        self.having_date(LocalDate::last_day_of_year(self.date_time.date))
    }

    fn first_in_month(self, dow: DayOfWeek) -> (result: ZonedDateTime) {
        self.having_date(LocalDate::first_in_month(self.date_time.date, dow))
    }

    fn last_in_month(self, dow: DayOfWeek) -> (result: ZonedDateTime) {
        self.having_date(LocalDate::last_in_month(self.date_time.date, dow))
    }

    fn next(self, dow: DayOfWeek) -> (result: ZonedDateTime) {
        self.having_date(LocalDate::next(self.date_time.date, dow))
    }

    fn next_or_same(self, dow: DayOfWeek) -> (result: ZonedDateTime) {
        self.having_date(LocalDate::next_or_same(self.date_time.date, dow))
    }

    fn previous(self, dow: DayOfWeek) -> (result: ZonedDateTime) {
        self.having_date(LocalDate::previous(self.date_time.date, dow))
    }

    fn previous_or_same(self, dow: DayOfWeek) -> (result: ZonedDateTime) {
        self.having_date(LocalDate::previous_or_same(self.date_time.date, dow))
    }
}

impl TemporalTime for ZonedDateTime {
    open spec fn time_part(self) -> LocalTime {
        self.date_time.time
    }

    open spec fn with_time_part(self, time: LocalTime) -> ZonedDateTime {
        ZonedDateTime {
            date_time: LocalDateTime { date: self.date_time.date, time },
            ..self
        }
    }

    open spec fn can_shift(self, nanos: int) -> bool {
        self.date_time.can_move_by(nanos)
    }

    fn hour(self) -> (hour: u8) {
        self.date_time.time.hour
    }

    fn minute(self) -> (minute: u8) {
        self.date_time.time.minute
    }

    fn second(self) -> (second: u8) {
        self.date_time.time.second
    }

    fn millisecond(self) -> (millisecond: u16) {
        (self.date_time.time.nano / 1_000_000) as u16
    }

    fn nanosecond(self) -> (nanosecond: i32) {
        self.date_time.time.nano as i32
    }

    fn total_nanoseconds_of_day(self) -> (nanos: u128) {
        LocalTime::to_nanos_of_day(self.date_time.time) as u128
    }

    fn plus_hours(self, hours: i64) -> (result: ZonedDateTime) {
        let result = self.moved_by((hours as i128) * 3_600_000_000_000);
        proof {
            lemma_time_units_carry_into_date(
                self.date_time,
                result.date_time,
                hours * 3_600_000_000_000,
            );
        }
        result
    }

    fn plus_minutes(self, minutes: i64) -> (result: ZonedDateTime) {
        let result = self.moved_by((minutes as i128) * 60_000_000_000);
        proof {
            lemma_time_units_carry_into_date(
                self.date_time,
                result.date_time,
                minutes * 60_000_000_000,
            );
        }
        result
    }

    fn plus_seconds(self, seconds: i64) -> (result: ZonedDateTime) {
        let result = self.moved_by((seconds as i128) * 1_000_000_000);
        proof {
            lemma_time_units_carry_into_date(
                self.date_time,
                result.date_time,
                seconds * 1_000_000_000,
            );
        }
        result
    }

    fn plus_milliseconds(self, milliseconds: i64) -> (result: ZonedDateTime) {
        let result = self.moved_by((milliseconds as i128) * 1_000_000);
        proof {
            lemma_time_units_carry_into_date(
                self.date_time,
                result.date_time,
                milliseconds * 1_000_000,
            );
        }
        result
    }

    fn plus_nanoseconds(self, nanoseconds: i64) -> (result: ZonedDateTime) {
        let result = self.moved_by(nanoseconds as i128);
        proof {
            lemma_time_units_carry_into_date(self.date_time, result.date_time, nanoseconds as int);
        }
        result
    }

    fn minus_hours(self, hours: i64) -> (result: ZonedDateTime) {
        let result = self.moved_by(-((hours as i128) * 3_600_000_000_000));
        proof {
            lemma_time_units_carry_into_date(
                self.date_time,
                result.date_time,
                -(hours * 3_600_000_000_000),
            );
        }
        result
    }

    fn minus_minutes(self, minutes: i64) -> (result: ZonedDateTime) {
        let result = self.moved_by(-((minutes as i128) * 60_000_000_000));
        proof {
            lemma_time_units_carry_into_date(
                self.date_time,
                result.date_time,
                -(minutes * 60_000_000_000),
            );
        }
        result
    }

    fn minus_seconds(self, seconds: i64) -> (result: ZonedDateTime) {
        let result = self.moved_by(-((seconds as i128) * 1_000_000_000));
        proof {
            lemma_time_units_carry_into_date(
                self.date_time,
                result.date_time,
                -(seconds * 1_000_000_000),
            );
        }
        result
    }

    fn minus_milliseconds(self, milliseconds: i64) -> (result: ZonedDateTime) {
        let result = self.moved_by(-((milliseconds as i128) * 1_000_000));
        proof {
            lemma_time_units_carry_into_date(
                self.date_time,
                result.date_time,
                -(milliseconds * 1_000_000),
            );
        }
        result
    }

    fn minus_nanoseconds(self, nanoseconds: i64) -> (result: ZonedDateTime) {
        let result = self.moved_by(-(nanoseconds as i128));
        proof {
            lemma_time_units_carry_into_date(
                self.date_time,
                result.date_time,
                -(nanoseconds as int),
            );
        }
        result
    }

    fn with_hour(self, hour: u8) -> (result: ZonedDateTime) {
        self.having_time(LocalTime::with_hour(self.date_time.time, hour))
    }

    fn with_minute(self, minute: u8) -> (result: ZonedDateTime) {
        self.having_time(LocalTime::with_minute(self.date_time.time, minute))
    }

    fn with_second(self, second: u8) -> (result: ZonedDateTime) {
        self.having_time(LocalTime::with_second(self.date_time.time, second))
    }

    fn with_millisecond(self, millisecond: u16) -> (result: ZonedDateTime) {
        self.having_time(LocalTime::with_millisecond(self.date_time.time, millisecond))
    }

    fn with_nanosecond(self, nanosecond: u32) -> (result: ZonedDateTime) {
        self.having_time(LocalTime::with_nanosecond(self.date_time.time, nanosecond))
    }
}

impl TemporalDateTime for ZonedDateTime {
    fn to_local_date(self) -> (date: LocalDate) {
        self.date_time.date
    }

    fn to_local_time(self) -> (time: LocalTime) {
        self.date_time.time
    }

    fn to_local_date_time(self) -> (date_time: LocalDateTime) {
        LocalDateTime { date: self.date_time.date, time: self.date_time.time }
    }
}

} // verus!
