//! A date and time together with the time zone it is read in.

use vstd::prelude::*;
use crate::calendar::{
    days_in_month, days_in_year, is_leap_year, valid_date, MAX_YEAR, MIN_YEAR,
};
use crate::clock::Clock;
use crate::day_of_week::DayOfWeek;
use crate::instant::Instant;
use crate::local_date::LocalDate;
use crate::local_date_time::{LocalDateTime, MAX_LOCAL_NANOS, MIN_LOCAL_NANOS};
use crate::local_time::{LocalTime, NANOS_PER_DAY};
use crate::month::{month_from_number, Month};
use crate::temporal::TemporalInstant;
use crate::zone_id::{zone_is_known, ZoneId};
use crate::zone_offset::ZoneOffset;

verus! {

/// A date and time as a clock shows it in a time zone, with the offset from
/// UTC that the zone had when the value was made. Arithmetic changes what the
/// clock shows and never the zone or the offset.
#[derive(Debug, Clone, Copy, PartialEq, Eq, Hash)]
pub struct ZonedDateTime {
    pub date_time: LocalDateTime,
    pub offset: ZoneOffset,
    pub zone: ZoneId,
}

impl ZonedDateTime {
    /// The invariant: that of the date and time and that of the offset.
    pub open spec fn wf(self) -> bool {
        self.date_time.wf() && self.offset.wf()
    }

    /// The nanoseconds from the epoch to the instant that this date and time
    /// marks: those to the date and time that the clock shows, less the offset.
    pub open spec fn instant_nanos(self) -> int {
        self.date_time.local_nanos() - self.offset.seconds * 1_000_000_000
    }

    /// This value with another date and time, in the same zone and at the
    /// same offset.
    fn with_local(self, date_time: LocalDateTime) -> (result: ZonedDateTime)
        requires
            self.wf(),
            date_time.wf(),
        ensures
            result.wf(),
            result == (ZonedDateTime { date_time, ..self }),
    {
        ZonedDateTime { date_time, offset: self.offset, zone: self.zone }
    }

    /// The present moment, as a clock of UTC shows it.
    pub fn now_utc() -> (result: ZonedDateTime)
        ensures
            result.wf(),
            result.offset.seconds == 0,
            result.zone.is_utc(),
    {
        let shown = Instant::now().at_offset(ZoneOffset::utc());
        ZonedDateTime { date_time: shown.date_time, offset: shown.offset, zone: ZoneId::utc() }
    }

    /// The moment that `clock` tells, as a clock in the zone of `clock` shows
    /// it; nothing where the zone database has no offset for the zone.
    pub fn now_with_clock(clock: &Clock) -> (result: Option<ZonedDateTime>)
        requires
            clock.wf(),
        ensures
            clock.zone_of().is_utc() ==> result.is_some(),
            !clock.zone_of().is_utc() && !zone_is_known(clock.zone_of()@) ==> result.is_none(),
            result matches Some(zoned) ==> {
                &&& zoned.wf()
                &&& zoned.zone == clock.zone_of()
                &&& zoned.marks_instant()
                &&& clock.zone_of().is_utc() ==> zoned.offset.seconds == 0
                &&& clock matches Clock::Fixed(fixed) ==> zoned.instant_nanos()
                    == fixed.instant.nanos
            },
    {
        clock.instant().at_zone(clock.zone())
    }

    /// The present moment, as a clock in `zone` shows it; nothing where the
    /// zone database has no offset for the zone.
    pub fn now_with_zone(zone: ZoneId) -> (result: Option<ZonedDateTime>)
        ensures
            zone.is_utc() ==> result.is_some(),
            !zone.is_utc() && !zone_is_known(zone@) ==> result.is_none(),
            result matches Some(zoned) ==> {
                &&& zoned.wf()
                &&& zoned.zone == zone
                &&& zoned.marks_instant()
                &&& zone.is_utc() ==> zoned.offset.seconds == 0
            },
    {
        Instant::now().at_zone(zone)
    }

    /// What [`ZonedDateTime::of`] makes of the offset that the zone database
    /// gave for `zone`: the given date and time in the zone at that offset,
    /// where there is one.
    pub fn of_zone_offset(ldt: LocalDateTime, zone: ZoneId, offset: Option<ZoneOffset>) -> (result:
        Option<ZonedDateTime>)
        requires
            ldt.wf(),
            offset matches Some(o) ==> o.wf(),
        ensures
            match offset {
                Some(o) => result == Some(ZonedDateTime { date_time: ldt, offset: o, zone }),
                None => result.is_none(),
            },
            result matches Some(zoned) ==> zoned.wf(),
    {
        match offset {
            Some(o) => Some(ZonedDateTime { date_time: ldt, offset: o, zone }),
            None => None,
        }
    }

    /// The given date and time, taken as one shown in `zone`, at the offset
    /// that the zone has at the present moment; nothing where the zone
    /// database has no offset for the zone. In UTC there always is one.
    pub fn new(ldt: LocalDateTime, zone: ZoneId) -> (result: Option<ZonedDateTime>)
        requires
            ldt.wf(),
        ensures
            zone.is_utc() ==> result == Some(
                ZonedDateTime { date_time: ldt, offset: ZoneOffset { seconds: 0 }, zone },
            ),
            !zone.is_utc() && !zone_is_known(zone@) ==> result.is_none(),
            result matches Some(zoned) ==> zoned.wf() && zoned.date_time == ldt && zoned.zone
                == zone,
    {
        ZonedDateTime::of_zone_offset(ldt, zone, zone.current_offset())
    }

    /// The given date and time, taken as one of UTC.
    pub fn new_utc(ldt: LocalDateTime) -> (result: ZonedDateTime)
        requires
            ldt.wf(),
        ensures
            result.wf(),
            result.date_time == ldt,
            result.offset.seconds == 0,
            result.zone.is_utc(),
    {
        ZonedDateTime { date_time: ldt, offset: ZoneOffset::utc(), zone: ZoneId::utc() }
    }

    /// The given date and time, taken as one shown in `zone`, at the offset
    /// that the zone has at the present moment; nothing where the zone
    /// database has no offset for the zone. In UTC there always is one.
    pub fn of(ldt: LocalDateTime, zone: ZoneId) -> (result: Option<ZonedDateTime>)
        requires
            ldt.wf(),
        ensures
            zone.is_utc() ==> result == Some(
                ZonedDateTime { date_time: ldt, offset: ZoneOffset { seconds: 0 }, zone },
            ),
            !zone.is_utc() && !zone_is_known(zone@) ==> result.is_none(),
            result matches Some(zoned) ==> zoned.wf() && zoned.date_time == ldt && zoned.zone
                == zone,
    {
        ZonedDateTime::of_zone_offset(ldt, zone, zone.current_offset())
    }

    /// Whether this date and time marks an earlier instant than `other`.
    pub fn is_before(self, other: ZonedDateTime) -> (before: bool)
        requires
            self.wf(),
            other.wf(),
        ensures
            before == (self.instant_nanos() < other.instant_nanos()),
    {
        self.epoch_nanoseconds() < other.epoch_nanoseconds()
    }

    /// Whether this date and time marks a later instant than `other`.
    pub fn is_after(self, other: ZonedDateTime) -> (after: bool)
        requires
            self.wf(),
            other.wf(),
        ensures
            after == (self.instant_nanos() > other.instant_nanos()),
    {
        self.epoch_nanoseconds() > other.epoch_nanoseconds()
    }

    /// Whether this date and time marks the instant of `other` or an earlier one.
    pub fn is_on_or_before(self, other: ZonedDateTime) -> (on_or_before: bool)
        requires
            self.wf(),
            other.wf(),
        ensures
            on_or_before == (self.instant_nanos() <= other.instant_nanos()),
    {
        self.epoch_nanoseconds() <= other.epoch_nanoseconds()
    }

    /// Whether this date and time marks the instant of `other` or a later one.
    pub fn is_on_or_after(self, other: ZonedDateTime) -> (on_or_after: bool)
        requires
            self.wf(),
            other.wf(),
        ensures
            on_or_after == (self.instant_nanos() >= other.instant_nanos()),
    {
        self.epoch_nanoseconds() >= other.epoch_nanoseconds()
    }

    /// Whether the instant that this date and time marks is one that an
    /// [`Instant`] can hold.
    pub open spec fn marks_instant(self) -> bool {
        Instant::in_range(self.instant_nanos())
    }

    /// Executable form of [`ZonedDateTime::marks_instant`].
    pub fn has_instant(self) -> (marks: bool)
        requires
            self.wf(),
        ensures
            marks == self.marks_instant(),
    {
        let nanos: i128 = self.epoch_nanoseconds();
        MIN_LOCAL_NANOS <= nanos && nanos <= MAX_LOCAL_NANOS
    }

    /// The instant that this date and time marks, to the whole second below it.
    pub fn to_instant(self) -> (instant: Instant)
        requires
            self.wf(),
            self.marks_instant(),
        ensures
            instant.wf(),
            instant.nanos == (self.instant_nanos() / 1_000_000_000) * 1_000_000_000,
    {
        Instant::of_epoch_second(self.epoch_seconds())
    }

    /// The date that the clock shows.
    pub fn to_local_date(self) -> (date: LocalDate)
        ensures
            date == self.date_time.date,
    {
        self.date_time.date
    }

    /// The time of day that the clock shows.
    pub fn to_local_time(self) -> (time: LocalTime)
        ensures
            time == self.date_time.time,
    {
        self.date_time.time
    }

    /// The date and time that the clock shows.
    pub fn to_local_date_time(self) -> (date_time: LocalDateTime)
        ensures
            date_time == self.date_time,
    {
        self.date_time
    }

    /// The whole seconds from the epoch to the instant that this date and
    /// time marks, rounded down.
    pub fn epoch_seconds(self) -> (seconds: i64)
        requires
            self.wf(),
        ensures
            seconds == self.instant_nanos() / 1_000_000_000,
    {
        let local: i64 = self.date_time.epoch_seconds();
        let seconds: i64 = local - (self.offset.seconds as i64);
        assert(self.instant_nanos() == self.date_time.local_nanos() - self.offset.seconds
            * 1_000_000_000);
        assert(self.date_time.local_nanos() == local * 1_000_000_000 + self.date_time.time.nano);
        seconds
    }

    /// The nanoseconds from the epoch to the instant that this date and time marks.
    pub fn epoch_nanoseconds(self) -> (nanoseconds: i128)
        requires
            self.wf(),
        ensures
            nanoseconds == self.instant_nanos(),
    {
        self.date_time.to_local_nanos() - (self.offset.seconds as i128) * 1_000_000_000
    }

    /// The year.
    pub fn year(self) -> (year: i32)
        ensures
            year == self.date_time.date.year,
    {
        self.date_time.year()
    }

    /// The month.
    pub fn month(self) -> (month: Month)
        requires
            self.wf(),
        ensures
            month == month_from_number(self.date_time.date.month as int),
            month.number() == self.date_time.date.month,
    {
        self.date_time.month()
    }

    /// The number of the month, from 1 to 12.
    pub fn month_value(self) -> (month: i32)
        ensures
            month == self.date_time.date.month,
    {
        self.date_time.month_value()
    }

    /// The position of the date within its year, from 1.
    pub fn day_of_year(self) -> (ordinal: i32)
        requires
            self.wf(),
        ensures
            ordinal == self.date_time.date.ordinal(),
    {
        self.date_time.day_of_year()
    }

    /// The day of the month, from 1.
    pub fn day_of_month(self) -> (day: i32)
        ensures
            day == self.date_time.date.day,
    {
        self.date_time.day_of_month()
    }

    /// The day of the week that the date falls on.
    pub fn day_of_week(self) -> (day: DayOfWeek)
        requires
            self.wf(),
        ensures
            day == self.date_time.date.weekday(),
    {
        self.date_time.day_of_week()
    }

    /// The number of days in the date's month.
    pub fn length_of_month(self) -> (days: i32)
        requires
            self.wf(),
        ensures
            days == days_in_month(
                self.date_time.date.year as int,
                self.date_time.date.month as int,
            ),
    {
        self.date_time.length_of_month()
    }

    /// Whether the date's year is a leap year.
    pub fn is_leap_year(self) -> (leap: bool)
        ensures
            leap == is_leap_year(self.date_time.date.year as int),
    {
        self.date_time.is_leap_year()
    }

    /// The number of days in the date's year.
    pub fn length_of_year(self) -> (days: i32)
        ensures
            days == days_in_year(self.date_time.date.year as int),
    {
        self.date_time.length_of_year()
    }

    /// The hour of the day, from 0 to 23.
    pub fn hour(self) -> (hour: i32)
        ensures
            hour == self.date_time.time.hour,
    {
        self.date_time.hour()
    }

    /// The minute of the hour, from 0 to 59.
    pub fn minute(self) -> (minute: i32)
        ensures
            minute == self.date_time.time.minute,
    {
        self.date_time.minute()
    }

    /// The second of the minute, from 0 to 59.
    pub fn second(self) -> (second: i32)
        ensures
            second == self.date_time.time.second,
    {
        self.date_time.second()
    }

    /// The millisecond of the second, from 0 to 999.
    pub fn millisecond(self) -> (millisecond: i32)
        requires
            self.wf(),
        ensures
            millisecond == self.date_time.time.nano / 1_000_000,
    {
        self.date_time.millisecond()
    }

    /// The nanosecond of the second, from 0 to 999_999_999.
    pub fn nanosecond(self) -> (nanosecond: i32)
        requires
            self.wf(),
        ensures
            nanosecond == self.date_time.time.nano,
    {
        self.date_time.nanosecond()
    }

    /// The same time of day `years` years later, at the same zone and offset; see
    /// [`LocalDate::plus_years`].
    pub fn plus_years(self, years: i64) -> (result: ZonedDateTime)
        requires
            self.wf(),
            MIN_YEAR <= self.date_time.date.year + years <= MAX_YEAR,
        ensures
            result.wf(),
            result == (ZonedDateTime {
                date_time: LocalDateTime {
                    date: self.date_time.date.years_later(years as int),
                    time: self.date_time.time,
                },
                ..self
            }),
    {
        self.with_local(self.date_time.plus_years(years))
    }

    /// The same time of day `months` months later, at the same zone and offset; see
    /// [`LocalDate::plus_months`].
    pub fn plus_months(self, months: i64) -> (result: ZonedDateTime)
        requires
            self.wf(),
            MIN_YEAR <= (self.date_time.date.month_count() + months) / 12 <= MAX_YEAR,
        ensures
            result.wf(),
            result == (ZonedDateTime {
                date_time: LocalDateTime {
                    date: self.date_time.date.months_later(months as int),
                    time: self.date_time.time,
                },
                ..self
            }),
    {
        let date: LocalDate = self.date_time.date.shifted_by_months(months);
        self.with_local(LocalDateTime { date, time: self.date_time.time })
    }

    /// The same time of day `years` years earlier, at the same zone and offset: the
    /// negated count of years later.
    pub fn minus_years(self, years: i64) -> (result: ZonedDateTime)
        requires
            self.wf(),
            MIN_YEAR <= self.date_time.date.year - years <= MAX_YEAR,
        ensures
            result.wf(),
            result == (ZonedDateTime {
                date_time: LocalDateTime {
                    date: self.date_time.date.years_earlier(years as int),
                    time: self.date_time.time,
                },
                ..self
            }),
    {
        self.plus_years(-years)
    }

    /// The same time of day `months` months earlier, at the same zone and offset: the
    /// negated count of months later.
    pub fn minus_months(self, months: i64) -> (result: ZonedDateTime)
        requires
            self.wf(),
            MIN_YEAR <= (self.date_time.date.month_count() - months) / 12 <= MAX_YEAR,
        ensures
            result.wf(),
            result == (ZonedDateTime {
                date_time: LocalDateTime {
                    date: self.date_time.date.months_earlier(months as int),
                    time: self.date_time.time,
                },
                ..self
            }),
    {
        self.plus_months(-months)
    }

    /// The date and time `weeks` weeks later, at the same zone and offset. It must
    /// be one that this library can hold.
    pub fn plus_weeks(self, weeks: i64) -> (result: ZonedDateTime)
        requires
            self.wf(),
            self.date_time.can_move_by(weeks * 7 * NANOS_PER_DAY),
        ensures
            result.wf(),
            result == (ZonedDateTime { date_time: result.date_time, ..self }),
            result.date_time.local_nanos()
                == self.date_time.local_nanos() + weeks * 7 * NANOS_PER_DAY,
    {
        self.with_local(self.date_time.plus_nanos_exact((weeks as i128) * 604_800_000_000_000))
    }

    /// The date and time `days` days later, at the same zone and offset. It must
    /// be one that this library can hold.
    pub fn plus_days(self, days: i64) -> (result: ZonedDateTime)
        requires
            self.wf(),
            self.date_time.can_move_by(days * NANOS_PER_DAY),
        ensures
            result.wf(),
            result == (ZonedDateTime { date_time: result.date_time, ..self }),
            result.date_time.local_nanos() == self.date_time.local_nanos() + days * NANOS_PER_DAY,
    {
        self.with_local(self.date_time.plus_nanos_exact((days as i128) * 86_400_000_000_000))
    }

    /// The date and time `hours` hours later, at the same zone and offset. It must
    /// be one that this library can hold.
    pub fn plus_hours(self, hours: i64) -> (result: ZonedDateTime)
        requires
            self.wf(),
            self.date_time.can_move_by(hours * 3_600_000_000_000),
        ensures
            result.wf(),
            result == (ZonedDateTime { date_time: result.date_time, ..self }),
            result.date_time.local_nanos()
                == self.date_time.local_nanos() + hours * 3_600_000_000_000,
    {
        self.with_local(self.date_time.plus_nanos_exact((hours as i128) * 3_600_000_000_000))
    }

    /// The date and time `minutes` minutes later, at the same zone and offset. It must
    /// be one that this library can hold.
    pub fn plus_minutes(self, minutes: i64) -> (result: ZonedDateTime)
        requires
            self.wf(),
            self.date_time.can_move_by(minutes * 60_000_000_000),
        ensures
            result.wf(),
            result == (ZonedDateTime { date_time: result.date_time, ..self }),
            result.date_time.local_nanos()
                == self.date_time.local_nanos() + minutes * 60_000_000_000,
    {
        self.with_local(self.date_time.plus_nanos_exact((minutes as i128) * 60_000_000_000))
    }

    /// The date and time `seconds` seconds later, at the same zone and offset. It must
    /// be one that this library can hold.
    pub fn plus_seconds(self, seconds: i64) -> (result: ZonedDateTime)
        requires
            self.wf(),
            self.date_time.can_move_by(seconds * 1_000_000_000),
        ensures
            result.wf(),
            result == (ZonedDateTime { date_time: result.date_time, ..self }),
            result.date_time.local_nanos()
                == self.date_time.local_nanos() + seconds * 1_000_000_000,
    {
        self.with_local(self.date_time.plus_nanos_exact((seconds as i128) * 1_000_000_000))
    }

    /// The date and time `milliseconds` milliseconds later, at the same zone and offset. It must
    /// be one that this library can hold.
    pub fn plus_milliseconds(self, milliseconds: i64) -> (result: ZonedDateTime)
        requires
            self.wf(),
            self.date_time.can_move_by(milliseconds * 1_000_000),
        ensures
            result.wf(),
            result == (ZonedDateTime { date_time: result.date_time, ..self }),
            result.date_time.local_nanos()
                == self.date_time.local_nanos() + milliseconds * 1_000_000,
    {
        self.with_local(self.date_time.plus_nanos_exact((milliseconds as i128) * 1_000_000))
    }

    /// The date and time `nanoseconds` nanoseconds later, at the same zone and offset. It must
    /// be one that this library can hold.
    pub fn plus_nanoseconds(self, nanoseconds: i64) -> (result: ZonedDateTime)
        requires
            self.wf(),
            self.date_time.can_move_by((nanoseconds as int)),
        ensures
            result.wf(),
            result == (ZonedDateTime { date_time: result.date_time, ..self }),
            result.date_time.local_nanos() == self.date_time.local_nanos() + (nanoseconds as int),
    {
        self.with_local(self.date_time.plus_nanos_exact(nanoseconds as i128))
    }

    /// The date and time `weeks` weeks earlier, at the same zone and offset. It must
    /// be one that this library can hold.
    pub fn minus_weeks(self, weeks: i64) -> (result: ZonedDateTime)
        requires
            self.wf(),
            self.date_time.can_move_by(-(weeks * 7 * NANOS_PER_DAY)),
        ensures
            result.wf(),
            result == (ZonedDateTime { date_time: result.date_time, ..self }),
            result.date_time.local_nanos()
                == self.date_time.local_nanos() - weeks * 7 * NANOS_PER_DAY,
    {
        self.with_local(self.date_time.plus_nanos_exact(-((weeks as i128) * 604_800_000_000_000)))
    }

    /// The date and time `days` days earlier, at the same zone and offset. It must
    /// be one that this library can hold.
    pub fn minus_days(self, days: i64) -> (result: ZonedDateTime)
        requires
            self.wf(),
            self.date_time.can_move_by(-(days * NANOS_PER_DAY)),
        ensures
            result.wf(),
            result == (ZonedDateTime { date_time: result.date_time, ..self }),
            result.date_time.local_nanos() == self.date_time.local_nanos() - days * NANOS_PER_DAY,
    {
        self.with_local(self.date_time.plus_nanos_exact(-((days as i128) * 86_400_000_000_000)))
    }

    /// The date and time `hours` hours earlier, at the same zone and offset. It must
    /// be one that this library can hold.
    pub fn minus_hours(self, hours: i64) -> (result: ZonedDateTime)
        requires
            self.wf(),
            self.date_time.can_move_by(-(hours * 3_600_000_000_000)),
        ensures
            result.wf(),
            result == (ZonedDateTime { date_time: result.date_time, ..self }),
            result.date_time.local_nanos()
                == self.date_time.local_nanos() - hours * 3_600_000_000_000,
    {
        self.with_local(self.date_time.plus_nanos_exact(-((hours as i128) * 3_600_000_000_000)))
    }

    /// The date and time `minutes` minutes earlier, at the same zone and offset. It must
    /// be one that this library can hold.
    pub fn minus_minutes(self, minutes: i64) -> (result: ZonedDateTime)
        requires
            self.wf(),
            self.date_time.can_move_by(-(minutes * 60_000_000_000)),
        ensures
            result.wf(),
            result == (ZonedDateTime { date_time: result.date_time, ..self }),
            result.date_time.local_nanos()
                == self.date_time.local_nanos() - minutes * 60_000_000_000,
    {
        self.with_local(self.date_time.plus_nanos_exact(-((minutes as i128) * 60_000_000_000)))
    }

    /// The date and time `seconds` seconds earlier, at the same zone and offset. It must
    /// be one that this library can hold.
    pub fn minus_seconds(self, seconds: i64) -> (result: ZonedDateTime)
        requires
            self.wf(),
            self.date_time.can_move_by(-(seconds * 1_000_000_000)),
        ensures
            result.wf(),
            result == (ZonedDateTime { date_time: result.date_time, ..self }),
            result.date_time.local_nanos()
                == self.date_time.local_nanos() - seconds * 1_000_000_000,
    {
        self.with_local(self.date_time.plus_nanos_exact(-((seconds as i128) * 1_000_000_000)))
    }

    /// The date and time `milliseconds` milliseconds earlier, at the same zone and offset. It must
    /// be one that this library can hold.
    pub fn minus_milliseconds(self, milliseconds: i64) -> (result: ZonedDateTime)
        requires
            self.wf(),
            self.date_time.can_move_by(-(milliseconds * 1_000_000)),
        ensures
            result.wf(),
            result == (ZonedDateTime { date_time: result.date_time, ..self }),
            result.date_time.local_nanos()
                == self.date_time.local_nanos() - milliseconds * 1_000_000,
    {
        self.with_local(self.date_time.plus_nanos_exact(-((milliseconds as i128) * 1_000_000)))
    }

    /// The date and time `nanoseconds` nanoseconds earlier, at the same zone and offset. It must
    /// be one that this library can hold.
    pub fn minus_nanoseconds(self, nanoseconds: i64) -> (result: ZonedDateTime)
        requires
            self.wf(),
            self.date_time.can_move_by(-((nanoseconds as int))),
        ensures
            result.wf(),
            result == (ZonedDateTime { date_time: result.date_time, ..self }),
            result.date_time.local_nanos() == self.date_time.local_nanos() - (nanoseconds as int),
    {
        self.with_local(self.date_time.plus_nanos_exact(-(nanoseconds as i128)))
    }

    /// This date and time in another year, at the same zone and offset; the day must
    /// exist in that year.
    pub fn with_year(self, year: i32) -> (result: ZonedDateTime)
        requires
            self.wf(),
            valid_date(
                year as int,
                self.date_time.date.month as int,
                self.date_time.date.day as int,
            ),
        ensures
            result.wf(),
            result == (ZonedDateTime {
                date_time: LocalDateTime {
                    date: LocalDate { year, ..self.date_time.date },
                    time: self.date_time.time,
                },
                ..self
            }),
    {
        self.with_local(self.date_time.with_year(year))
    }

    /// This date and time in another month of its year, at the same zone and offset;
    /// the day must exist in that month.
    pub fn with_month(self, month: i32) -> (result: ZonedDateTime)
        requires
            self.wf(),
            valid_date(
                self.date_time.date.year as int,
                month as int,
                self.date_time.date.day as int,
            ),
        ensures
            result.wf(),
            result == (ZonedDateTime {
                date_time: LocalDateTime {
                    date: LocalDate { month: month as u8, ..self.date_time.date },
                    time: self.date_time.time,
                },
                ..self
            }),
    {
        self.with_local(self.date_time.with_month(month))
    }

    /// This time of day on the `day_of_year`-th day of the year, which must
    /// have that many days, at the same zone and offset.
    pub fn with_day_of_year(self, day_of_year: u16) -> (result: ZonedDateTime)
        requires
            self.wf(),
            1 <= day_of_year <= days_in_year(self.date_time.date.year as int),
        ensures
            result.wf(),
            result == (ZonedDateTime { date_time: result.date_time, ..self }),
            result.date_time.time == self.date_time.time,
            result.date_time.date.year == self.date_time.date.year,
            result.date_time.date.ordinal() == day_of_year,
    {
        self.with_local(self.date_time.with_day_of_year(day_of_year))
    }

    /// This date and time on another day of its month, which must have that
    /// day, at the same zone and offset.
    pub fn with_day_of_month(self, day: u8) -> (result: ZonedDateTime)
        requires
            self.wf(),
            valid_date(
                self.date_time.date.year as int,
                self.date_time.date.month as int,
                day as int,
            ),
        ensures
            result.wf(),
            result == (ZonedDateTime {
                date_time: LocalDateTime {
                    date: LocalDate { day, ..self.date_time.date },
                    time: self.date_time.time,
                },
                ..self
            }),
    {
        self.with_local(self.date_time.with_day_of_month(day))
    }

    /// This date and time with the hour replaced. The hour must be below 24.
    pub fn with_hour(self, hour: u8) -> (result: ZonedDateTime)
        requires
            self.wf(),
            hour < 24,
        ensures
            result.wf(),
            result == (ZonedDateTime {
                date_time: LocalDateTime {
                    date: self.date_time.date,
                    time: LocalTime { hour, ..self.date_time.time },
                },
                ..self
            }),
    {
        self.with_local(self.date_time.with_hour(hour))
    }

    /// This date and time with the minute replaced. The minute must be below 60.
    pub fn with_minute(self, minute: u8) -> (result: ZonedDateTime)
        requires
            self.wf(),
            minute < 60,
        ensures
            result.wf(),
            result == (ZonedDateTime {
                date_time: LocalDateTime {
                    date: self.date_time.date,
                    time: LocalTime { minute, ..self.date_time.time },
                },
                ..self
            }),
    {
        self.with_local(self.date_time.with_minute(minute))
    }

    /// This date and time with the second replaced. The second must be below 60.
    pub fn with_second(self, second: u8) -> (result: ZonedDateTime)
        requires
            self.wf(),
            second < 60,
        ensures
            result.wf(),
            result == (ZonedDateTime {
                date_time: LocalDateTime {
                    date: self.date_time.date,
                    time: LocalTime { second, ..self.date_time.time },
                },
                ..self
            }),
    {
        self.with_local(self.date_time.with_second(second))
    }

    /// This date and time with the fraction of the second replaced by
    /// `millisecond` milliseconds. The count must be below 1000.
    pub fn with_millisecond(self, millisecond: u16) -> (result: ZonedDateTime)
        requires
            self.wf(),
            millisecond < 1000,
        ensures
            result.wf(),
            result == (ZonedDateTime {
                date_time: LocalDateTime {
                    date: self.date_time.date,
                    time: LocalTime {
                        nano: (millisecond * 1_000_000) as u32,
                        ..self.date_time.time
                    },
                },
                ..self
            }),
    {
        self.with_local(self.date_time.with_millisecond(millisecond))
    }

    /// This date and time with the nanosecond of the second replaced. The
    /// count must be below 1_000_000_000.
    pub fn with_nanosecond(self, nanosecond: u32) -> (result: ZonedDateTime)
        requires
            self.wf(),
            nanosecond < 1_000_000_000,
        ensures
            result.wf(),
            result == (ZonedDateTime {
                date_time: LocalDateTime {
                    date: self.date_time.date,
                    time: LocalTime { nano: nanosecond, ..self.date_time.time },
                },
                ..self
            }),
    {
        self.with_local(self.date_time.with_nanosecond(nanosecond))
    }
}

impl TemporalInstant for ZonedDateTime {
    open spec fn on_time_line(self) -> bool {
        self.wf()
    }

    open spec fn epoch_nanos(self) -> int {
        self.instant_nanos()
    }

    fn epoch_seconds(self) -> (seconds: i64) {
        ZonedDateTime::epoch_seconds(self)
    }

    fn epoch_milliseconds(self) -> (milliseconds: i128) {
        let seconds: i128 = ZonedDateTime::epoch_seconds(self) as i128;
        let nanos: i128 = ZonedDateTime::epoch_nanoseconds(self);
        seconds * 1_000 + (nanos % 1_000_000_000) / 1_000
    }

    fn epoch_nanoseconds(self) -> (nanoseconds: i128) {
        ZonedDateTime::epoch_nanoseconds(self)
    }
}

/// Arithmetic on the date and time leaves the zone and offset as it is, and moves the
/// instant by as much as it moves the date and time that the clock shows.
pub proof fn lemma_zoned_arithmetic_keeps_zone(before: ZonedDateTime, after: ZonedDateTime)
    requires
        after == (ZonedDateTime { date_time: after.date_time, ..before }),
    ensures
        after.offset == before.offset,
        after.instant_nanos() - before.instant_nanos() == after.date_time.local_nanos()
            - before.date_time.local_nanos(),
{
}

} // verus!
