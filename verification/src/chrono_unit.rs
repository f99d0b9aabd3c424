//! Units of time, and arithmetic that takes its unit as a value.

use vstd::prelude::*;
use crate::calendar::{MAX_JULIAN_DAY, MAX_YEAR, MIN_JULIAN_DAY, MIN_YEAR};
use crate::duration::{truncated_quotient, Duration};
use crate::instant::Instant;
use crate::local_date::LocalDate;
use crate::local_date_time::{saturated_local_nanos, LocalDateTime};
use crate::local_time::{LocalTime, NANOS_PER_DAY};
use crate::temporal::TemporalInstant;

verus! {

/// A unit of time. The first six are lengths of time; the last four are
/// spans of the calendar.
#[derive(Debug, Clone, Copy, PartialEq, Eq, Hash, PartialOrd, Ord, Structural)]
pub enum ChronoUnit {
    Nanos,
    Millis,
    Seconds,
    Minutes,
    Hours,
    HalfDays,
    Days,
    Weeks,
    Months,
    Years,
}

/// `value * factor`, held to the range of `i64`.
pub open spec fn saturated_product(value: int, factor: int) -> int {
    if value * factor > i64::MAX {
        i64::MAX as int
    } else if value * factor < i64::MIN {
        i64::MIN as int
    } else {
        value * factor
    }
}

/// `value * factor`, held to the range of `i64`. The factor is positive.
fn saturating_times(value: i64, factor: i64) -> (product: i64)
    requires
        0 < factor <= 100_000,
    ensures
        product == saturated_product(value as int, factor as int),
{
    assert(-922_337_203_685_477_580_800_000 <= (value as int) * (factor as int)
        <= 922_337_203_685_477_580_700_000) by (nonlinear_arith)
        requires
            -9_223_372_036_854_775_808 <= value <= 9_223_372_036_854_775_807,
            0 < factor <= 100_000,
    ;
    let wide: i128 = (value as i128) * (factor as i128);
    if wide > i64::MAX as i128 {
        i64::MAX
    } else if wide < i64::MIN as i128 {
        i64::MIN
    } else {
        wide as i64
    }
}

impl ChronoUnit {
    /// The length of the unit in nanoseconds. A month counts as 30 days and a
    /// year as 365 days of 86_400 seconds, whatever the calendar says.
    pub open spec fn nanos(self) -> int {
        match self {
            ChronoUnit::Nanos => 1int,
            ChronoUnit::Millis => 1_000_000int,
            ChronoUnit::Seconds => 1_000_000_000int,
            ChronoUnit::Minutes => 60_000_000_000int,
            ChronoUnit::Hours => 3_600_000_000_000int,
            ChronoUnit::HalfDays => 43_200_000_000_000int,
            ChronoUnit::Days => 86_400_000_000_000int,
            ChronoUnit::Weeks => 604_800_000_000_000int,
            ChronoUnit::Months => 2_592_000_000_000_000int,
            ChronoUnit::Years => 31_536_000_000_000_000int,
        }
    }

    /// Whether the unit is a length of time: nanoseconds up to half days.
    pub open spec fn time_based(self) -> bool {
        self is Nanos || self is Millis || self is Seconds || self is Minutes || self is Hours
            || self is HalfDays
    }

    /// The upper-case name of the unit.
    pub open spec fn name(self) -> Seq<char> {
        match self {
            ChronoUnit::Nanos => "NANOS"@,
            ChronoUnit::Millis => "MILLIS"@,
            ChronoUnit::Seconds => "SECONDS"@,
            ChronoUnit::Minutes => "MINUTES"@,
            ChronoUnit::Hours => "HOURS"@,
            ChronoUnit::HalfDays => "HALF_DAYS"@,
            ChronoUnit::Days => "DAYS"@,
            ChronoUnit::Weeks => "WEEKS"@,
            ChronoUnit::Months => "MONTHS"@,
            ChronoUnit::Years => "YEARS"@,
        }
    }

    /// Whether the unit is a length of time: nanoseconds up to half days.
    pub fn is_time_based(self) -> (time_based: bool)
        ensures
            time_based == self.time_based(),
    {
        match self {
            ChronoUnit::Nanos => true,
            ChronoUnit::Millis => true,
            ChronoUnit::Seconds => true,
            ChronoUnit::Minutes => true,
            ChronoUnit::Hours => true,
            ChronoUnit::HalfDays => true,
            _ => false,
        }
    }

    /// Whether the unit is a span of the calendar: days up to years.
    pub fn is_date_based(self) -> (date_based: bool)
        ensures
            date_based == !self.time_based(),
            date_based == (self is Days || self is Weeks || self is Months || self is Years),
    {
        match self {
            ChronoUnit::Days => true,
            ChronoUnit::Weeks => true,
            ChronoUnit::Months => true,
            ChronoUnit::Years => true,
            _ => false,
        }
    }

    /// The length of the unit. A month counts as 30 days and a year as 365.
    pub fn duration(self) -> (duration: Duration)
        ensures
            duration.wf(),
            duration.total_nanos() == self.nanos(),
    {
        match self {
            ChronoUnit::Nanos => Duration::of_nanoseconds(1),
            ChronoUnit::Millis => Duration::of_milliseconds(1),
            ChronoUnit::Seconds => Duration::of_seconds(1),
            ChronoUnit::Minutes => Duration::of_minutes(1),
            ChronoUnit::Hours => Duration::of_hours(1),
            ChronoUnit::HalfDays => Duration::of_hours(12),
            ChronoUnit::Days => Duration::of_days(1),
            ChronoUnit::Weeks => Duration::of_days(7),
            ChronoUnit::Months => Duration::of_days(30),
            ChronoUnit::Years => Duration::of_days(365),
        }
    }

    /// `temporal` moved by `amount` of this unit. The kind of `temporal` must
    /// have a meaning for the unit, and the result must be one it can hold.
    pub fn add_to<T: ChronoAdd + Copy>(self, temporal: T, amount: i64) -> (sum: T)
        requires
            temporal.can_add(self, amount),
        ensures
            temporal.is_sum(self, amount, sum),
    {
        temporal.cu_add(self, amount)
    }

    /// The whole units of this kind from `start_inclusive` to `end_exclusive`,
    /// rounded toward zero; negative when the end comes first. A month counts
    /// as 30 days and a year as 365. The count must fit an `i64`.
    pub fn between<T: TemporalInstant>(self, start_inclusive: T, end_exclusive: T) -> (count: i64)
        requires
            start_inclusive.on_time_line(),
            end_exclusive.on_time_line(),
            i128::MIN <= end_exclusive.epoch_nanos() - start_inclusive.epoch_nanos() <= i128::MAX,
            i64::MIN <= truncated_quotient(
                end_exclusive.epoch_nanos() - start_inclusive.epoch_nanos(),
                self.nanos(),
            ) <= i64::MAX,
        ensures
            count == truncated_quotient(
                end_exclusive.epoch_nanos() - start_inclusive.epoch_nanos(),
                self.nanos(),
            ),
    {
        let nanos_start: i128 = start_inclusive.epoch_nanoseconds();
        let nanos_end: i128 = end_exclusive.epoch_nanoseconds();
        let diff: i128 = nanos_end - nanos_start;
        ChronoUnit::whole_units(diff, self)
    }

    /// The whole units of kind `unit` in `diff` nanoseconds, rounded toward zero.
    pub fn whole_units(diff: i128, unit: ChronoUnit) -> (count: i64)
        requires
            i64::MIN <= truncated_quotient(diff as int, unit.nanos()) <= i64::MAX,
        ensures
            count == truncated_quotient(diff as int, unit.nanos()),
    {
        let unit_nanos: i128 = match unit {
            ChronoUnit::Nanos => 1,
            ChronoUnit::Millis => 1_000_000,
            ChronoUnit::Seconds => 1_000_000_000,
            ChronoUnit::Minutes => 60_000_000_000,
            ChronoUnit::Hours => 3_600_000_000_000,
            ChronoUnit::HalfDays => 43_200_000_000_000,
            ChronoUnit::Days => 86_400_000_000_000,
            ChronoUnit::Weeks => 604_800_000_000_000,
            ChronoUnit::Months => 2_592_000_000_000_000,
            ChronoUnit::Years => 31_536_000_000_000_000,
        };
        assert(unit_nanos == unit.nanos());
        assert(diff > i128::MIN);
        (diff / unit_nanos) as i64
    }

    /// The upper-case name of the unit, such as `HALF_DAYS`.
    pub fn to_string(&self) -> (text: String)
        ensures
            text@ == self.name(),
    {
        let name: &'static str = match self {
            ChronoUnit::Nanos => "NANOS",
            ChronoUnit::Millis => "MILLIS",
            ChronoUnit::Seconds => "SECONDS",
            ChronoUnit::Minutes => "MINUTES",
            ChronoUnit::Hours => "HOURS",
            ChronoUnit::HalfDays => "HALF_DAYS",
            ChronoUnit::Days => "DAYS",
            ChronoUnit::Weeks => "WEEKS",
            ChronoUnit::Months => "MONTHS",
            ChronoUnit::Years => "YEARS",
        };
        name.to_owned()
    }
}

/// A kind of temporal value that can be moved by an amount of a unit.
pub trait ChronoAdd: Sized {
    /// Whether the value can be moved by `amount` of `unit`: the kind of
    /// value has a meaning for the unit, and can hold the result.
    spec fn can_add(self, unit: ChronoUnit, amount: i64) -> bool;

    /// Whether `sum` is this value moved by `amount` of `unit`.
    spec fn is_sum(self, unit: ChronoUnit, amount: i64, sum: Self) -> bool;

    /// This value moved by `amount` of `unit`.
    fn cu_add(self, unit: ChronoUnit, amount: i64) -> (sum: Self)
        requires
            self.can_add(unit, amount),
        ensures
            self.is_sum(unit, amount, sum),
    ;
}

impl ChronoAdd for Instant {
    /// An instant moves by lengths of time only, and the result must be one
    /// that an instant can mark. Minutes, hours and half days are counted in
    /// seconds, held to the range of `i64`.
    open spec fn can_add(self, unit: ChronoUnit, amount: i64) -> bool {
        &&& self.wf()
        &&& unit.time_based()
        &&& Instant::in_range(self.nanos + Instant::nanos_to_add(unit, amount))
    }

    open spec fn is_sum(self, unit: ChronoUnit, amount: i64, sum: Instant) -> bool {
        sum.wf() && sum.nanos == self.nanos + Instant::nanos_to_add(unit, amount)
    }

    fn cu_add(self, unit: ChronoUnit, amount: i64) -> (sum: Instant) {
        match unit {
            ChronoUnit::Nanos => self.plus_nanoseconds(amount),
            ChronoUnit::Millis => self.plus_milliseconds(amount),
            ChronoUnit::Seconds => self.plus_seconds(amount),
            ChronoUnit::Minutes => self.plus_seconds(saturating_times(amount, 60)),
            ChronoUnit::Hours => self.plus_seconds(saturating_times(amount, 3_600)),
            ChronoUnit::HalfDays => self.plus_seconds(saturating_times(amount, 43_200)),
            _ => {
                proof {
                    assert(false);
                }
                self
            },
        }
    }
}

impl Instant {
    /// The nanoseconds that `amount` of the time unit `unit` moves an instant by.
    pub open spec fn nanos_to_add(unit: ChronoUnit, amount: i64) -> int {
        match unit {
            ChronoUnit::Nanos => amount as int,
            ChronoUnit::Millis => amount * 1_000_000,
            ChronoUnit::Seconds => amount * 1_000_000_000,
            ChronoUnit::Minutes => saturated_product(amount as int, 60) * 1_000_000_000,
            ChronoUnit::Hours => saturated_product(amount as int, 3_600) * 1_000_000_000,
            ChronoUnit::HalfDays => saturated_product(amount as int, 43_200) * 1_000_000_000,
            _ => 0,
        }
    }
}

impl ChronoAdd for LocalDate {
    /// A date moves by spans of the calendar only, and the result must be a
    /// date that this library can hold. A count of months is taken as an `i32`.
    open spec fn can_add(self, unit: ChronoUnit, amount: i64) -> bool {
        &&& self.wf()
        &&& match unit {
            ChronoUnit::Days => MIN_JULIAN_DAY <= self.julian_day() + amount <= MAX_JULIAN_DAY,
            ChronoUnit::Weeks => MIN_JULIAN_DAY <= self.julian_day() + amount * 7
                <= MAX_JULIAN_DAY,
            ChronoUnit::Months => i32::MIN <= amount <= i32::MAX && MIN_YEAR <= (
            self.month_count() + amount) / 12 <= MAX_YEAR,
            ChronoUnit::Years => MIN_YEAR <= self.year + amount <= MAX_YEAR,
            _ => false,
        }
    }

    open spec fn is_sum(self, unit: ChronoUnit, amount: i64, sum: LocalDate) -> bool {
        &&& sum.wf()
        &&& match unit {
            ChronoUnit::Days => sum.julian_day() == self.julian_day() + amount,
            ChronoUnit::Weeks => sum.julian_day() == self.julian_day() + amount * 7,
            ChronoUnit::Months => sum == self.months_later(amount as int),
            ChronoUnit::Years => sum == self.years_later(amount as int),
            _ => false,
        }
    }

    fn cu_add(self, unit: ChronoUnit, amount: i64) -> (sum: LocalDate) {
        match unit {
            ChronoUnit::Days => self.plus_days(amount),
            ChronoUnit::Weeks => self.plus_weeks(amount),
            ChronoUnit::Months => self.plus_months(amount as i32),
            ChronoUnit::Years => self.plus_years(amount),
            _ => {
                proof {
                    assert(false);
                }
                self
            },
        }
    }
}

impl LocalTime {
    /// The nanoseconds that `amount` of the time unit `unit` moves a time of
    /// day by.
    pub open spec fn nanos_to_add(unit: ChronoUnit, amount: i64) -> int {
        match unit {
            ChronoUnit::Nanos => amount as int,
            ChronoUnit::Millis => amount * 1_000_000,
            ChronoUnit::Seconds => amount * 1_000_000_000,
            ChronoUnit::Minutes => amount * 60_000_000_000,
            ChronoUnit::Hours => amount * 3_600_000_000_000,
            ChronoUnit::HalfDays => saturated_product(amount as int, 12) * 3_600_000_000_000,
            _ => 0,
        }
    }
}

impl ChronoAdd for LocalTime {
    /// A time of day moves by lengths of time only. Half days are counted in
    /// hours, held to the range of `i64`.
    open spec fn can_add(self, unit: ChronoUnit, amount: i64) -> bool {
        self.wf() && unit.time_based()
    }

    open spec fn is_sum(self, unit: ChronoUnit, amount: i64, sum: LocalTime) -> bool {
        sum.wf() && sum.nanos_of_day() == (self.nanos_of_day() + LocalTime::nanos_to_add(
            unit,
            amount,
        )) % (NANOS_PER_DAY as int)
    }

    fn cu_add(self, unit: ChronoUnit, amount: i64) -> (sum: LocalTime) {
        match unit {
            ChronoUnit::Nanos => self.plus_nanoseconds(amount),
            ChronoUnit::Millis => self.plus_milliseconds(amount),
            ChronoUnit::Seconds => self.plus_seconds(amount),
            ChronoUnit::Minutes => self.plus_minutes(amount),
            ChronoUnit::Hours => self.plus_hours(amount),
            ChronoUnit::HalfDays => self.plus_hours(saturating_times(amount, 12)),
            _ => {
                proof {
                    assert(false);
                }
                self
            },
        }
    }
}

impl LocalDateTime {
    /// The nanoseconds that `amount` of `unit` moves a date and time by, for
    /// the units of a fixed length: all but months and years.
    pub open spec fn nanos_to_add(unit: ChronoUnit, amount: i64) -> int {
        match unit {
            ChronoUnit::Nanos => amount as int,
            ChronoUnit::Millis => amount * 1_000_000,
            ChronoUnit::Seconds => amount * 1_000_000_000,
            ChronoUnit::Minutes => amount * 60_000_000_000,
            ChronoUnit::Hours => amount * 3_600_000_000_000,
            ChronoUnit::HalfDays => saturated_product(amount as int, 12) * 3_600_000_000_000,
            ChronoUnit::Days => amount * NANOS_PER_DAY,
            ChronoUnit::Weeks => amount * 7 * NANOS_PER_DAY,
            _ => 0,
        }
    }
}

impl ChronoAdd for LocalDateTime {
    /// A date and time moves by every unit. A count of months is taken as an
    /// `i32`; months and years must lead to a year from -9999 to 9999.
    open spec fn can_add(self, unit: ChronoUnit, amount: i64) -> bool {
        &&& self.wf()
        &&& match unit {
            ChronoUnit::Months => i32::MIN <= amount <= i32::MAX && MIN_YEAR <= (
            self.date.month_count() + amount) / 12 <= MAX_YEAR,
            ChronoUnit::Years => MIN_YEAR <= self.date.year + amount <= MAX_YEAR,
            _ => true,
        }
    }

    open spec fn is_sum(self, unit: ChronoUnit, amount: i64, sum: LocalDateTime) -> bool {
        &&& sum.wf()
        &&& match unit {
            ChronoUnit::Months => sum == (LocalDateTime {
                date: self.date.months_later(amount as int),
                time: self.time,
            }),
            ChronoUnit::Years => sum == (LocalDateTime {
                date: self.date.years_later(amount as int),
                time: self.time,
            }),
            _ => sum.local_nanos() == saturated_local_nanos(
                self.local_nanos() + LocalDateTime::nanos_to_add(unit, amount),
            ),
        }
    }

    fn cu_add(self, unit: ChronoUnit, amount: i64) -> (sum: LocalDateTime) {
        match unit {
            ChronoUnit::Nanos => self.plus_nanoseconds(amount),
            ChronoUnit::Millis => self.plus_milliseconds(amount),
            ChronoUnit::Seconds => self.plus_seconds(amount),
            ChronoUnit::Minutes => self.plus_minutes(amount),
            ChronoUnit::Hours => self.plus_hours(amount),
            ChronoUnit::HalfDays => self.plus_hours(saturating_times(amount, 12)),
            ChronoUnit::Days => self.plus_days(amount),
            ChronoUnit::Weeks => self.plus_weeks(amount),
            ChronoUnit::Months => self.plus_months(amount as i32),
            ChronoUnit::Years => self.plus_years(amount),
        }
    }
}

/// Every unit is a length of time or a span of the calendar, and none is both.
pub proof fn lemma_units_are_time_or_date(unit: ChronoUnit)
    ensures
        unit.time_based() != (unit is Days || unit is Weeks || unit is Months || unit is Years),
{
}

} // verus!
