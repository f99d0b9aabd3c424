//! A calendar amount of years, months and days.

use vstd::prelude::*;

verus! {

/// An amount of time in years, months and days. Each part has its own sign, and
/// no part is ever folded into another: twelve months stay twelve months.
#[derive(Debug, Clone, Copy, PartialEq, Eq, Hash, Structural)]
pub struct Period {
    pub years: i32,
    pub months: i32,
    pub days: i32,
}

/// Whether `value` fits a part of a period.
pub open spec fn fits_i32(value: int) -> bool {
    i32::MIN <= value <= i32::MAX
}

impl Default for Period {
    /// The period of no years, no months and no days.
    fn default() -> (period: Period)
        ensures
            period == (Period { years: 0, months: 0, days: 0 }),
    {
        Period { years: 0, months: 0, days: 0 }
    }
}

impl Period {
    /// The period of the given years, months and days.
    pub fn new(years: i32, months: i32, days: i32) -> (period: Period)
        ensures
            period == (Period { years, months, days }),
    {
        Period { years, months, days }
    }

    /// The period of the given years, months and days.
    pub fn of(years: i32, months: i32, days: i32) -> (period: Period)
        ensures
            period == (Period { years, months, days }),
    {
        Period { years, months, days }
    }

    /// A period of `years` years.
    pub fn of_years(years: i32) -> (period: Period)
        ensures
            period == (Period { years, months: 0, days: 0 }),
    {
        Period { years, months: 0, days: 0 }
    }

    /// A period of `months` months.
    pub fn of_months(months: i32) -> (period: Period)
        ensures
            period == (Period { years: 0, months, days: 0 }),
    {
        Period { years: 0, months, days: 0 }
    }

    /// A period of `weeks` weeks, held as seven days each.
    pub fn of_weeks(weeks: i32) -> (period: Period)
        requires
            fits_i32(weeks * 7),
        ensures
            period.years == 0,
            period.months == 0,
            period.days == weeks * 7,
    {
        Period { years: 0, months: 0, days: weeks * 7 }
    }

    /// A period of `days` days.
    pub fn of_days(days: i32) -> (period: Period)
        ensures
            period == (Period { years: 0, months: 0, days }),
    {
        Period { years: 0, months: 0, days }
    }

    /// The years of the period.
    pub fn years(self) -> (years: i32)
        ensures
            years == self.years,
    {
        self.years
    }

    /// The months of the period.
    pub fn months(self) -> (months: i32)
        ensures
            months == self.months,
    {
        self.months
    }

    /// The days of the period.
    pub fn days(self) -> (days: i32)
        ensures
            days == self.days,
    {
        self.days
    }

    /// The years and months of the period as months; the days do not count.
    pub fn total_months(self) -> (total: i64)
        ensures
            total == self.years * 12 + self.months,
    {
        (self.years as i64) * 12 + (self.months as i64)
    }

    /// Whether all three parts are zero.
    pub fn is_zero(self) -> (zero: bool)
        ensures
            zero == (self.years == 0 && self.months == 0 && self.days == 0),
    {
        self.years == 0 && self.months == 0 && self.days == 0
    }

    /// Whether any part is negative. A period with parts of both signs is
    /// negative and positive at once.
    pub fn is_negative(self) -> (negative: bool)
        ensures
            negative == (self.years < 0 || self.months < 0 || self.days < 0),
    {
        self.years < 0 || self.months < 0 || self.days < 0
    }

    /// Whether any part is positive. A period with parts of both signs is
    /// negative and positive at once.
    pub fn is_positive(self) -> (positive: bool)
        ensures
            positive == (self.years > 0 || self.months > 0 || self.days > 0),
    {
        self.years > 0 || self.months > 0 || self.days > 0
    }

    /// The sum of two periods, part by part.
    pub fn plus(self, other: Period) -> (sum: Period)
        requires
            fits_i32(self.years + other.years),
            fits_i32(self.months + other.months),
            fits_i32(self.days + other.days),
        ensures
            sum.years == self.years + other.years,
            sum.months == self.months + other.months,
            sum.days == self.days + other.days,
    {
        Period {
            years: self.years + other.years,
            months: self.months + other.months,
            days: self.days + other.days,
        }
    }

    /// The difference of two periods, part by part.
    pub fn minus(self, other: Period) -> (difference: Period)
        requires
            fits_i32(self.years - other.years),
            fits_i32(self.months - other.months),
            fits_i32(self.days - other.days),
        ensures
            difference.years == self.years - other.years,
            difference.months == self.months - other.months,
            difference.days == self.days - other.days,
    {
        Period {
            years: self.years - other.years,
            months: self.months - other.months,
            days: self.days - other.days,
        }
    }

    /// The period with the sign of every part turned round.
    pub fn negated(self) -> (negated: Period)
        requires
            self.years > i32::MIN,
            self.months > i32::MIN,
            self.days > i32::MIN,
        ensures
            negated.years == -self.years,
            negated.months == -self.months,
            negated.days == -self.days,
    {
        Period { years: -self.years, months: -self.months, days: -self.days }
    }

    /// The period with `years` more years.
    pub fn plus_years(self, years: i32) -> (period: Period)
        requires
            fits_i32(self.years + years),
        ensures
            period == (Period { years: (self.years + years) as i32, ..self }),
    {
        Period { years: self.years + years, months: self.months, days: self.days }
    }

    /// The period with `months` more months.
    pub fn plus_months(self, months: i32) -> (period: Period)
        requires
            fits_i32(self.months + months),
        ensures
            period == (Period { months: (self.months + months) as i32, ..self }),
    {
        Period { years: self.years, months: self.months + months, days: self.days }
    }

    /// The period with `days` more days.
    pub fn plus_days(self, days: i32) -> (period: Period)
        requires
            fits_i32(self.days + days),
        ensures
            period == (Period { days: (self.days + days) as i32, ..self }),
    {
        Period { years: self.years, months: self.months, days: self.days + days }
    }

    /// The period with `years` fewer years.
    pub fn minus_years(self, years: i32) -> (period: Period)
        requires
            fits_i32(self.years - years),
        ensures
            period == (Period { years: (self.years - years) as i32, ..self }),
    {
        Period { years: self.years - years, months: self.months, days: self.days }
    }

    /// The period with `months` fewer months.
    pub fn minus_months(self, months: i32) -> (period: Period)
        requires
            fits_i32(self.months - months),
        ensures
            period == (Period { months: (self.months - months) as i32, ..self }),
    {
        Period { years: self.years, months: self.months - months, days: self.days }
    }

    /// The period with `days` fewer days.
    pub fn minus_days(self, days: i32) -> (period: Period)
        requires
            fits_i32(self.days - days),
        ensures
            period == (Period { days: (self.days - days) as i32, ..self }),
    {
        Period { years: self.years, months: self.months, days: self.days - days }
    }

    /// The period with its years replaced.
    pub fn with_years(self, years: i32) -> (period: Period)
        ensures
            period == (Period { years, ..self }),
    {
        Period { years, months: self.months, days: self.days }
    }

    /// The period with its months replaced.
    pub fn with_months(self, months: i32) -> (period: Period)
        ensures
            period == (Period { months, ..self }),
    {
        Period { years: self.years, months, days: self.days }
    }

    /// The period with its days replaced.
    pub fn with_days(self, days: i32) -> (period: Period)
        ensures
            period == (Period { days, ..self }),
    {
        Period { years: self.years, months: self.months, days }
    }
}

/// No period is zero and also negative or positive, and a period that is not
/// zero is negative or positive (or both).
pub proof fn lemma_period_signs(period: Period)
    ensures
        (period.years == 0 && period.months == 0 && period.days == 0) <==> !(period.years < 0
            || period.months < 0 || period.days < 0) && !(period.years > 0 || period.months > 0
            || period.days > 0),
{
}

} // verus!
