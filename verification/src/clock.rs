//! Clocks: where a program takes the present moment from.

use vstd::prelude::*;
use crate::civil::unix_nanos_now;
use crate::duration::truncated_quotient;
use crate::instant::Instant;
use crate::local_date::{lemma_date_is_on_its_epoch_day, LocalDate};
use crate::local_date_time::{
    lemma_date_time_is_its_local_nanos, lemma_date_time_splits_its_nanos, LocalDateTime,
};
use crate::local_time::{lemma_time_is_its_nanos_of_day, LocalTime, NANOS_PER_DAY};
use crate::offset_date_time::OffsetDateTime;
use crate::year::Year;
use crate::zone_id::{zone_is_known, ZoneId};
use crate::zone_offset::ZoneOffset;
use crate::zoned_date_time::ZonedDateTime;

verus! {

/// A clock that always tells the same instant.
#[derive(Debug, Clone, Copy, PartialEq, Eq, Hash)]
pub struct FixedClock {
    pub instant: Instant,
    pub zone: ZoneId,
}

/// A clock that tells the time of the system clock.
#[derive(Debug, Clone, Copy, PartialEq, Eq, Hash)]
pub struct SystemClock {
    pub zone: ZoneId,
}

/// A clock: a source of the present instant, with the zone to read it in.
#[derive(Debug, Clone, Copy, PartialEq, Eq, Hash)]
pub enum Clock {
    Fixed(FixedClock),
    System(SystemClock),
}

/// The whole milliseconds in `nanos` nanoseconds, rounded toward zero and
/// held to the range of `i64`.
pub open spec fn saturated_millis(nanos: int) -> int {
    let whole = truncated_quotient(nanos, 1_000_000);
    if whole > i64::MAX {
        i64::MAX as int
    } else if whole < i64::MIN {
        i64::MIN as int
    } else {
        whole
    }
}

/// The whole milliseconds in `nanos` nanoseconds, rounded toward zero; the
/// largest or the smallest `i64` where the count does not fit.
pub fn nanos_to_ms_saturated(nanos: i128) -> (millis: i64)
    ensures
        millis == saturated_millis(nanos as int),
{
    let ms: i128 = nanos / 1_000_000;
    if ms > i64::MAX as i128 {
        i64::MAX
    } else if ms < i64::MIN as i128 {
        i64::MIN
    } else {
        ms as i64
    }
}

impl Clock {
    /// The invariant of a clock: that of the instant of a fixed clock.
    pub open spec fn wf(self) -> bool {
        self matches Clock::Fixed(fixed) ==> fixed.instant.wf()
    }

    /// The zone of the clock.
    pub open spec fn zone_of(self) -> ZoneId {
        match self {
            Clock::Fixed(fixed) => fixed.zone,
            Clock::System(system) => system.zone,
        }
    }

    /// A clock that always tells `instant`, read in `zone`.
    pub fn fixed(instant: Instant, zone: ZoneId) -> (clock: Clock)
        requires
            instant.wf(),
        ensures
            clock.wf(),
            clock == Clock::Fixed(FixedClock { instant, zone }),
    {
        Clock::Fixed(FixedClock { instant, zone })
    }

    /// A clock that always tells `instant`, read in UTC.
    pub fn fixed_utc(instant: Instant) -> (clock: Clock)
        requires
            instant.wf(),
        ensures
            clock.wf(),
            (clock matches Clock::Fixed(fixed) && fixed.instant == instant
                && fixed.zone.is_utc()),
    {
        Clock::Fixed(FixedClock { instant, zone: ZoneId::utc() })
    }

    /// What [`Clock::fixed_at_local`] makes of `ldt` as read in `zone`: a
    /// clock fixed at the instant that it marks, to the whole second, where
    /// there is such a value and an instant can hold what it marks.
    pub fn fixed_at_zoned(zoned: Option<ZonedDateTime>, zone: ZoneId) -> (clock: Option<Clock>)
        requires
            zoned matches Some(z) ==> z.wf(),
        ensures
            match zoned {
                Some(z) => if z.marks_instant() {
                    clock == Some(
                        Clock::Fixed(
                            FixedClock {
                                instant: Instant {
                                    nanos: ((z.instant_nanos() / 1_000_000_000)
                                        * 1_000_000_000) as i128,
                                },
                                zone,
                            },
                        ),
                    )
                } else {
                    clock.is_none()
                },
                None => clock.is_none(),
            },
            clock matches Some(c) ==> c.wf(),
    {
        match zoned {
            Some(z) => if z.has_instant() {
                Some(Clock::fixed(z.to_instant(), zone))
            } else {
                None
            },
            None => None,
        }
    }

    /// A clock fixed at the instant at which a clock in `zone` shows `ldt`,
    /// to the whole second; nothing where the zone database has no offset
    /// for the zone, or an instant cannot hold the moment.
    pub fn fixed_at_local(ldt: LocalDateTime, zone: ZoneId) -> (clock: Option<Clock>)
        requires
            ldt.wf(),
        ensures
            clock matches Some(c) ==> c.wf() && c.zone_of() == zone && c is Fixed,
            !zone.is_utc() && !zone_is_known(zone@) ==> clock.is_none(),
            zone.is_utc() ==> clock == Some(
                Clock::Fixed(
                    FixedClock {
                        instant: Instant {
                            nanos: ((ldt.local_nanos() / 1_000_000_000) * 1_000_000_000) as i128,
                        },
                        zone,
                    },
                ),
            ),
    {
        proof {
            lemma_date_time_is_its_local_nanos(ldt, ldt);
        }
        Clock::fixed_at_zoned(ldt.at_zone(zone), zone)
    }

    /// A clock that tells the time of the system clock, read in `zone`.
    pub fn system(zone: ZoneId) -> (clock: Clock)
        ensures
            clock == Clock::System(SystemClock { zone }),
    {
        Clock::System(SystemClock { zone })
    }

    /// A clock that tells the time of the system clock, read in UTC.
    pub fn system_default_zone() -> (clock: Clock)
        ensures
            clock is System,
            clock.zone_of().is_utc(),
    {
        Clock::System(SystemClock { zone: ZoneId::utc() })
    }

    /// A clock that tells the time of the system clock, read in UTC.
    pub fn system_utc() -> (clock: Clock)
        ensures
            clock is System,
            clock.zone_of().is_utc(),
    {
        Clock::System(SystemClock { zone: ZoneId::utc() })
    }

    /// The instant that the clock tells: that of a fixed clock, or the
    /// present one of the system clock.
    pub fn instant(&self) -> (instant: Instant)
        requires
            self.wf(),
        ensures
            instant.wf(),
            *self matches Clock::Fixed(fixed) ==> instant == fixed.instant,
    {
        match self {
            Clock::Fixed(fixed) => fixed.instant,
            Clock::System(_) => Instant::now(),
        }
    }

    /// The zone of the clock.
    pub fn zone(self) -> (zone: ZoneId)
        ensures
            zone == self.zone_of(),
    {
        match self {
            Clock::Fixed(fixed) => fixed.zone,
            Clock::System(system) => system.zone,
        }
    }

    /// The whole milliseconds from the epoch to the instant that the clock
    /// tells, rounded toward zero.
    pub fn milliseconds(self) -> (millis: i64)
        requires
            self.wf(),
        ensures
            self matches Clock::Fixed(fixed) ==> millis == saturated_millis(
                fixed.instant.nanos as int,
            ),
    {
        let shown = self.instant().at_offset(ZoneOffset::of_hours(0));
        nanos_to_ms_saturated(shown.epoch_nanoseconds())
    }

    /// The same clock, read in `zone`.
    pub fn with_zone(self, zone: ZoneId) -> (clock: Clock)
        requires
            self.wf(),
        ensures
            clock.wf(),
            clock.zone_of() == zone,
            match self {
                Clock::Fixed(fixed) => clock == Clock::Fixed(
                    FixedClock { instant: fixed.instant, zone },
                ),
                Clock::System(_) => clock == Clock::System(SystemClock { zone }),
            },
    {
        match self {
            Clock::Fixed(fixed) => Clock::Fixed(FixedClock { instant: fixed.instant, zone }),
            Clock::System(_) => Clock::System(SystemClock { zone }),
        }
    }
}

impl LocalDateTime {
    /// The date and time of the present moment in UTC, as the system clock
    /// tells it.
    pub fn now() -> (date_time: LocalDateTime)
        ensures
            date_time.wf(),
    {
        LocalDateTime::from_local_nanos(unix_nanos_now())
    }

    /// The date and time that a clock in the zone of `clock` shows at the
    /// instant that `clock` tells; nothing where the zone database has no
    /// offset for the zone. What is shown lies whole seconds, and at most 18
    /// hours, from the date and time of UTC at that instant.
    pub fn now_with_clock(clock: &Clock) -> (date_time: Option<LocalDateTime>)
        requires
            clock.wf(),
        ensures
            clock.zone_of().is_utc() ==> date_time.is_some(),
            !clock.zone_of().is_utc() && !zone_is_known(clock.zone_of()@) ==> date_time.is_none(),
            date_time matches Some(shown) ==> shown.wf(),
            (clock.zone_of().is_utc() && clock is Fixed) ==> (date_time matches Some(shown)
                && shown.local_nanos() == clock->Fixed_0.instant.nanos),
            date_time matches Some(shown) ==> (clock matches Clock::Fixed(fixed) ==> {
                let ahead = shown.local_nanos() - fixed.instant.nanos;
                &&& -64_800_000_000_000 <= ahead <= 64_800_000_000_000
                &&& ahead % 1_000_000_000 == 0
            }),
    {
        match clock.instant().at_zone(clock.zone()) {
            Some(zoned) => Some(zoned.date_time),
            None => None,
        }
    }

    /// The date and time that a clock in `zone` shows at the present moment;
    /// nothing where the zone database has no offset for the zone.
    pub fn now_with_zone(zone: ZoneId) -> (date_time: Option<LocalDateTime>)
        ensures
            zone.is_utc() ==> date_time.is_some(),
            !zone.is_utc() && !zone_is_known(zone@) ==> date_time.is_none(),
            date_time matches Some(shown) ==> shown.wf(),
    {
        match Instant::now().at_zone(zone) {
            Some(zoned) => Some(zoned.date_time),
            None => None,
        }
    }

    /// The instant of the whole second of this date and time, read as one of
    /// UTC; nothing where the zone database has no offset for `zone`, or a
    /// clock at that offset cannot show the instant.
    pub fn to_instant(self, zone: ZoneId) -> (instant: Option<Instant>)
        requires
            self.wf(),
        ensures
            zone.is_utc() ==> instant.is_some(),
            !zone.is_utc() && !zone_is_known(zone@) ==> instant.is_none(),
            instant matches Some(i) ==> i.wf() && i.nanos == (self.local_nanos() / 1_000_000_000)
                * 1_000_000_000,
    {
        let whole: Instant = self.to_instant_utc();
        match whole.at_zone(zone) {
            Some(_) => Some(whole),
            None => None,
        }
    }

    /// The instant of the whole second of this date and time, read as one of UTC.
    pub fn to_instant_utc(self) -> (instant: Instant)
        requires
            self.wf(),
        ensures
            instant.wf(),
            instant.nanos == (self.local_nanos() / 1_000_000_000) * 1_000_000_000,
    {
        let seconds: i64 = self.epoch_seconds();
        assert(self.local_nanos() == seconds * 1_000_000_000 + self.local_nanos()
            % 1_000_000_000);
        Instant::of_epoch_second(seconds)
    }

    /// This date and time, taken as one shown in `zone`; see [`ZonedDateTime::of`].
    pub fn at_zone(self, zone: ZoneId) -> (zoned: Option<ZonedDateTime>)
        requires
            self.wf(),
        ensures
            zone.is_utc() ==> zoned == Some(
                ZonedDateTime { date_time: self, offset: ZoneOffset { seconds: 0 }, zone },
            ),
            !zone.is_utc() && !zone_is_known(zone@) ==> zoned.is_none(),
            zoned matches Some(z) ==> z.wf() && z.date_time == self && z.zone == zone,
    {
        ZonedDateTime::of(self, zone)
    }

    /// This date and time, taken as one shown at `offset`.
    pub fn at_offset(self, offset: ZoneOffset) -> (result: OffsetDateTime)
        requires
            self.wf(),
            offset.wf(),
        ensures
            result.wf(),
            result == (OffsetDateTime { date_time: self, offset }),
    {
        OffsetDateTime::of(self, offset)
    }
}

impl LocalDate {
    /// The date that a clock in the zone of `clock` shows at the instant that
    /// `clock` tells; nothing where the zone database has no offset for the zone.
    pub fn now_with_clock(clock: &Clock) -> (date: Option<LocalDate>)
        requires
            clock.wf(),
        ensures
            clock.zone_of().is_utc() ==> date.is_some(),
            !clock.zone_of().is_utc() && !zone_is_known(clock.zone_of()@) ==> date.is_none(),
            date matches Some(shown) ==> shown.wf(),
            (clock.zone_of().is_utc() && clock is Fixed) ==> date == Some(
                LocalDate::on_epoch_day(
                    (clock->Fixed_0.instant.nanos as int) / (NANOS_PER_DAY as int),
                ),
            ),
    {
        match LocalDateTime::now_with_clock(clock) {
            Some(shown) => {
                proof {
                    lemma_date_time_splits_its_nanos(shown);
                    lemma_date_is_on_its_epoch_day(shown.date);
                }
                Some(shown.date)
            },
            None => None,
        }
    }

    /// The date that a clock in `zone` shows at the present moment; nothing
    /// where the zone database has no offset for the zone.
    pub fn now_with_zone(zone: ZoneId) -> (date: Option<LocalDate>)
        ensures
            zone.is_utc() ==> date.is_some(),
            !zone.is_utc() && !zone_is_known(zone@) ==> date.is_none(),
            date matches Some(shown) ==> shown.wf(),
    {
        match LocalDateTime::now_with_zone(zone) {
            Some(shown) => Some(shown.date),
            None => None,
        }
    }
}

impl LocalTime {
    /// The time of day that a clock in the zone of `clock` shows at the
    /// instant that `clock` tells; nothing where the zone database has no
    /// offset for the zone.
    pub fn now_with_clock(clock: &Clock) -> (time: Option<LocalTime>)
        requires
            clock.wf(),
        ensures
            clock.zone_of().is_utc() ==> time.is_some(),
            !clock.zone_of().is_utc() && !zone_is_known(clock.zone_of()@) ==> time.is_none(),
            time matches Some(shown) ==> shown.wf(),
            (clock.zone_of().is_utc() && clock is Fixed) ==> time == Some(
                LocalTime::at_nanos_of_day(
                    (clock->Fixed_0.instant.nanos as int) % (NANOS_PER_DAY as int),
                ),
            ),
    {
        match LocalDateTime::now_with_clock(clock) {
            Some(shown) => {
                proof {
                    lemma_date_time_splits_its_nanos(shown);
                    lemma_time_is_its_nanos_of_day(shown.time, shown.time);
                }
                Some(shown.time)
            },
            None => None,
        }
    }

    /// The time of day that a clock in `zone` shows at the present moment;
    /// nothing where the zone database has no offset for the zone.
    pub fn now_with_zone(zone: ZoneId) -> (time: Option<LocalTime>)
        ensures
            zone.is_utc() ==> time.is_some(),
            !zone.is_utc() && !zone_is_known(zone@) ==> time.is_none(),
            time matches Some(shown) ==> shown.wf(),
    {
        match LocalDateTime::now_with_zone(zone) {
            Some(shown) => Some(shown.time),
            None => None,
        }
    }
}

impl Year {
    /// The year of the present moment in UTC, as the system clock tells it.
    pub fn now() -> (year: Year)
        ensures
            -9999 <= year.0 <= 9999,
    {
        Year::at_instant(Instant::now())
    }

    /// The year that a clock in `zone` shows at the present moment; nothing
    /// where the zone database has no offset for the zone.
    pub fn now_with_zone(zone_id: ZoneId) -> (year: Option<Year>)
        ensures
            zone_id.is_utc() ==> year.is_some(),
            !zone_id.is_utc() && !zone_is_known(zone_id@) ==> year.is_none(),
            year matches Some(y) ==> -9999 <= y.0 <= 9999,
    {
        Year::now_with_clock(Clock::system(zone_id))
    }

    /// The year that a clock in the zone of `clock` shows at the instant that
    /// `clock` tells; nothing where the zone database has no offset for the zone.
    pub fn now_with_clock(clock: Clock) -> (year: Option<Year>)
        requires
            clock.wf(),
        ensures
            clock.zone_of().is_utc() ==> year.is_some(),
            !clock.zone_of().is_utc() && !zone_is_known(clock.zone_of()@) ==> year.is_none(),
            year matches Some(y) ==> -9999 <= y.0 <= 9999,
            (clock.zone_of().is_utc() && clock is Fixed) ==> year == Some(
                Year(
                    LocalDate::on_epoch_day(
                        (clock->Fixed_0.instant.nanos as int) / (NANOS_PER_DAY as int),
                    ).year,
                ),
            ),
    {
        match LocalDate::now_with_clock(&clock) {
            Some(date) => Some(Year(date.year)),
            None => None,
        }
    }
}

} // verus!
