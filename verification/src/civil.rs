//! The calls into the `time` crate that the date types rest on.
//!
//! Verus does not read the bodies of these functions: it takes their contracts
//! on trust. Each contract restates, over the calendar model of this library,
//! what the documentation of the function it calls promises.

use vstd::prelude::*;
use crate::calendar::{julian_day_number, valid_date, MAX_JULIAN_DAY, MIN_JULIAN_DAY};
use crate::local_date_time::{MAX_LOCAL_NANOS, MIN_LOCAL_NANOS};

verus! {

/// The `time` crate's day of the week, with its seven variants.
#[verifier::external_type_specification]
pub struct ExWeekday(time::Weekday);

/// Position of a `time` weekday in the week that starts on Monday, from 1 to 7.
pub open spec fn weekday_number(weekday: time::Weekday) -> int {
    match weekday {
        time::Weekday::Monday => 1,
        time::Weekday::Tuesday => 2,
        time::Weekday::Wednesday => 3,
        time::Weekday::Thursday => 4,
        time::Weekday::Friday => 5,
        time::Weekday::Saturday => 6,
        time::Weekday::Sunday => 7,
    }
}

/// Calls `time::Date::to_julian_day` on the date (`year`, `month`, `day`).
///
/// Trusted: that the result is the Julian day number of the date, the count
/// of days that [`julian_day_number`] defines.
#[verifier::external_body]
pub(crate) fn julian_day_of(year: i32, month: u8, day: u8) -> (jd: i32)
    requires
        valid_date(year as int, month as int, day as int),
    ensures
        jd == julian_day_number(year as int, month as int, day as int),
{
    let m = time::Month::try_from(month).unwrap();
    time::Date::from_calendar_date(year, m, day).unwrap().to_julian_day()
}

/// Calls `time::Date::from_julian_day` and reads the date's three fields.
///
/// Trusted: that for a day number in the representable range the call
/// succeeds, and gives the valid date whose Julian day number is `jd`.
#[verifier::external_body]
pub(crate) fn date_of_julian_day(jd: i32) -> (ymd: (i32, u8, u8))
    requires
        MIN_JULIAN_DAY <= jd <= MAX_JULIAN_DAY,
    ensures
        valid_date(ymd.0 as int, ymd.1 as int, ymd.2 as int),
        julian_day_number(ymd.0 as int, ymd.1 as int, ymd.2 as int) == jd,
{
    let date = time::Date::from_julian_day(jd).unwrap();
    (date.year(), u8::from(date.month()), date.day())
}

/// Calls `time::Date::weekday` on the date (`year`, `month`, `day`).
///
/// Trusted: that the weekday is the one that the Julian day number gives,
/// day 0 being a Monday.
#[verifier::external_body]
pub(crate) fn weekday_of(year: i32, month: u8, day: u8) -> (weekday: time::Weekday)
    requires
        valid_date(year as int, month as int, day as int),
    ensures
        weekday_number(weekday) == julian_day_number(year as int, month as int, day as int) % 7
            + 1,
{
    let m = time::Month::try_from(month).unwrap();
    time::Date::from_calendar_date(year, m, day).unwrap().weekday()
}

/// Calls `time::OffsetDateTime::now_utc` and reads its `unix_timestamp_nanos`.
///
/// Trusted: only that the count lies in the range of the dates and times of
/// UTC that `time` can hold, as that of every `time::OffsetDateTime` does that
/// carries the offset of UTC. The count itself is the system clock's.
#[verifier::external_body]
pub(crate) fn unix_nanos_now() -> (nanos: i128)
    ensures
        MIN_LOCAL_NANOS <= nanos <= MAX_LOCAL_NANOS,
{
    time::OffsetDateTime::now_utc().unix_timestamp_nanos()
}

} // verus!
