use joda_rs::{
    DayOfWeek, Instant, LocalDate, LocalDateTime, LocalTime, Month, OffsetDateTime, Temporal,
    TemporalDate, TemporalDateTime, TemporalInstant, TemporalTime, ZoneId, ZoneOffset,
    ZonedDateTime,
};

fn earlier_of<T: Temporal>(a: T, b: T) -> T {
    if Temporal::is_before(a, b) {
        a
    } else {
        b
    }
}

fn end_of_next_month<T: TemporalDate>(value: T) -> T {
    TemporalDate::last_day_of_month(TemporalDate::plus_months(value, 1))
}

fn monday_after<T: TemporalDate>(value: T) -> T {
    TemporalDate::next(value, DayOfWeek::Monday)
}

fn an_hour_and_a_half_later<T: TemporalTime>(value: T) -> T {
    TemporalTime::plus_minutes(TemporalTime::plus_hours(value, 1), 30)
}

fn parts<T: TemporalDateTime>(value: T) -> (LocalDate, LocalTime, LocalDateTime) {
    (
        TemporalDateTime::to_local_date(value),
        TemporalDateTime::to_local_time(value),
        TemporalDateTime::to_local_date_time(value),
    )
}

fn millis_of<T: TemporalInstant>(value: T) -> i128 {
    value.epoch_milliseconds()
}

#[test]
fn temporal_order_of_each_kind() {
    assert_eq!(earlier_of(LocalDate::of(2020, 1, 2), LocalDate::of(2020, 1, 1)), LocalDate::of(2020, 1, 1));
    assert_eq!(earlier_of(LocalTime::of(1, 0, 0), LocalTime::of(0, 59, 59)), LocalTime::of(0, 59, 59));
    let a = LocalDateTime::of(2020, 1, 1, 12, 0, 0);
    let b = LocalDateTime::of(2020, 1, 1, 11, 0, 0);
    assert_eq!(earlier_of(a, b), b);
    // With offsets the instant decides, not what the clock shows.
    let east = OffsetDateTime::of(a, ZoneOffset::of_hours(2));
    let utc = OffsetDateTime::of(b, ZoneOffset::utc());
    assert_eq!(earlier_of(utc, east), east);
    assert!(Temporal::is_on_or_after(LocalDate::of(2020, 1, 1), LocalDate::of(2020, 1, 1)));
    assert!(Temporal::is_after(LocalTime::of(0, 0, 1), LocalTime::of(0, 0, 0)));
    assert!(Temporal::is_on_or_before(a, a));
}

#[test]
fn temporal_date_methods_act_on_the_date_of_each_kind() {
    let date = LocalDate::of(2020, 1, 31);
    let time = LocalTime::of(8, 30, 0);
    let local = LocalDateTime::of_date_time(date, time);
    let offset = OffsetDateTime::of(local, ZoneOffset::of_hours(-5));
    let zoned = ZonedDateTime::of(local, ZoneId::utc()).unwrap();

    assert_eq!(end_of_next_month(date), LocalDate::of(2020, 2, 29));
    assert_eq!(end_of_next_month(local), LocalDateTime::of(2020, 2, 29, 8, 30, 0));
    assert_eq!(
        end_of_next_month(offset),
        OffsetDateTime::of(LocalDateTime::of(2020, 2, 29, 8, 30, 0), ZoneOffset::of_hours(-5))
    );
    assert_eq!(
        end_of_next_month(zoned),
        ZonedDateTime::of(LocalDateTime::of(2020, 2, 29, 8, 30, 0), ZoneId::utc()).unwrap()
    );
    assert_eq!(monday_after(date), LocalDate::of(2020, 2, 3));
    assert_eq!(monday_after(local), LocalDateTime::of(2020, 2, 3, 8, 30, 0));
    assert_eq!(TemporalDate::year(offset), 2020);
    assert_eq!(TemporalDate::month(zoned), Month::January);
    assert_eq!(TemporalDate::month_value(local), 1);
    assert_eq!(TemporalDate::day_of_month(local), 31);
    assert_eq!(TemporalDate::day_of_year(local), 31);
    assert_eq!(TemporalDate::day_of_week(date), DayOfWeek::Friday);
    assert_eq!(TemporalDate::length_of_month(date), 31);
    assert!(TemporalDate::is_leap_year(date));
    assert_eq!(TemporalDate::length_of_year(date), 366);
    assert_eq!(TemporalDate::plus_days(local, 1), LocalDateTime::of(2020, 2, 1, 8, 30, 0));
    assert_eq!(TemporalDate::minus_weeks(local, 1), LocalDateTime::of(2020, 1, 24, 8, 30, 0));
    assert_eq!(TemporalDate::minus_months(local, 2), LocalDateTime::of(2019, 11, 30, 8, 30, 0));
    assert_eq!(TemporalDate::plus_years(local, -1), LocalDateTime::of(2019, 1, 31, 8, 30, 0));
    assert_eq!(TemporalDate::with_day_of_year(local, 60), LocalDateTime::of(2020, 2, 29, 8, 30, 0));
    assert_eq!(TemporalDate::with_day_of_month(date, 1), LocalDate::of(2020, 1, 1));
    assert_eq!(TemporalDate::first_day_of_year(offset).to_local_date(), LocalDate::of(2020, 1, 1));
    assert_eq!(TemporalDate::last_day_of_year(zoned).to_local_date(), LocalDate::of(2020, 12, 31));
    assert_eq!(TemporalDate::first_in_month(date, DayOfWeek::Sunday), LocalDate::of(2020, 1, 5));
    assert_eq!(TemporalDate::last_in_month(date, DayOfWeek::Sunday), LocalDate::of(2020, 1, 26));
    assert_eq!(TemporalDate::previous_or_same(date, DayOfWeek::Friday), date);
    assert_eq!(TemporalDate::previous(date, DayOfWeek::Friday), LocalDate::of(2020, 1, 24));
    assert_eq!(TemporalDate::next_or_same(date, DayOfWeek::Saturday), LocalDate::of(2020, 2, 1));
}

#[test]
fn temporal_time_wraps_a_time_of_day_and_carries_into_a_date() {
    let late = LocalTime::of(23, 0, 0);
    let date = LocalDate::of(2020, 12, 31);
    let local = LocalDateTime::of_date_time(date, late);
    assert_eq!(an_hour_and_a_half_later(late), LocalTime::of(0, 30, 0));
    assert_eq!(an_hour_and_a_half_later(local), LocalDateTime::of(2021, 1, 1, 0, 30, 0));
    assert_eq!(
        an_hour_and_a_half_later(OffsetDateTime::of(local, ZoneOffset::of_hours(3))),
        OffsetDateTime::of(LocalDateTime::of(2021, 1, 1, 0, 30, 0), ZoneOffset::of_hours(3))
    );
    assert_eq!(
        an_hour_and_a_half_later(ZonedDateTime::new_utc(local)),
        ZonedDateTime::new_utc(LocalDateTime::of(2021, 1, 1, 0, 30, 0))
    );
    assert_eq!(TemporalTime::minus_nanoseconds(local.with_hour(0), 1),
        LocalDateTime::of(2020, 12, 30, 23, 59, 59).with_nanosecond(999_999_999));
    assert_eq!(TemporalTime::minus_seconds(late, 3_600 * 24 + 1), LocalTime::of(22, 59, 59));
    assert_eq!(TemporalTime::plus_milliseconds(late, 1), LocalTime::of_hms_nano(23, 0, 0, 1_000_000));
    assert_eq!(TemporalTime::hour(local), 23);
    assert_eq!(TemporalTime::minute(late), 0);
    assert_eq!(TemporalTime::second(late), 0);
    assert_eq!(TemporalTime::millisecond(late.with_nanosecond(7_999_999)), 7);
    assert_eq!(TemporalTime::nanosecond(late.with_nanosecond(7)), 7);
    assert_eq!(TemporalTime::total_nanoseconds_of_day(late), 82_800_000_000_000);
    assert_eq!(TemporalTime::with_hour(local, 1), LocalDateTime::of(2020, 12, 31, 1, 0, 0));
    assert_eq!(TemporalTime::with_minute(late, 59), LocalTime::of(23, 59, 0));
    assert_eq!(TemporalTime::with_second(late, 59), LocalTime::of(23, 0, 59));
    assert_eq!(TemporalTime::with_millisecond(late, 5), LocalTime::of_hms_nano(23, 0, 0, 5_000_000));
    assert_eq!(TemporalTime::with_nanosecond(late, 5), LocalTime::of_hms_nano(23, 0, 0, 5));
}

#[test]
fn temporal_date_time_gives_its_parts() {
    let local = LocalDateTime::of(2023, 5, 6, 1, 2, 3);
    let expected = (LocalDate::of(2023, 5, 6), LocalTime::of(1, 2, 3), local);
    assert_eq!(parts(local), expected);
    assert_eq!(parts(OffsetDateTime::of(local, ZoneOffset::of_hours(7))), expected);
    assert_eq!(parts(ZonedDateTime::new_utc(local)), expected);
}

#[test]
fn temporal_instant_of_each_kind() {
    let local = LocalDateTime::of(1970, 1, 1, 0, 0, 2);
    assert_eq!(millis_of(local), 2_000);
    assert_eq!(millis_of(Instant::of_epoch_second(2)), 2_000);
    assert_eq!(millis_of(OffsetDateTime::of(local, ZoneOffset::of_hours(1))), 2_000 - 3_600_000);
    assert_eq!(millis_of(ZonedDateTime::new_utc(local)), 2_000);
    assert_eq!("Asia/Tokyo".parse::<ZoneId>().unwrap().id(), "Asia/Tokyo");
    assert!("No/Where".parse::<ZoneId>().is_err());
}
