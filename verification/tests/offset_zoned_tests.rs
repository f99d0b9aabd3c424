use joda_rs::{
    Clock, Instant, LocalDate, LocalDateTime, LocalTime, Month, OffsetDateTime, ZoneId,
    ZoneOffset, ZonedDateTime,
};

fn utc(ldt: LocalDateTime) -> OffsetDateTime {
    OffsetDateTime::of(ldt, ZoneOffset::of_hours(0))
}

fn zoned(ldt: LocalDateTime) -> ZonedDateTime {
    ZonedDateTime::of(ldt, ZoneId::utc()).unwrap()
}

#[test]
fn of_constructor_and_offset_behavior() {
    let ldt = LocalDateTime::of(2025, 9, 15, 10, 30, 0);
    let odt_utc = OffsetDateTime::of(ldt, ZoneOffset::of_hours(0));
    let odt_minus_2 = odt_utc.with_offset_same_instant(ZoneOffset::of_hours(-2));

    assert_eq!(odt_minus_2.hour(), 8);
    assert_eq!(odt_minus_2.minute(), 30);
    assert_eq!(odt_minus_2.second(), 0);

    assert_eq!(odt_utc.offset(), 0);
    assert_eq!(odt_minus_2.offset(), -7200);
}

#[test]
fn now_utc_is_reasonable() {
    let now = OffsetDateTime::now_utc();
    let offset = now.offset();
    assert_eq!(offset, 0);
}

#[test]
fn time_based_arithmetic_hours_minutes_seconds_nanos() {
    let base = utc(LocalDateTime::of(2020, 1, 1, 0, 0, 0));

    assert_eq!(base.plus_hours(2), utc(LocalDateTime::of(2020, 1, 1, 2, 0, 0)));
    assert_eq!(base.minus_hours(1), utc(LocalDateTime::of(2019, 12, 31, 23, 0, 0)));

    assert_eq!(base.plus_minutes(61), utc(LocalDateTime::of(2020, 1, 1, 1, 1, 0)));
    assert_eq!(base.minus_minutes(1), utc(LocalDateTime::of(2019, 12, 31, 23, 59, 0)));

    assert_eq!(base.plus_seconds(75), utc(LocalDateTime::of(2020, 1, 1, 0, 1, 15)));
    assert_eq!(base.minus_seconds(1), utc(LocalDateTime::of(2019, 12, 31, 23, 59, 59)));

    let base0 = base.with_nanosecond(0);
    assert_eq!(base0.plus_nanoseconds(1_234).nanosecond(), 1_234);
    assert_eq!(base0.plus_nanoseconds(1_000_000_000), utc(LocalDateTime::of(2020, 1, 1, 0, 0, 1)));
    let prev = base0.minus_nanoseconds(1);
    assert_eq!(prev, utc(LocalDateTime::of(2019, 12, 31, 23, 59, 59)).with_nanosecond(999_999_999));
}

#[test]
fn date_based_arithmetic_days_weeks_months_years() {
    let base = utc(LocalDateTime::of(2020, 1, 1, 12, 0, 0));
    assert_eq!(base.plus_days(1), utc(LocalDateTime::of(2020, 1, 2, 12, 0, 0)));
    assert_eq!(base.minus_days(2), utc(LocalDateTime::of(2019, 12, 30, 12, 0, 0)));
    assert_eq!(base.plus_weeks(1), base.plus_days(7));
    assert_eq!(base.minus_weeks(2), base.minus_days(14));

    assert_eq!(
        utc(LocalDateTime::of(2020, 1, 31, 12, 0, 0)).plus_months(1),
        utc(LocalDateTime::of(2020, 2, 29, 12, 0, 0))
    );
    assert_eq!(
        utc(LocalDateTime::of(2019, 1, 31, 12, 0, 0)).plus_months(1),
        utc(LocalDateTime::of(2019, 2, 28, 12, 0, 0))
    );
    assert_eq!(
        utc(LocalDateTime::of(2020, 3, 31, 12, 0, 0)).minus_months(1),
        utc(LocalDateTime::of(2020, 2, 29, 12, 0, 0))
    );

    assert_eq!(
        utc(LocalDateTime::of(2020, 2, 29, 8, 30, 0)).plus_years(1),
        utc(LocalDateTime::of(2021, 2, 28, 8, 30, 0))
    );
    assert_eq!(
        utc(LocalDateTime::of(2020, 2, 29, 8, 30, 0)).minus_years(1),
        utc(LocalDateTime::of(2019, 2, 28, 8, 30, 0))
    );
}

#[test]
fn comparison_helpers_for_offset_date_time() {
    let a = utc(LocalDateTime::of(2020, 1, 1, 0, 0, 0));
    let b = a.plus_seconds(1);
    let c = b;

    assert!(a.is_before(b));
    assert!(!b.is_before(a));

    assert!(b.is_after(a));
    assert!(!a.is_after(b));

    assert!(a.is_on_or_before(b));
    assert!(b.is_on_or_before(c));

    assert!(b.is_on_or_after(a));
    assert!(b.is_on_or_after(c));
}

#[test]
fn with_setters_for_both_date_and_time_parts() {
    let odt = utc(LocalDateTime::of(2021, 6, 15, 10, 20, 30));

    assert_eq!(odt.with_day_of_month(1), utc(LocalDateTime::of(2021, 6, 1, 10, 20, 30)));
    assert_eq!(odt.with_day_of_year(200), utc(LocalDateTime::of(2021, 7, 19, 10, 20, 30)));
    assert_eq!(odt.with_month(2), utc(LocalDateTime::of(2021, 2, 15, 10, 20, 30)));
    assert_eq!(odt.with_year(2020), utc(LocalDateTime::of(2020, 6, 15, 10, 20, 30)));

    assert_eq!(odt.with_hour(5), utc(LocalDateTime::of(2021, 6, 15, 5, 20, 30)));
    assert_eq!(odt.with_minute(59), utc(LocalDateTime::of(2021, 6, 15, 10, 59, 30)));
    assert_eq!(odt.with_second(0), utc(LocalDateTime::of(2021, 6, 15, 10, 20, 0)));
    let odt2 = odt.with_nanosecond(123_000_000);
    assert_eq!(odt2.nanosecond(), 123_000_000);
}

#[test]
fn conversions_to_local_types() {
    let odt = utc(LocalDateTime::of(2023, 5, 6, 1, 2, 3)).with_nanosecond(987_654_321);
    let d: LocalDate = odt.to_local_date();
    let t: LocalTime = odt.to_local_time();
    let ldt: LocalDateTime = odt.to_local_date_time();

    assert_eq!(d, LocalDate::of(2023, 5, 6));
    assert_eq!(t, LocalTime::of(1, 2, 3).with_nanosecond(987_654_321));
    assert_eq!(ldt, LocalDateTime::of(2023, 5, 6, 1, 2, 3).with_nanosecond(987_654_321));
}

#[test]
fn offset_arithmetic_keeps_the_offset() {
    let plus5 = ZoneOffset::of_hours_minutes(5, 30);
    let start = OffsetDateTime::of(LocalDateTime::of(2020, 1, 31, 23, 30, 0), plus5);
    assert_eq!(start.plus_hours(1).offset(), 19_800);
    assert_eq!(start.plus_hours(1).to_local_date_time(), LocalDateTime::of(2020, 2, 1, 0, 30, 0));
    assert_eq!(start.plus_months(1).offset(), 19_800);
    assert_eq!(start.plus_months(1).to_local_date_time(), LocalDateTime::of(2020, 2, 29, 23, 30, 0));
    assert_eq!(start.epoch_seconds(), 1_580_493_600);
    assert_eq!(start.plus_hours(1).epoch_seconds(), 1_580_493_600 + 3_600);
    assert_eq!(start.month(), Month::January);
    assert_eq!(start.with_offset_same_instant(ZoneOffset::utc()).to_local_date_time(),
        LocalDateTime::of(2020, 1, 31, 18, 0, 0));
    assert_eq!(OffsetDateTime::new_utc(LocalDateTime::of(1970, 1, 1, 0, 0, 0)).epoch_nanoseconds(), 0);
    assert_eq!(OffsetDateTime::new(LocalDateTime::of(1970, 1, 1, 0, 0, 0), plus5).epoch_seconds(), -19_800);
    // Two clocks that show different times can mark one instant.
    let a = OffsetDateTime::of(LocalDateTime::of(2020, 1, 1, 12, 0, 0), ZoneOffset::of_hours(2));
    let b = OffsetDateTime::of(LocalDateTime::of(2020, 1, 1, 10, 0, 0), ZoneOffset::utc());
    assert!(a.is_on_or_before(b) && a.is_on_or_after(b));
    assert!(!a.is_before(b) && !a.is_after(b));
    assert_eq!(a.to_instant(), b.to_instant());
    assert!(OffsetDateTime::now_with_offset(ZoneOffset::of_hours(9)).unwrap().offset() == 32_400);
}

#[test]
fn utc_constant_should_have_zero_offset() {
    let utc_offset = ZoneOffset::utc();
    assert_eq!(utc_offset.total_seconds(), 0);
}

#[test]
fn zone_offset_tests_total_seconds_basic() {
    let z0 = ZoneOffset::of_hours(0);
    assert_eq!(z0.total_seconds(), 0);

    let z_pos = ZoneOffset::of_hours_minutes(5, 30);
    assert_eq!(z_pos.total_seconds(), 5 * 3600 + 30 * 60);

    let z_neg = ZoneOffset::of_hours(-7);
    assert_eq!(z_neg.total_seconds(), -7 * 3600);
}

#[test]
fn zone_offset_total_seconds_tests_total_seconds_basic() {
    let z0 = ZoneOffset::of_hours(0);
    assert_eq!(z0.total_seconds(), 0);

    let z_pos = ZoneOffset::of_hours_minutes(5, 30);
    assert_eq!(z_pos.total_seconds(), 5 * 3600 + 30 * 60);

    let z_neg = ZoneOffset::of_hours(-7);
    assert_eq!(z_neg.total_seconds(), -7 * 3600);
}

#[test]
fn zone_offset_minutes_follow_the_hours() {
    assert_eq!(ZoneOffset::of_hours_minutes(-5, 30).total_seconds(), -(5 * 3600 + 30 * 60));
    assert_eq!(ZoneOffset::of_hours_minutes(-5, -30).total_seconds(), -(5 * 3600 + 30 * 60));
    assert_eq!(ZoneOffset::of_hours_minutes(5, -30).total_seconds(), 5 * 3600 + 30 * 60);
    assert_eq!(ZoneOffset::of_hours_minutes(0, -30).total_seconds(), -30 * 60);
    assert_eq!(ZoneOffset::of_hours_minutes(0, 45).total_seconds(), 45 * 60);
    assert_eq!(ZoneOffset::of_hours(18).total_seconds(), 64_800);
    assert_eq!(ZoneOffset::of_hours(-18).total_seconds(), -64_800);
    assert_eq!(ZoneOffset::of_total_seconds(-3_723).total_seconds(), -3_723);
    assert_eq!(
        time::UtcOffset::from_hms(-5, 30, 0).unwrap().whole_seconds(),
        ZoneOffset::of_hours_minutes(-5, 30).total_seconds()
    );
}

#[test]
fn basic_equality_and_construction() {
    let a = ZoneId::utc();
    let b = ZoneId::try_of("UTC");
    let c = ZoneId::try_of("America/New_York");
    let d = ZoneId::try_of("Invalid/Time_Zone");
    assert_eq!(b.unwrap().id(), "UTC");
    assert_eq!(c.unwrap().id(), "America/New_York");
    assert_eq!(d.unwrap_err(), "Unknown time zone");

    let a2 = a;
    let a3 = a2;
    assert_eq!(a, a2);
    assert_eq!(a2, a3);
}

#[test]
fn zone_lookups() {
    assert_eq!(ZoneId::utc().to_offset(), Some(0));
    assert_eq!(ZoneId::of("Invalid/Time_Zone").to_offset(), None);
    assert_eq!(ZoneId::of("Invalid/Time_Zone").current_offset(), None);
    // Tokyo has kept one offset since 1951.
    assert_eq!(ZoneId::of("Asia/Tokyo").to_offset(), Some(32_400));
    assert_eq!(ZoneId::of("Asia/Tokyo").current_offset(), Some(ZoneOffset::of_hours(9)));
    assert_eq!(ZoneId::parse("Asia/Tokyo").unwrap().id(), "Asia/Tokyo");
    assert_eq!(ZoneId::parse("Nowhere/Land").unwrap_err(), "Unknown time zone");
    assert_eq!(ZoneId::of("UTC"), ZoneId::utc());
    assert!(ZoneId::of("Asia/Tokyo") != ZoneId::utc());
    assert_eq!(ZoneId::offset_from_lookup(Some(64_800)), Some(ZoneOffset::of_hours(18)));
    assert_eq!(ZoneId::offset_from_lookup(Some(64_801)), None);
    assert_eq!(ZoneId::offset_from_lookup(Some(-64_801)), None);
    assert_eq!(ZoneId::offset_from_lookup(None), None);
}

#[test]
fn of_utc_equals_offset_utc_assumption() {
    let ldt = LocalDateTime::of(2025, 9, 15, 10, 30, 0);

    let zdt_utc = ZonedDateTime::of(ldt, ZoneId::utc()).unwrap();
    let odt_utc = OffsetDateTime::of(ldt, ZoneOffset::of_hours(0));

    let zu = zdt_utc.epoch_seconds();
    let ou = odt_utc.epoch_seconds();
    assert_eq!(zu, ou);

    assert_eq!(
        (zdt_utc.year(), zdt_utc.month().value() as u8, zdt_utc.day_of_month(), zdt_utc.hour(), zdt_utc.minute(), zdt_utc.second()),
        (odt_utc.year(), odt_utc.month().value() as u8, odt_utc.day_of_month(), odt_utc.hour(), odt_utc.minute(), odt_utc.second())
    );
}

#[test]
fn time_based_arithmetic_hours_minutes_seconds_nanos_for_zoned() {
    let base = zoned(LocalDateTime::of(2020, 1, 1, 0, 0, 0));

    assert_eq!(base.plus_hours(2), zoned(LocalDateTime::of(2020, 1, 1, 2, 0, 0)));
    assert_eq!(base.minus_hours(1), zoned(LocalDateTime::of(2019, 12, 31, 23, 0, 0)));

    assert_eq!(base.plus_minutes(61), zoned(LocalDateTime::of(2020, 1, 1, 1, 1, 0)));
    assert_eq!(base.minus_minutes(1), zoned(LocalDateTime::of(2019, 12, 31, 23, 59, 0)));

    assert_eq!(base.plus_seconds(75), zoned(LocalDateTime::of(2020, 1, 1, 0, 1, 15)));
    assert_eq!(base.minus_seconds(1), zoned(LocalDateTime::of(2019, 12, 31, 23, 59, 59)));

    let base0 = base.with_nanosecond(0);
    assert_eq!(base0.plus_nanoseconds(1_234).nanosecond(), 1_234);
    assert_eq!(base0.plus_nanoseconds(1_000_000_000), zoned(LocalDateTime::of(2020, 1, 1, 0, 0, 1)));
    let prev = base0.minus_nanoseconds(1);
    assert_eq!(prev, zoned(LocalDateTime::of(2019, 12, 31, 23, 59, 59)).with_nanosecond(999_999_999));
}

#[test]
fn date_based_arithmetic_days_weeks_months_years_for_zoned() {
    let base = zoned(LocalDateTime::of(2020, 1, 1, 12, 0, 0));
    assert_eq!(base.plus_days(1), zoned(LocalDateTime::of(2020, 1, 2, 12, 0, 0)));
    assert_eq!(base.minus_days(2), zoned(LocalDateTime::of(2019, 12, 30, 12, 0, 0)));
    assert_eq!(base.plus_weeks(1), base.plus_days(7));
    assert_eq!(base.minus_weeks(2), base.minus_days(14));

    assert_eq!(
        zoned(LocalDateTime::of(2020, 1, 31, 12, 0, 0)).plus_months(1),
        zoned(LocalDateTime::of(2020, 2, 29, 12, 0, 0))
    );
    assert_eq!(
        zoned(LocalDateTime::of(2019, 1, 31, 12, 0, 0)).plus_months(1),
        zoned(LocalDateTime::of(2019, 2, 28, 12, 0, 0))
    );
    assert_eq!(
        zoned(LocalDateTime::of(2020, 3, 31, 12, 0, 0)).minus_months(1),
        zoned(LocalDateTime::of(2020, 2, 29, 12, 0, 0))
    );

    assert_eq!(
        zoned(LocalDateTime::of(2020, 2, 29, 8, 30, 0)).plus_years(1),
        zoned(LocalDateTime::of(2021, 2, 28, 8, 30, 0))
    );
    assert_eq!(
        zoned(LocalDateTime::of(2020, 2, 29, 8, 30, 0)).minus_years(1),
        zoned(LocalDateTime::of(2019, 2, 28, 8, 30, 0))
    );
}

#[test]
fn comparison_helpers_for_zoned_date_time() {
    let a = zoned(LocalDateTime::of(2020, 1, 1, 0, 0, 0));
    let b = a.plus_seconds(1);
    let c = b;

    assert!(a.is_before(b));
    assert!(!b.is_before(a));

    assert!(b.is_after(a));
    assert!(!a.is_after(b));

    assert!(a.is_on_or_before(b));
    assert!(b.is_on_or_before(c));

    assert!(b.is_on_or_after(a));
    assert!(b.is_on_or_after(c));
}

#[test]
fn with_setters_for_both_date_and_time_parts_for_zoned() {
    let zdt = zoned(LocalDateTime::of(2021, 6, 15, 10, 20, 30));

    assert_eq!(zdt.with_day_of_month(1), zoned(LocalDateTime::of(2021, 6, 1, 10, 20, 30)));
    assert_eq!(zdt.with_day_of_year(200), zoned(LocalDateTime::of(2021, 7, 19, 10, 20, 30)));
    assert_eq!(zdt.with_month(2), zoned(LocalDateTime::of(2021, 2, 15, 10, 20, 30)));
    assert_eq!(zdt.with_year(2020), zoned(LocalDateTime::of(2020, 6, 15, 10, 20, 30)));

    assert_eq!(zdt.with_hour(5), zoned(LocalDateTime::of(2021, 6, 15, 5, 20, 30)));
    assert_eq!(zdt.with_minute(59), zoned(LocalDateTime::of(2021, 6, 15, 10, 59, 30)));
    assert_eq!(zdt.with_second(0), zoned(LocalDateTime::of(2021, 6, 15, 10, 20, 0)));
    let zdt2 = zdt.with_nanosecond(123_000_000);
    assert_eq!(zdt2.nanosecond(), 123_000_000);
}

#[test]
fn conversions_to_local_types_for_zoned() {
    let zdt = zoned(LocalDateTime::of(2023, 5, 6, 1, 2, 3)).with_nanosecond(987_654_321);
    let d: LocalDate = zdt.to_local_date();
    let t: LocalTime = zdt.to_local_time();
    let ldt: LocalDateTime = zdt.to_local_date_time();

    assert_eq!(d, LocalDate::of(2023, 5, 6));
    assert_eq!(t, LocalTime::of(1, 2, 3).with_nanosecond(987_654_321));
    assert_eq!(ldt, LocalDateTime::of(2023, 5, 6, 1, 2, 3).with_nanosecond(987_654_321));
}

#[test]
fn to_local_date_time_round_trip() {
    let ldt = LocalDateTime::of(2025, 9, 15, 10, 30, 0);
    let zdt = ZonedDateTime::of(ldt, ZoneId::utc()).unwrap();
    assert_eq!(zdt.to_local_date_time(), ldt);
}

#[test]
fn zoned_values_keep_zone_and_offset() {
    let ldt = LocalDateTime::of(2020, 6, 1, 12, 0, 0);
    let tokyo = ZoneId::of("Asia/Tokyo");
    let z = ZonedDateTime::of(ldt, tokyo).unwrap();
    assert_eq!(z.zone, tokyo);
    assert_eq!(z.offset, ZoneOffset::of_hours(9));
    assert_eq!(z.epoch_seconds(), ldt.epoch_seconds() - 32_400);
    let later = z.plus_days(400).plus_hours(13);
    assert_eq!(later.zone, tokyo);
    assert_eq!(later.offset, ZoneOffset::of_hours(9));
    assert!(ZonedDateTime::of(ldt, ZoneId::of("Invalid/Time_Zone")).is_none());
    assert!(ZonedDateTime::new(ldt, ZoneId::of("Invalid/Time_Zone")).is_none());
    assert_eq!(ZonedDateTime::new(ldt, ZoneId::utc()), Some(ZonedDateTime::new_utc(ldt)));
    assert_eq!(
        ZonedDateTime::of_zone_offset(ldt, tokyo, Some(ZoneOffset::of_hours(9))),
        Some(z)
    );
    assert_eq!(ZonedDateTime::of_zone_offset(ldt, tokyo, None), None);
    assert_eq!(ldt.at_zone(ZoneId::utc()), Some(ZonedDateTime::new_utc(ldt)));
    assert_eq!(ldt.at_offset(ZoneOffset::of_hours(9)).epoch_seconds(), z.epoch_seconds());
    assert_eq!(ZonedDateTime::now_utc().offset.total_seconds(), 0);
    assert_eq!(ZonedDateTime::now_with_zone(tokyo).unwrap().offset, ZoneOffset::of_hours(9));
    assert_eq!(ldt.to_instant(ZoneId::utc()), Some(Instant::of_epoch_second(ldt.epoch_seconds())));
    assert_eq!(ldt.with_nanosecond(5).to_instant_utc(), Instant::of_epoch_second(ldt.epoch_seconds()));
    assert_eq!(ldt.to_instant(ZoneId::of("Invalid/Time_Zone")), None);
    assert!(Clock::fixed_at_local(ldt, ZoneId::of("Invalid/Time_Zone")).is_none());
}
