use joda_rs::clock::nanos_to_ms_saturated;
use joda_rs::{
    Clock, Instant, LocalDate, LocalDateTime, LocalTime, OffsetDateTime, Year, ZoneId,
    ZoneOffset, ZonedDateTime,
};

#[test]
fn nanos_to_ms_saturated_clamps_overflow() {
    let nanos = (i128::from(i64::MAX) * 1_000_000) + 1_000_000;
    assert_eq!(nanos_to_ms_saturated(nanos), i64::MAX);
}

#[test]
fn nanos_to_ms_saturated_clamps_underflow() {
    let nanos = (i128::from(i64::MIN) * 1_000_000) - 1_000_000;
    assert_eq!(nanos_to_ms_saturated(nanos), i64::MIN);
}

#[test]
fn nanos_to_ms_saturated_handles_boundaries() {
    let nanos_max = i128::from(i64::MAX) * 1_000_000;
    let nanos_min = i128::from(i64::MIN) * 1_000_000;
    assert_eq!(nanos_to_ms_saturated(nanos_max), i64::MAX);
    assert_eq!(nanos_to_ms_saturated(nanos_min), i64::MIN);
}

#[test]
fn nanos_to_ms_saturated_normal_case() {
    let nanos = 12_345_i128 * 1_000_000;
    assert_eq!(nanos_to_ms_saturated(nanos), 12_345);
}

#[test]
fn nanos_to_ms_rounds_toward_zero() {
    assert_eq!(nanos_to_ms_saturated(1_999_999), 1);
    assert_eq!(nanos_to_ms_saturated(-1_999_999), -1);
    assert_eq!(nanos_to_ms_saturated(-999_999), 0);
    assert_eq!(nanos_to_ms_saturated(i128::MAX), i64::MAX);
    assert_eq!(nanos_to_ms_saturated(i128::MIN), i64::MIN);
}

#[test]
fn system_sets_zone() {
    let zid = ZoneId::try_of("America/New_York").unwrap();
    let c = Clock::system(zid);
    Clock::fixed(Instant::now(), zid);
    assert_eq!(c.zone(), zid);
}

#[test]
fn system_default_zone_is_utc() {
    let c = Clock::system_default_zone();
    assert_eq!(c.zone(), ZoneId::utc());
}

#[test]
fn system_utc_is_utc() {
    let c = Clock::system_utc();
    assert_eq!(c.zone(), ZoneId::utc());
}

#[test]
fn system_instant_is_reasonable() {
    let c = Clock::system_utc();
    let a = c.instant().at_offset(ZoneOffset::of_hours(0)).epoch_seconds();
    let b = OffsetDateTime::now_utc().epoch_seconds();
    let diff = (b - a).abs();
    assert!(diff < 3, "system clock instant too far from now: {}s", diff);
}

#[test]
fn millis_for_fixed_clock_matches_fixed_instant() {
    let inst = Instant::now();
    let zid = ZoneId::utc();
    let c = Clock::fixed(inst, zid);

    let expected_ms = {
        let nanos = inst.at_offset(ZoneOffset::of_hours(0)).epoch_nanoseconds();
        (nanos / 1_000_000) as i128
    };
    let expected_ms_i64 = if expected_ms > i64::MAX as i128 {
        i64::MAX
    } else if expected_ms < i64::MIN as i128 {
        i64::MIN
    } else {
        expected_ms as i64
    };

    let actual = c.milliseconds();
    assert_eq!(actual, expected_ms_i64);
}

#[test]
fn clock_tests_with_zone_on_system_updates_zone_and_preserves_variant() {
    let z1 = ZoneId::try_of("Europe/London").unwrap();
    let z2 = ZoneId::try_of("Asia/Tokyo").unwrap();

    let sys = Clock::system(z1);
    assert_eq!(sys.zone(), z1);

    let sys2 = sys.with_zone(z2);

    assert!(matches!(sys2, Clock::System(_)));
    assert_eq!(sys2.zone(), z2);

    let a = sys.instant().at_offset(ZoneOffset::of_hours(0)).epoch_seconds();
    let b = sys2.instant().at_offset(ZoneOffset::of_hours(0)).epoch_seconds();
    let now = OffsetDateTime::now_utc().epoch_seconds();

    let diff_sys = (a - b).abs();
    let diff_now_a = (now - a).abs();
    let diff_now_b = (now - b).abs();

    assert!(diff_sys < 3, "system clocks before/after with_zone too far apart: {}s", diff_sys);
    assert!(diff_now_a < 3, "system clock instant too far from now: {}s", diff_now_a);
    assert!(diff_now_b < 3, "system clock instant too far from now: {}s", diff_now_b);
}

#[test]
fn clock_with_zone_system_tests_with_zone_on_system_updates_zone_and_preserves_variant() {
    let z1 = ZoneId::of("Europe/London");
    let z2 = ZoneId::of("Asia/Tokyo");

    let sys = Clock::system(z1);
    assert_eq!(sys.zone(), z1);

    let sys2 = sys.with_zone(z2);

    assert!(matches!(sys2, Clock::System(_)));
    assert_eq!(sys2.zone(), z2);

    let a = sys.instant().at_offset(ZoneOffset::of_hours(0)).epoch_seconds();
    let b = sys2.instant().at_offset(ZoneOffset::of_hours(0)).epoch_seconds();
    let now = OffsetDateTime::now_utc().epoch_seconds();

    let diff_sys = (a - b).abs();
    let diff_now_a = (now - a).abs();
    let diff_now_b = (now - b).abs();

    assert!(diff_sys < 3, "system clocks before/after with_zone too far apart: {}s", diff_sys);
    assert!(diff_now_a < 3, "system clock instant too far from now: {}s", diff_now_a);
    assert!(diff_now_b < 3, "system clock instant too far from now: {}s", diff_now_b);
}

#[test]
fn now_with_clock_matches_instant_conversions_utc() {
    let base = Instant::now().minus_seconds(12_345);
    let clock = Clock::fixed(base, ZoneId::utc());

    let ref_zdt: ZonedDateTime = clock.instant().at_zone(clock.zone()).unwrap();
    let ref_ldt: LocalDateTime = ref_zdt.to_local_date_time();
    let ref_ld: LocalDate = ref_zdt.to_local_date();
    let ref_lt: LocalTime = ref_zdt.to_local_time();
    let ref_odt: OffsetDateTime = clock.instant().at_offset(ZoneOffset::of_hours(0));

    let ldt_now = LocalDateTime::now_with_clock(&clock).unwrap();
    let ld_now = LocalDate::now_with_clock(&clock).unwrap();
    let lt_now = LocalTime::now_with_clock(&clock).unwrap();
    let zdt_now = ZonedDateTime::now_with_clock(&clock).unwrap();
    let odt_now = OffsetDateTime::now_with_clock(&clock);

    assert_eq!(ld_now, ref_ld);

    assert_eq!(lt_now.hour(), ref_lt.hour());
    assert_eq!(lt_now.minute(), ref_lt.minute());
    assert_eq!(lt_now.second(), ref_lt.second());

    assert_eq!(ldt_now.year(), ref_ldt.year());
    assert_eq!(ldt_now.month_value(), ref_ldt.month_value());
    assert_eq!(ldt_now.day_of_month(), ref_ldt.day_of_month());
    assert_eq!(ldt_now.hour(), ref_ldt.hour());
    assert_eq!(ldt_now.minute(), ref_ldt.minute());
    assert_eq!(ldt_now.second(), ref_ldt.second());

    assert_eq!(zdt_now.epoch_seconds(), ref_zdt.epoch_seconds());
    assert_eq!(odt_now.epoch_seconds(), ref_odt.epoch_seconds());
}

#[test]
fn now_with_clock_respects_with_zone_on_clock_placeholder_semantics() {
    let base = Instant::now().plus_seconds(7_890);
    let clock_utc = Clock::fixed(base, ZoneId::utc());
    let clock_ny = clock_utc.with_zone(ZoneId::try_of("America/New_York").unwrap());

    let zdt_utc = ZonedDateTime::now_with_clock(&clock_utc).unwrap();
    let zdt_ny = ZonedDateTime::now_with_clock(&clock_ny).unwrap();

    assert_eq!(zdt_utc.epoch_seconds(), zdt_ny.epoch_seconds());

    assert_eq!(zdt_utc.epoch_seconds(), base.at_zone(ZoneId::utc()).unwrap().epoch_seconds());
    assert_eq!(
        zdt_ny.epoch_seconds(),
        base.at_zone(ZoneId::try_of("America/New_York").unwrap()).unwrap().epoch_seconds()
    );
}

#[test]
fn fixed_clocks_tell_their_instant() {
    let at = Instant::of_epoch_second_nano(1_577_880_000, 123_456_789);
    let clock = Clock::fixed_utc(at);
    assert_eq!(clock.instant(), at);
    assert_eq!(Instant::now_clock(&clock), at);
    assert_eq!(clock.zone(), ZoneId::utc());
    assert_eq!(clock.milliseconds(), 1_577_880_000_123);
    assert_eq!(clock.with_zone(ZoneId::of("Asia/Tokyo")).instant(), at);
    assert_eq!(
        LocalDateTime::now_with_clock(&clock),
        Some(LocalDateTime::of(2020, 1, 1, 12, 0, 0).with_nanosecond(123_456_789))
    );
    assert_eq!(LocalDate::now_with_clock(&clock), Some(LocalDate::of(2020, 1, 1)));
    assert_eq!(Year::now_with_clock(clock), Some(Year::of(2020)));
    assert_eq!(
        LocalTime::now_with_clock(&clock.with_zone(ZoneId::of("Asia/Tokyo"))),
        Some(LocalTime::of_hms_nano(21, 0, 0, 123_456_789))
    );
    assert_eq!(LocalDate::now_with_clock(&clock.with_zone(ZoneId::of("No/Where"))), None);
    let local = LocalDateTime::of(2020, 1, 1, 12, 0, 0).with_nanosecond(9);
    assert_eq!(
        Clock::fixed_at_local(local, ZoneId::utc()),
        Some(Clock::fixed(Instant::of_epoch_second(1_577_880_000), ZoneId::utc()))
    );
    assert_eq!(
        Clock::fixed_at_local(local, ZoneId::of("Asia/Tokyo")).unwrap().instant(),
        Instant::of_epoch_second(1_577_880_000 - 32_400)
    );
    assert_eq!(Clock::fixed_at_zoned(None, ZoneId::utc()), None);
    let before_epoch = Clock::fixed_utc(Instant::of_epoch_second_nano(-1, 999_000_001));
    assert_eq!(before_epoch.milliseconds(), 0);
    assert_eq!(Clock::fixed_utc(Instant::of_epoch_second_nano(-2, 0)).milliseconds(), -2_000);
}

#[test]
fn now_of_the_system_clock_is_plausible() {
    let a = LocalDateTime::now();
    let b = LocalDateTime::now_with_zone(ZoneId::utc()).unwrap();
    assert!((b.epoch_seconds() - a.epoch_seconds()).abs() < 3);
    assert!(a.year() >= 2024);
    assert_eq!(Year::now_with_zone(ZoneId::utc()).unwrap().value(), a.year());
    assert!(LocalDate::now_with_zone(ZoneId::utc()).is_some());
    assert!(LocalTime::now_with_zone(ZoneId::of("Asia/Tokyo")).is_some());
    assert!(LocalTime::now_with_zone(ZoneId::of("No/Where")).is_none());
}

#[test]
fn fixed_utc_clocks_show_the_day_and_year_of_their_instant() {
    // One nanosecond before 2000-01-01T00:00:00Z, and that moment itself.
    let eve = Clock::fixed_utc(Instant::of_epoch_second_nano(946_684_799, 999_999_999));
    assert_eq!(Year::now_with_clock(eve), Some(Year::of(1999)));
    assert_eq!(LocalDate::now_with_clock(&eve), Some(LocalDate::of(1999, 12, 31)));
    assert_eq!(
        LocalTime::now_with_clock(&eve),
        Some(LocalTime::of_hms_nano(23, 59, 59, 999_999_999))
    );
    let new_year = Clock::fixed_utc(Instant::of_epoch_second(946_684_800));
    assert_eq!(Year::now_with_clock(new_year), Some(Year::of(2000)));
    assert_eq!(LocalDate::now_with_clock(&new_year), Some(LocalDate::of(2000, 1, 1)));
    assert_eq!(LocalTime::now_with_clock(&new_year), Some(LocalTime::of_hms_nano(0, 0, 0, 0)));
    // Before the epoch the day is counted downwards.
    let before = Clock::fixed_utc(Instant::of_epoch_second_nano(-1, 999_999_999));
    assert_eq!(Year::now_with_clock(before), Some(Year::of(1969)));
    assert_eq!(LocalDate::now_with_clock(&before), Some(LocalDate::of(1969, 12, 31)));
    assert_eq!(
        LocalTime::now_with_clock(&before),
        Some(LocalTime::of_hms_nano(23, 59, 59, 999_999_999))
    );
    let first = Clock::fixed_utc(Instant::of_epoch_second(-377_705_116_800));
    assert_eq!(Year::now_with_clock(first), Some(Year::of(-9999)));
    let last = Clock::fixed_utc(Instant::of_epoch_second(253_402_300_799));
    assert_eq!(Year::now_with_clock(last), Some(Year::of(9999)));
}

#[test]
fn fixed_clocks_elsewhere_show_a_time_within_eighteen_hours() {
    let at = Instant::of_epoch_second_nano(1_577_880_000, 5);
    let tokyo = Clock::fixed(at, ZoneId::of("Asia/Tokyo"));
    let shown = LocalDateTime::now_with_clock(&tokyo).unwrap();
    assert_eq!(shown, LocalDateTime::of(2020, 1, 1, 21, 0, 0).with_nanosecond(5));
    let eve = Clock::fixed(Instant::of_epoch_second(946_684_799 - 32_400), ZoneId::of("Asia/Tokyo"));
    assert_eq!(Year::now_with_clock(eve), Some(Year::of(1999)));
    assert_eq!(Year::now_with_clock(eve.with_zone(ZoneId::utc())), Some(Year::of(1999)));
    let new_year =
        Clock::fixed(Instant::of_epoch_second(946_684_800 - 32_400), ZoneId::of("Asia/Tokyo"));
    assert_eq!(Year::now_with_clock(new_year), Some(Year::of(2000)));
    assert_eq!(Year::now_with_clock(new_year.with_zone(ZoneId::utc())), Some(Year::of(1999)));
}

#[test]
fn clocks_in_unknown_zones_show_nothing() {
    let nowhere = ZoneId::of("No/Where");
    assert_eq!(LocalDateTime::now_with_zone(nowhere), None);
    assert_eq!(LocalDate::now_with_zone(nowhere), None);
    assert_eq!(LocalTime::now_with_zone(nowhere), None);
    assert_eq!(Year::now_with_zone(nowhere), None);
    assert_eq!(ZonedDateTime::now_with_zone(nowhere), None);
    let fixed = Clock::fixed(Instant::of_epoch_second(0), nowhere);
    assert_eq!(LocalDateTime::now_with_clock(&fixed), None);
    assert_eq!(LocalDate::now_with_clock(&fixed), None);
    assert_eq!(LocalTime::now_with_clock(&fixed), None);
    assert_eq!(Year::now_with_clock(fixed), None);
    assert_eq!(ZonedDateTime::now_with_clock(&fixed), None);
    assert_eq!(Year::now_with_clock(Clock::system(nowhere)), None);
}

#[test]
fn the_present_moment_is_shown_at_utc_and_near_it() {
    let utc = OffsetDateTime::now_with_offset(ZoneOffset::utc()).unwrap();
    assert_eq!(utc.offset(), 0);
    let east = OffsetDateTime::now_with_offset(ZoneOffset::of_hours(18)).unwrap();
    assert_eq!(east.offset(), 64_800);
    let apart = east.to_local_date_time().epoch_seconds() - utc.to_local_date_time().epoch_seconds();
    assert!((64_800..64_803).contains(&apart));
    assert!((east.epoch_seconds() - utc.epoch_seconds()).abs() < 3);
    let zoned = ZonedDateTime::now_with_zone(ZoneId::utc()).unwrap();
    assert_eq!(zoned.offset, ZoneOffset::utc());
    assert_eq!(Year::now().value(), utc.to_local_date_time().year());
}
