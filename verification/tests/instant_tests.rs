use joda_rs::{ChronoUnit, Instant, LocalDateTime, ZoneId, ZoneOffset};

#[test]
fn arithmetic_and_comparisons() {
    let a = Instant::now();
    let b = a.plus_seconds(1);
    assert!(b.is_after(a));
    assert!(a.is_before(b));
    assert!(a.is_on_or_before(b));
    assert!(b.is_on_or_after(a));

    let c = b.minus_milliseconds(500);
    assert!(c.is_after(a));
    assert!(c.is_before(b));

    let d = c.plus_nanoseconds(1_000_000);
    assert!(d.is_after(c));
}

#[test]
fn epoch_and_at_offset_zone_sanity() {
    let now = Instant::now();
    let epoch = now.epoch_seconds();
    assert!(epoch >= 946684800);

    let odt = now.at_offset(ZoneOffset::of_hours(0));
    let zdt = now.at_zone(ZoneId::utc()).unwrap();
    assert_eq!(odt.epoch_seconds(), zdt.epoch_seconds());
}

#[test]
fn plus_seconds_negative_delegates_to_minus_seconds() {
    let base = Instant::now();
    let a = base.plus_seconds(-3);
    let b = base.minus_seconds(3);
    assert_eq!(a, b);
}

#[test]
fn minus_seconds_negative_delegates_to_plus_seconds() {
    let base = Instant::now();
    let a = base.minus_seconds(-7);
    let b = base.plus_seconds(7);
    assert_eq!(a, b);
}

#[test]
fn plus_millis_negative_delegates_to_minus_millis() {
    let base = Instant::now();
    let a = base.plus_milliseconds(-250);
    let b = base.minus_milliseconds(250);
    assert_eq!(a, b);
}

#[test]
fn minus_millis_negative_delegates_to_plus_millis() {
    let base = Instant::now();
    let a = base.minus_milliseconds(-123);
    let b = base.plus_milliseconds(123);
    assert_eq!(a, b);
}

#[test]
fn plus_nanos_negative_delegates_to_minus_nanos() {
    let base = Instant::now();
    let a = base.plus_nanoseconds(-987_654_321);
    let b = base.minus_nanoseconds(987_654_321);
    assert_eq!(a, b);
}

#[test]
fn minus_nanos_negative_delegates_to_plus_nanos() {
    let base = Instant::now();
    let a = base.minus_nanoseconds(-4_242);
    let b = base.plus_nanoseconds(4_242);
    assert_eq!(a, b);
}

#[test]
fn add_to_instant_time_units() {
    let base = Instant::of_epoch_second(1_000);
    assert_eq!(ChronoUnit::Seconds.add_to(base, 5), base.plus_seconds(5));
    assert_eq!(ChronoUnit::Minutes.add_to(base, 2), base.plus_seconds(120));
    assert_eq!(ChronoUnit::Hours.add_to(base, 1), base.plus_seconds(3_600));
    assert_eq!(ChronoUnit::Nanos.add_to(base, 1_000_000), base.plus_milliseconds(1));
}

#[test]
fn between_instants() {
    let a = Instant::of_epoch_second(0);
    let b = Instant::of_epoch_second(3661);
    assert_eq!(ChronoUnit::Seconds.between(a, b), 3_661);
    assert_eq!(ChronoUnit::Minutes.between(a, b), 61);
    assert_eq!(ChronoUnit::Hours.between(a, b), 1);
    assert_eq!(ChronoUnit::Days.between(a, b), 0);
}

#[test]
fn between_rounds_toward_zero_and_months_are_thirty_days() {
    let a = Instant::of_epoch_second(0);
    let b = Instant::of_epoch_second(3661);
    assert_eq!(ChronoUnit::Hours.between(b, a), -1);
    assert_eq!(ChronoUnit::Minutes.between(b, a), -61);
    assert_eq!(ChronoUnit::Days.between(b, a), 0);
    assert_eq!(ChronoUnit::Millis.between(a, b), 3_661_000);
    assert_eq!(ChronoUnit::Nanos.between(a, b), 3_661_000_000_000);
    assert_eq!(ChronoUnit::HalfDays.between(a, Instant::of_epoch_second(86_400)), 2);
    let thirty_days = Instant::of_epoch_second(30 * 86_400);
    assert_eq!(ChronoUnit::Months.between(a, thirty_days), 1);
    assert_eq!(ChronoUnit::Months.between(a, thirty_days.minus_nanoseconds(1)), 0);
    assert_eq!(ChronoUnit::Weeks.between(a, thirty_days), 4);
    let year = Instant::of_epoch_second(365 * 86_400);
    assert_eq!(ChronoUnit::Years.between(a, year), 1);
    assert_eq!(ChronoUnit::Years.between(year, a), -1);
    assert_eq!(ChronoUnit::Years.between(a, year.minus_seconds(1)), 0);
    assert_eq!(ChronoUnit::whole_units(-1, ChronoUnit::Nanos), -1);
}

#[test]
fn instant_epoch_counts() {
    assert_eq!(Instant::of_epoch_second(0).epoch_nanoseconds(), 0);
    assert_eq!(Instant::of_epoch_second(-1).epoch_seconds(), -1);
    assert_eq!(Instant::of_epoch_second_nano(-1, 500_000_000).epoch_seconds(), -1);
    assert_eq!(Instant::of_epoch_second_nano(-1, 500_000_000).epoch_nanoseconds(), -500_000_000);
    assert_eq!(Instant::of_epoch_second_nano(0, -1).epoch_seconds(), -1);
    assert_eq!(Instant::of_epoch_second_nano(5, 2_000_000_000), Instant::of_epoch_second(7));
    assert_eq!(Instant::of_epoch_millisecond(1_500).epoch_nanoseconds(), 1_500_000_000);
    assert_eq!(Instant::of_epoch_millisecond(-1).epoch_seconds(), -1);
    assert_eq!(Instant::of_epoch_second(7).epoch_milliseconds(), 7_000);
    // The part below the second counts in thousandths of its nanoseconds.
    assert_eq!(Instant::of_epoch_second_nano(7, 500_000_000).epoch_milliseconds(), 7_000 + 500_000);
    assert_eq!(Instant::of_epoch_second(-377_705_116_800).at_offset(ZoneOffset::utc()).to_local_date_time(),
        LocalDateTime::of(-9999, 1, 1, 0, 0, 0));
    assert_eq!(Instant::of_epoch_second(253_402_300_799).at_offset(ZoneOffset::utc()).to_local_date_time(),
        LocalDateTime::of(9999, 12, 31, 23, 59, 59));
}

#[test]
fn instant_at_offsets_shows_the_local_clock() {
    let noon = Instant::of_epoch_second(1_577_880_000); // 2020-01-01T12:00:00Z
    let plus = noon.at_offset(ZoneOffset::of_hours_minutes(5, 30));
    assert_eq!(plus.to_local_date_time(), LocalDateTime::of(2020, 1, 1, 17, 30, 0));
    assert_eq!(plus.offset(), 19_800);
    assert_eq!(plus.epoch_seconds(), 1_577_880_000);
    let minus = noon.at_offset(ZoneOffset::of_hours(-13));
    assert_eq!(minus.to_local_date_time(), LocalDateTime::of(2019, 12, 31, 23, 0, 0));
    assert_eq!(minus.to_instant(), noon);
    assert!(Instant::of_epoch_second(253_402_300_799).is_visible_at(ZoneOffset::utc()));
    assert!(!Instant::of_epoch_second(253_402_300_799).is_visible_at(ZoneOffset::of_hours(1)));
    assert!(Instant::of_epoch_second(253_402_300_799).is_visible_at(ZoneOffset::of_hours(-1)));
    assert!(!Instant::of_epoch_second(-377_705_116_800).is_visible_at(ZoneOffset::of_hours(-1)));
}

#[test]
fn instant_in_zones() {
    let noon = Instant::of_epoch_second(1_577_880_000);
    let utc = noon.at_zone(ZoneId::utc()).unwrap();
    assert_eq!(utc.to_local_date_time(), LocalDateTime::of(2020, 1, 1, 12, 0, 0));
    assert_eq!(utc.zone, ZoneId::utc());
    assert!(noon.at_zone(ZoneId::of("Invalid/Time_Zone")).is_none());
    // With a given offset nothing is looked up.
    let tokyo = ZoneId::of("Asia/Tokyo");
    let shown = noon.at_zone_offset(tokyo, Some(ZoneOffset::of_hours(9))).unwrap();
    assert_eq!(shown.to_local_date_time(), LocalDateTime::of(2020, 1, 1, 21, 0, 0));
    assert_eq!(shown.epoch_seconds(), 1_577_880_000);
    assert!(noon.at_zone_offset(tokyo, None).is_none());
    let last = Instant::of_epoch_second(253_402_300_799);
    assert!(last.at_zone_offset(tokyo, Some(ZoneOffset::of_hours(9))).is_none());
}

#[test]
fn instant_try_at_offset_gives_none_beyond_the_last_year() {
    let noon = Instant::of_epoch_second(1_577_880_000);
    let shown = noon.try_at_offset(ZoneOffset::of_hours_minutes(5, 30)).unwrap();
    assert_eq!(shown.to_local_date_time(), LocalDateTime::of(2020, 1, 1, 17, 30, 0));
    assert_eq!(shown.offset(), 19_800);
    assert_eq!(shown.to_instant(), noon);
    assert_eq!(noon.try_at_offset(ZoneOffset::utc()), Some(noon.at_offset(ZoneOffset::utc())));
    let last = Instant::of_epoch_second(253_402_300_799);
    assert!(last.try_at_offset(ZoneOffset::of_hours(1)).is_none());
    assert_eq!(
        last.try_at_offset(ZoneOffset::of_hours(-1)).unwrap().to_local_date_time(),
        LocalDateTime::of(9999, 12, 31, 22, 59, 59)
    );
    let first = Instant::of_epoch_second(-377_705_116_800);
    assert!(first.try_at_offset(ZoneOffset::of_hours(-1)).is_none());
    assert_eq!(
        first.try_at_offset(ZoneOffset::of_hours(1)).unwrap().to_local_date_time(),
        LocalDateTime::of(-9999, 1, 1, 1, 0, 0)
    );
}
