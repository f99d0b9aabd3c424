use joda_rs::{
    ChronoUnit, DayOfWeek, Duration, Instant, LocalDate, Month, MonthDay, Period, Year, YearMonth,
    ZoneId,
};

#[test]
fn is_time_based_flags() {
    assert!(ChronoUnit::Nanos.is_time_based());
    assert!(ChronoUnit::Millis.is_time_based());
    assert!(ChronoUnit::Seconds.is_time_based());
    assert!(ChronoUnit::Minutes.is_time_based());
    assert!(ChronoUnit::Hours.is_time_based());
    assert!(ChronoUnit::HalfDays.is_time_based());

    assert!(!ChronoUnit::Days.is_time_based());
    assert!(!ChronoUnit::Weeks.is_time_based());
    assert!(!ChronoUnit::Months.is_time_based());
    assert!(!ChronoUnit::Years.is_time_based());
}

#[test]
fn is_date_based_flags() {
    assert!(ChronoUnit::Days.is_date_based());
    assert!(ChronoUnit::Weeks.is_date_based());
    assert!(ChronoUnit::Months.is_date_based());
    assert!(ChronoUnit::Years.is_date_based());

    assert!(!ChronoUnit::Nanos.is_date_based());
    assert!(!ChronoUnit::Millis.is_date_based());
    assert!(!ChronoUnit::Seconds.is_date_based());
    assert!(!ChronoUnit::Minutes.is_date_based());
    assert!(!ChronoUnit::Hours.is_date_based());
    assert!(!ChronoUnit::HalfDays.is_date_based());
}

#[test]
fn duration_mappings() {
    assert_eq!(ChronoUnit::Nanos.duration(), Duration::of_nanoseconds(1));
    assert_eq!(ChronoUnit::Millis.duration(), Duration::of_milliseconds(1));
    assert_eq!(ChronoUnit::Seconds.duration(), Duration::of_seconds(1));
    assert_eq!(ChronoUnit::Minutes.duration(), Duration::of_minutes(1));
    assert_eq!(ChronoUnit::Hours.duration(), Duration::of_hours(1));
    assert_eq!(ChronoUnit::HalfDays.duration(), Duration::of_hours(12));
    assert_eq!(ChronoUnit::Days.duration(), Duration::of_days(1));
    assert_eq!(ChronoUnit::Weeks.duration(), Duration::of_days(7));
    assert_eq!(ChronoUnit::Months.duration(), Duration::of_days(30));
    assert_eq!(ChronoUnit::Years.duration(), Duration::of_days(365));
}

#[test]
fn display_strings() {
    assert_eq!(ChronoUnit::Nanos.to_string(), "NANOS");
    assert_eq!(ChronoUnit::Millis.to_string(), "MILLIS");
    assert_eq!(ChronoUnit::Seconds.to_string(), "SECONDS");
    assert_eq!(ChronoUnit::Minutes.to_string(), "MINUTES");
    assert_eq!(ChronoUnit::Hours.to_string(), "HOURS");
    assert_eq!(ChronoUnit::HalfDays.to_string(), "HALF_DAYS");
    assert_eq!(ChronoUnit::Days.to_string(), "DAYS");
    assert_eq!(ChronoUnit::Weeks.to_string(), "WEEKS");
    assert_eq!(ChronoUnit::Months.to_string(), "MONTHS");
    assert_eq!(ChronoUnit::Years.to_string(), "YEARS");
}

#[test]
fn of_and_value_and_display() {
    assert_eq!(DayOfWeek::of(1), DayOfWeek::Monday);
    assert_eq!(DayOfWeek::of(7), DayOfWeek::Sunday);
    assert_eq!(DayOfWeek::Friday.value(), 5);
    assert_eq!(DayOfWeek::Wednesday.to_string(), "WEDNESDAY");
}

#[test]
fn of_maps_midweek_days() {
    assert_eq!(DayOfWeek::of(3), DayOfWeek::Wednesday);
    assert_eq!(DayOfWeek::of(4), DayOfWeek::Thursday);
    assert_eq!(DayOfWeek::of(5), DayOfWeek::Friday);
}

#[test]
fn plus_minus_wrapping() {
    assert_eq!(DayOfWeek::Monday.plus(7), DayOfWeek::Monday);
    assert_eq!(DayOfWeek::Monday.plus(8), DayOfWeek::Tuesday);
    assert_eq!(DayOfWeek::Sunday.plus(1), DayOfWeek::Monday);

    assert_eq!(DayOfWeek::Monday.minus(1), DayOfWeek::Sunday);
    assert_eq!(DayOfWeek::Thursday.minus(5), DayOfWeek::Saturday);
}

#[test]
fn display_uppercase_all_days() {
    let cases = [
        (DayOfWeek::Monday, "MONDAY"),
        (DayOfWeek::Tuesday, "TUESDAY"),
        (DayOfWeek::Wednesday, "WEDNESDAY"),
        (DayOfWeek::Thursday, "THURSDAY"),
        (DayOfWeek::Friday, "FRIDAY"),
        (DayOfWeek::Saturday, "SATURDAY"),
        (DayOfWeek::Sunday, "SUNDAY"),
    ];
    for (d, expected) in cases {
        assert_eq!(d.to_string(), expected);
    }
}

#[test]
fn day_of_week_try_of_accepts_and_rejects() {
    assert_eq!(DayOfWeek::try_of(1), Ok(DayOfWeek::Monday));
    assert_eq!(DayOfWeek::try_of(7), Ok(DayOfWeek::Sunday));
    assert_eq!(DayOfWeek::try_of(0), Err("invalid day-of-week value (1-7)"));
    assert_eq!(DayOfWeek::try_of(8), Err("invalid day-of-week value (1-7)"));
}

#[test]
fn day_of_week_weekend_and_extreme_counts() {
    assert!(DayOfWeek::Saturday.is_weekend());
    assert!(DayOfWeek::Sunday.is_weekend());
    assert!(DayOfWeek::Friday.is_weekday());
    assert!(!DayOfWeek::Friday.is_weekend());
    // i64::MIN is 6 modulo 7 going back, i64::MAX is 0 modulo 7 going on.
    assert_eq!(DayOfWeek::Monday.plus(i64::MAX), DayOfWeek::Monday);
    assert_eq!(DayOfWeek::Monday.minus(i64::MIN), DayOfWeek::Tuesday);
    assert_eq!(DayOfWeek::Monday.plus(-1), DayOfWeek::Sunday);
}

#[test]
fn day_of_week_maps_to_time_weekday_and_back() {
    let days = [
        (DayOfWeek::Monday, time::Weekday::Monday),
        (DayOfWeek::Tuesday, time::Weekday::Tuesday),
        (DayOfWeek::Wednesday, time::Weekday::Wednesday),
        (DayOfWeek::Thursday, time::Weekday::Thursday),
        (DayOfWeek::Friday, time::Weekday::Friday),
        (DayOfWeek::Saturday, time::Weekday::Saturday),
        (DayOfWeek::Sunday, time::Weekday::Sunday),
    ];
    for (day, weekday) in days {
        assert_eq!(DayOfWeek::from(weekday), day);
        assert_eq!(time::Weekday::from(day), weekday);
        assert_eq!(weekday.number_from_monday() as i32, day.value());
    }
}

#[test]
fn month_day_tests_constructors_and_queries() {
    let md = MonthDay::of(2, 29);
    assert_eq!(md.month(), Month::February);
    assert_eq!(md.month_value(), 2);
    assert_eq!(md.day_of_month(), 29);

    let md2 = MonthDay::of_month_day(Month::April, 30);
    assert_eq!(md2.month(), Month::April);
    assert_eq!(md2.day_of_month(), 30);
}

#[test]
fn month_day_tests_comparisons() {
    let a = MonthDay::of(1, 15);
    let b = MonthDay::of(2, 1);
    let c = MonthDay::of(2, 1);
    assert!(a.is_before(b));
    assert!(b.is_after(a));
    assert!(b.is_on_or_after(c));
    assert!(b.is_on_or_before(c));
}

#[test]
fn at_year_clamps_when_needed() {
    let md = MonthDay::of(2, 29);
    let d_non_leap = md.at_year(2023);
    assert_eq!(d_non_leap, LocalDate::of(2023, 2, 28));

    let d_leap = md.at_year(2024);
    assert_eq!(d_leap, LocalDate::of(2024, 2, 29));
}

#[test]
fn month_day_validity() {
    assert!(MonthDay::is_valid(Month::February, 29));
    assert!(!MonthDay::is_valid(Month::February, 30));
    assert!(!MonthDay::is_valid(Month::April, 31));
    assert!(!MonthDay::is_valid(Month::January, 0));
    assert!(MonthDay::is_valid(Month::December, 31));
}

#[test]
fn of_value_and_display() {
    assert_eq!(Month::of(1), Month::January);
    assert_eq!(Month::of(12), Month::December);
    assert_eq!(Month::March.value(), 3);
    assert_eq!(Month::September.to_string(), "SEPTEMBER");
}

#[test]
fn of_maps_july_through_november() {
    assert_eq!(Month::of(7), Month::July);
    assert_eq!(Month::of(8), Month::August);
    assert_eq!(Month::of(9), Month::September);
    assert_eq!(Month::of(10), Month::October);
    assert_eq!(Month::of(11), Month::November);
}

#[test]
fn length_min_max_and_leap() {
    assert_eq!(Month::February.length(false), 28);
    assert_eq!(Month::February.length(true), 29);
    assert_eq!(Month::April.min_length(), 30);
    assert_eq!(Month::January.max_length(), 31);
}

#[test]
fn plus_minus() {
    assert_eq!(Month::November.plus(2), Month::January);
    assert_eq!(Month::March.plus(24), Month::March);
    assert_eq!(Month::May.plus(8), Month::January);
    assert_eq!(Month::May.plus(-7), Month::October);

    assert_eq!(Month::January.minus(1), Month::December);
    assert_eq!(Month::August.minus(14), Month::June);
    assert_eq!(Month::May.minus(8), Month::September);
    assert_eq!(Month::May.minus(-7), Month::December);
}

#[test]
fn length_for_may_through_november() {
    let cases = [
        (Month::May, 31),
        (Month::June, 30),
        (Month::July, 31),
        (Month::August, 31),
        (Month::September, 30),
        (Month::October, 31),
        (Month::November, 30),
    ];
    for (m, days) in cases {
        assert_eq!(m.length(false), days, "min length for {:?}", m);
        assert_eq!(m.length(true), days, "max length for {:?}", m);
        assert_eq!(m.min_length(), days);
        assert_eq!(m.max_length(), days);
    }
}

#[test]
fn display_uppercase_all_months() {
    let cases = [
        (Month::January, "JANUARY"),
        (Month::February, "FEBRUARY"),
        (Month::March, "MARCH"),
        (Month::April, "APRIL"),
        (Month::May, "MAY"),
        (Month::June, "JUNE"),
        (Month::July, "JULY"),
        (Month::August, "AUGUST"),
        (Month::September, "SEPTEMBER"),
        (Month::October, "OCTOBER"),
        (Month::November, "NOVEMBER"),
        (Month::December, "DECEMBER"),
    ];
    for (m, expected) in cases {
        assert_eq!(m.to_string(), expected);
    }
}

#[test]
fn month_plus_extreme_counts() {
    // i64::MAX is 7 modulo 12, i64::MIN is 4 modulo 12.
    assert_eq!(Month::January.plus(i64::MAX), Month::August);
    assert_eq!(Month::January.plus(i64::MIN), Month::May);
    assert_eq!(Month::January.minus(i64::MIN), Month::September);
}

#[test]
fn period_tests_constructors_and_queries() {
    assert_eq!(Period::of(1, 2, 3), Period::new(1, 2, 3));
    assert_eq!(Period::of_years(2), Period::of(2, 0, 0));
    assert_eq!(Period::of_months(5), Period::of(0, 5, 0));
    assert_eq!(Period::of_weeks(2), Period::of(0, 0, 14));
    assert_eq!(Period::of_days(9), Period::of(0, 0, 9));
    assert!(Period::of(0, 0, 0).is_zero());
}

#[test]
fn getters_and_total_months() {
    let p = Period::of(2, 3, 4);
    assert_eq!(p.years(), 2);
    assert_eq!(p.months(), 3);
    assert_eq!(p.days(), 4);
    assert_eq!(p.total_months(), 27);

    let n1 = Period::of(-1, 6, 0);
    assert_eq!(n1.total_months(), -6);
    let n2 = Period::of(-2, -5, 0);
    assert_eq!(n2.total_months(), -29);
}

#[test]
fn sign_checks_negative_and_positive() {
    assert!(Period::of(-1, 0, 0).is_negative());
    assert!(Period::of(0, -1, 0).is_negative());
    assert!(Period::of(0, 0, -1).is_negative());

    assert!(Period::of(1, 0, 0).is_positive());
    assert!(Period::of(0, 1, 0).is_positive());
    assert!(Period::of(0, 0, 1).is_positive());

    let mixed = Period::of(1, -1, 0);
    assert!(mixed.is_positive());
    assert!(mixed.is_negative());

    let zero = Period::of(0, 0, 0);
    assert!(!zero.is_positive());
    assert!(!zero.is_negative());
}

#[test]
fn arithmetic_plus_minus_and_negated() {
    let p = Period::of(1, 2, 3);
    let q = Period::of(2, 3, 4);
    assert_eq!(p.plus(q), Period::of(3, 5, 7));
    assert_eq!(p.minus(q), Period::of(-1, -1, -1));
    assert_eq!(p.negated(), Period::of(-1, -2, -3));
}

#[test]
fn component_adders_and_subtractors() {
    let p = Period::of(1, 2, 3)
        .plus_years(4)
        .plus_months(5)
        .plus_days(6)
        .minus_years(1)
        .minus_months(2)
        .minus_days(3);
    assert_eq!(p, Period::of(4, 5, 6));
}

#[test]
fn withers_update_single_component() {
    let base = Period::of(1, 2, 3);

    let y = base.with_years(10);
    assert_eq!(y, Period::of(10, 2, 3));

    let m = base.with_months(-5);
    assert_eq!(m, Period::of(1, -5, 3));

    let d = base.with_days(0);
    assert_eq!(d, Period::of(1, 2, 0));

    assert_eq!(base, Period::of(1, 2, 3));
}

#[test]
fn withers_are_const_usable() {
    let p1: Period = Period::of(1, 2, 3).with_years(7);
    let p2: Period = Period::of_years(7).with_months(4).with_days(5);

    assert_eq!(p1, Period::of(7, 2, 3));
    assert_eq!(p2, Period::of(7, 4, 5));
}

#[test]
fn period_default_is_zero_and_months_are_not_folded() {
    assert_eq!(Period::default(), Period::of(0, 0, 0));
    let p = Period::of(0, 12, 0);
    assert_eq!(p.years(), 0);
    assert_eq!(p.months(), 12);
    assert_eq!(p.total_months(), 12);
}

#[test]
fn construction_and_accessors() {
    let ym = YearMonth::of(2024, 2);
    assert_eq!(ym.year(), 2024);
    assert_eq!(ym.month(), Month::February);
    assert_eq!(ym.month_value(), 2);
}

#[test]
fn now_exists() {
    let _ = YearMonth::now();
}

#[test]
fn lengths_and_leap() {
    let feb_leap = YearMonth::of(2020, 2);
    assert!(feb_leap.is_leap_year());
    assert_eq!(feb_leap.length_of_month(), 29);

    let feb_non = YearMonth::of(2021, 2);
    assert!(!feb_non.is_leap_year());
    assert_eq!(feb_non.length_of_month(), 28);
}

#[test]
fn at_day_builds_local_date_and_validates() {
    let ym = YearMonth::of(2024, 2);
    let d = ym.at_day(29);
    assert_eq!(d, LocalDate::of(2024, 2, 29));
    let first = ym.first_day_of_month();
    let last = ym.last_day_of_month();
    assert_eq!(first, LocalDate::of(2024, 2, 1));
    assert_eq!(last, LocalDate::of(2024, 2, 29));

    let ym_non = YearMonth::of(2021, 2);
    assert_eq!(ym_non.first_day_of_month(), LocalDate::of(2021, 2, 1));
    assert_eq!(ym_non.last_day_of_month(), LocalDate::of(2021, 2, 28));
}

#[test]
fn arithmetic_and_adjusters() {
    let ym = YearMonth::of(2020, 1);
    assert_eq!(ym.plus_months(1), YearMonth::of(2020, 2));
    assert_eq!(ym.minus_months(1), YearMonth::of(2019, 12));
    assert_eq!(YearMonth::of(2020, 12).plus_months(1), YearMonth::of(2021, 1));

    assert_eq!(ym.plus_years(2), YearMonth::of(2022, 1));
    assert_eq!(ym.minus_years(1), YearMonth::of(2019, 1));

    assert_eq!(ym.with_month(12), YearMonth::of(2020, 12));
    assert_eq!(ym.with_year(1999), YearMonth::of(1999, 1));
}

#[test]
fn comparisons_and_display() {
    let a = YearMonth::of(2020, 5);
    let b = YearMonth::of(2020, 6);
    assert!(a.is_before(b));
    assert!(b.is_after(a));
    assert!(a.is_on_or_before(b));
    assert!(b.is_on_or_after(a));
    assert_eq!(a.to_string(), "2020-05");
}

#[test]
fn year_month_text_pads_and_signs() {
    assert_eq!(YearMonth::of(5, 1).to_string(), "0005-01");
    assert_eq!(YearMonth::of(-5, 12).to_string(), "-005-12");
    assert_eq!(YearMonth::of(12345, 7).to_string(), "12345-07");
    assert_eq!(YearMonth::of(0, 1).to_string(), "0000-01");
}

#[test]
fn year_month_months_cross_year_zero() {
    assert_eq!(YearMonth::of(0, 1).minus_months(1), YearMonth::of(-1, 12));
    assert_eq!(YearMonth::of(-1, 12).plus_months(1), YearMonth::of(0, 1));
    assert_eq!(YearMonth::of(-1, 2).minus_months(14), YearMonth::of(-3, 12));
    assert_eq!(YearMonth::of(2020, 1).plus_months(-25), YearMonth::of(2017, 12));
}

#[test]
fn basic_queries_and_display() {
    let y = Year::of(2024);
    assert!(y.is_leap());
    assert_eq!(y.length(), 366);
    assert_eq!(y.plus(1).value(), 2025);
    assert_eq!(y.minus(25).value(), 1999);
    assert_eq!(y.to_string(), "2024");
}

#[test]
fn at_day_and_at_month_day() {
    let y = Year::of(2024);
    let jan1 = y.at_day(1);
    assert_eq!(jan1, LocalDate::of(2024, 1, 1));
    let feb29 = y.at_month_day(Month::February, 29);
    assert_eq!(feb29, LocalDate::of(2024, 2, 29));
}

#[test]
fn non_leap_year_values() {
    let y = Year::of(2023);
    assert!(!y.is_leap());
    assert_eq!(y.length(), 365);
}

#[test]
fn now_utc_matches_current_year() {
    let y = Year::now().value();
    let expected = time::OffsetDateTime::now_utc().date().year();
    assert_eq!(y, expected);
}

#[test]
fn comparison_helpers() {
    let a = Year::of(2023);
    let b = Year::of(2025);
    let c = Year::of(2025);

    assert!(a.is_before(b));
    assert!(!b.is_before(a));

    assert!(b.is_after(a));
    assert!(!a.is_after(b));

    assert!(a.is_on_or_before(b));
    assert!(b.is_on_or_before(c));

    assert!(b.is_on_or_after(a));
    assert!(b.is_on_or_after(c));
}

#[test]
fn at_month_returns_expected_year_month() {
    let y = Year::of(2024);
    let ym = y.at_month(Month::February);
    let expected = YearMonth::of_year_month(2024, Month::February);
    assert_eq!(ym, expected);
    assert!(ym.is_leap_year());

    let y2 = Year::of(2023);
    let ym2 = y2.at_month(Month::February);
    assert!(!ym2.is_leap_year());
}

#[test]
fn leap_years_follow_the_century_rule() {
    assert!(Year::of(2000).is_leap());
    assert!(!Year::of(1900).is_leap());
    assert!(Year::of(2024).is_leap());
    assert!(!Year::of(2023).is_leap());
    assert!(Year::of(0).is_leap());
    assert!(Year::of(-4).is_leap());
    assert!(!Year::of(-100).is_leap());
    assert!(Year::of(-400).is_leap());
    assert!(!Year::of(-1).is_leap());
}

#[test]
fn year_text_and_day_beyond_year_end() {
    assert_eq!(Year::of(-44).to_string(), "-44");
    assert_eq!(Year::of(0).to_string(), "0");
    assert_eq!(Year::of(i32::MIN).to_string(), "-2147483648");
    // Day 366 of a common year is the first day of the next year.
    assert_eq!(Year::of(2023).at_day(366), LocalDate::of(2024, 1, 1));
    assert_eq!(Year::of(2024).at_day(366), LocalDate::of(2024, 12, 31));
    // The count stops at the last date that can be held.
    assert_eq!(Year::of(9999).at_day(400), LocalDate::of(9999, 12, 31));
}

#[test]
fn year_and_month_at_an_instant() {
    let eve = Instant::of_epoch_second_nano(946_684_799, 999_999_999);
    assert_eq!(YearMonth::at_instant(eve), YearMonth::of(1999, 12));
    assert_eq!(Year::at_instant(eve), Year::of(1999));
    let new_year = Instant::of_epoch_second(946_684_800);
    assert_eq!(YearMonth::at_instant(new_year), YearMonth::of(2000, 1));
    assert_eq!(Year::at_instant(new_year), Year::of(2000));
    let leap_day = Instant::of_epoch_second(1_709_164_800); // 2024-02-29T00:00:00Z
    assert_eq!(YearMonth::at_instant(leap_day), YearMonth::of(2024, 2));
    let before = Instant::of_epoch_second_nano(-1, 999_999_999);
    assert_eq!(YearMonth::at_instant(before), YearMonth::of(1969, 12));
    assert_eq!(Year::at_instant(before), Year::of(1969));
    let first = Instant::of_epoch_second(-377_705_116_800);
    assert_eq!(YearMonth::at_instant(first), YearMonth::of(-9999, 1));
    let last = Instant::of_epoch_second(253_402_300_799);
    assert_eq!(YearMonth::at_instant(last), YearMonth::of(9999, 12));
    assert_eq!(Year::at_instant(last), Year::of(9999));
}

#[test]
fn zone_ids_are_read_from_text() {
    let tokyo: ZoneId = "Asia/Tokyo".parse().unwrap();
    assert_eq!(tokyo.id(), "Asia/Tokyo");
    assert_eq!(tokyo, ZoneId::parse("Asia/Tokyo").unwrap());
    let missing: Result<ZoneId, &'static str> = "No/Where".parse();
    assert_eq!(missing, Err("Unknown time zone"));
}
