use joda_rs::{ChronoUnit, DayOfWeek, Duration, LocalDate, LocalDateTime, LocalTime, Month};

#[test]
fn construction_and_parse() {
    let d = LocalDate::of(2025, 9, 15);
    assert_eq!(d, LocalDate::parse("2025-09-15"));
}

#[test]
fn at_time_and_start_of_day() {
    let d = LocalDate::of(2023, 5, 6);
    let lt = LocalTime::of(1, 2, 3);
    let ldt = d.at_time(lt);
    assert_eq!(ldt, LocalDateTime::of(2023, 5, 6, 1, 2, 3));

    let midnight = d.at_start_of_day();
    assert_eq!(midnight, LocalDateTime::of(2023, 5, 6, 0, 0, 0));
}

#[test]
fn queries_and_lengths() {
    let d = LocalDate::of(2020, 2, 29);
    assert_eq!(d.day_of_week(), DayOfWeek::Saturday);
    assert_eq!(d.day_of_month(), 29);
    assert_eq!(d.day_of_year(), 60);
    assert_eq!(d.length_of_month(), 29);
    assert_eq!(d.year(), 2020);

    assert_eq!(d.month(), Month::February);
    assert_eq!(d.month_value(), 2);
    assert!(d.is_leap_year());
    assert_eq!(d.length_of_year(), 366);

    let d2 = LocalDate::of(2021, 3, 14);
    assert_eq!(d2.month(), Month::March);
    assert_eq!(d2.month_value(), 3);
    assert!(!d2.is_leap_year());
    assert_eq!(d2.length_of_year(), 365);
}

#[test]
fn arithmetic_plus_minus_days_weeks_months_years() {
    let base = LocalDate::of(2020, 1, 31);
    assert_eq!(base.plus_days(1), LocalDate::of(2020, 2, 1));
    assert_eq!(base.minus_days(1), LocalDate::of(2020, 1, 30));
    assert_eq!(base.plus_weeks(1), LocalDate::of(2020, 2, 7));
    assert_eq!(base.minus_weeks(2), LocalDate::of(2020, 1, 17));
    assert_eq!(base.plus_months(1), LocalDate::of(2020, 2, 29));
    assert_eq!(LocalDate::of(2019, 1, 31).plus_months(1), LocalDate::of(2019, 2, 28));
    assert_eq!(LocalDate::of(2020, 3, 31).minus_months(1), LocalDate::of(2020, 2, 29));
    assert_eq!(LocalDate::of(2020, 2, 29).plus_years(1), LocalDate::of(2021, 2, 28));
    assert_eq!(LocalDate::of(2020, 2, 29).minus_years(1), LocalDate::of(2019, 2, 28));
}

#[test]
fn adjusters_with_methods() {
    let w = LocalDate::of(2021, 6, 15);
    assert_eq!(w.with_day_of_month(1), LocalDate::of(2021, 6, 1));
    assert_eq!(w.with_day_of_year(200), LocalDate::of(2021, 7, 19));
    assert_eq!(w.with_month(2), LocalDate::of(2021, 2, 15));
    assert_eq!(w.with_year(2020), LocalDate::of(2020, 6, 15));
}

#[test]
fn local_date_tests_comparisons() {
    let a = LocalDate::of(2020, 1, 1);
    let b = LocalDate::of(2020, 1, 2);
    let a2 = LocalDate::of(2020, 1, 1);

    assert!(a.is_before(b));
    assert!(b.is_after(a));

    assert!(a.is_on_or_before(b));
    assert!(b.is_on_or_after(a));

    assert!(a.is_on_or_before(a2));
    assert!(a.is_on_or_after(a2));
}

#[test]
fn first_and_last_day_of_month_helpers() {
    let d = LocalDate::of(2021, 3, 14);
    assert_eq!(d.first_day_of_month(), LocalDate::of(2021, 3, 1));
    assert_eq!(d.last_day_of_month(), LocalDate::of(2021, 3, 31));

    let feb_leap = LocalDate::of(2020, 2, 10);
    assert_eq!(feb_leap.first_day_of_month(), LocalDate::of(2020, 2, 1));
    assert_eq!(feb_leap.last_day_of_month(), LocalDate::of(2020, 2, 29));

    let feb_non = LocalDate::of(2021, 2, 10);
    assert_eq!(feb_non.first_day_of_month(), LocalDate::of(2021, 2, 1));
    assert_eq!(feb_non.last_day_of_month(), LocalDate::of(2021, 2, 28));
}

#[test]
fn last_day_of_month_year_helper() {
    assert_eq!(LocalDate::last_day_of_month_year(2020, 2), LocalDate::of(2020, 2, 29));
    assert_eq!(LocalDate::last_day_of_month_year(2021, 2), LocalDate::of(2021, 2, 28));
    assert_eq!(LocalDate::last_day_of_month_year(2021, 4), LocalDate::of(2021, 4, 30));
    assert_eq!(LocalDate::last_day_of_month_year(2023, 12), LocalDate::of(2023, 12, 31));
}

#[test]
fn year_and_weekday_helpers() {
    let d = LocalDate::of(2021, 3, 14); // Sunday
    assert_eq!(d.first_day_of_year(), LocalDate::of(2021, 1, 1));
    assert_eq!(d.last_day_of_year(), LocalDate::of(2021, 12, 31));
    assert_eq!(d.first_day_of_next_month(), LocalDate::of(2021, 4, 1));
    assert_eq!(d.first_day_of_next_year(), LocalDate::of(2022, 1, 1));

    let jan2021 = LocalDate::of(2021, 1, 15);
    assert_eq!(jan2021.first_in_month(DayOfWeek::Monday), LocalDate::of(2021, 1, 4));
    assert_eq!(jan2021.first_in_month(DayOfWeek::Friday), LocalDate::of(2021, 1, 1));
    assert_eq!(jan2021.last_in_month(DayOfWeek::Sunday), LocalDate::of(2021, 1, 31));
    assert_eq!(jan2021.last_in_month(DayOfWeek::Tuesday), LocalDate::of(2021, 1, 26));

    assert_eq!(d.next(DayOfWeek::Monday), LocalDate::of(2021, 3, 15));
    assert_eq!(d.next_or_same(DayOfWeek::Sunday), d);
    assert_eq!(d.next_or_same(DayOfWeek::Monday), LocalDate::of(2021, 3, 15));
    assert_eq!(d.previous(DayOfWeek::Saturday), LocalDate::of(2021, 3, 13));
    assert_eq!(d.previous_or_same(DayOfWeek::Sunday), d);
    assert_eq!(d.previous_or_same(DayOfWeek::Friday), LocalDate::of(2021, 3, 12));

    let feb2020 = LocalDate::of(2020, 2, 10);
    assert_eq!(feb2020.first_in_month(DayOfWeek::Saturday), LocalDate::of(2020, 2, 1));
    assert_eq!(feb2020.last_in_month(DayOfWeek::Saturday), LocalDate::of(2020, 2, 29));
}

#[test]
fn plus_months_handles_january_31_days() {
    let d = LocalDate::of(2021, 12, 31).plus_months(1);
    assert_eq!(d, LocalDate::of(2022, 1, 31));

    let d2 = LocalDate::of(2020, 3, 31).minus_months(2);
    assert_eq!(d2, LocalDate::of(2020, 1, 31));
}

#[test]
fn plus_months_clamps_day_according_to_target_month_max_day() {
    let jan31_2021 = LocalDate::of(2021, 1, 31);

    assert_eq!(jan31_2021.plus_months(1), LocalDate::of(2021, 2, 28));
    assert_eq!(jan31_2021.plus_months(2), LocalDate::of(2021, 3, 31));
    assert_eq!(jan31_2021.plus_months(3), LocalDate::of(2021, 4, 30));
    assert_eq!(jan31_2021.plus_months(4), LocalDate::of(2021, 5, 31));
    assert_eq!(jan31_2021.plus_months(5), LocalDate::of(2021, 6, 30));
    assert_eq!(jan31_2021.plus_months(6), LocalDate::of(2021, 7, 31));
    assert_eq!(jan31_2021.plus_months(7), LocalDate::of(2021, 8, 31));
    assert_eq!(jan31_2021.plus_months(8), LocalDate::of(2021, 9, 30));
    assert_eq!(jan31_2021.plus_months(9), LocalDate::of(2021, 10, 31));
    assert_eq!(jan31_2021.plus_months(10), LocalDate::of(2021, 11, 30));
    assert_eq!(jan31_2021.plus_months(11), LocalDate::of(2021, 12, 31));

    let jan31_2024 = LocalDate::of(2024, 1, 31);
    assert_eq!(jan31_2024.plus_months(1), LocalDate::of(2024, 2, 29));
}

#[test]
fn wrappers_smoke_test() {
    let parsed = LocalDate::parse("2025-09-15");
    let expected = LocalDate::of(2025, 9, 15);
    assert_eq!(parsed, expected);

    let d2 = LocalDate::of(2023, 5, 6);
    let ltime = LocalTime::of(1, 2, 3);
    assert_eq!(d2.at_time(ltime), LocalDateTime::of(2023, 5, 6, 1, 2, 3));
    assert_eq!(d2.at_start_of_day(), LocalDateTime::of(2023, 5, 6, 0, 0, 0));

    assert_eq!(DayOfWeek::of(1), DayOfWeek::Monday);
    assert_eq!(DayOfWeek::Sunday.value(), 7);
    assert_eq!(DayOfWeek::Friday.plus(3), DayOfWeek::Monday);
    assert_eq!(DayOfWeek::Monday.minus(1), DayOfWeek::Sunday);

    assert_eq!(Month::of(2), Month::February);
    assert_eq!(Month::December.value(), 12);
    assert_eq!(Month::January.minus(1), Month::December);
    assert_eq!(Month::November.plus(2), Month::January);
    assert_eq!(Month::February.length(false), 28);
    assert_eq!(Month::February.length(true), 29);

    let qd = LocalDate::of(2020, 2, 29);
    assert_eq!(qd.day_of_month(), 29);
    assert_eq!(qd.day_of_year(), 60);
    assert_eq!(qd.length_of_month(), 29);
    assert_eq!(qd.year(), 2020);
    assert_eq!(qd.day_of_week(), DayOfWeek::Saturday);
    assert_eq!(qd.month(), Month::February);
    assert_eq!(qd.month_value(), 2);
    assert!(qd.is_leap_year());
    assert_eq!(qd.length_of_year(), 366);

    let qd2 = LocalDate::of(2021, 3, 14);
    assert_eq!(qd2.month(), Month::March);
    assert_eq!(qd2.month_value(), 3);
    assert!(!qd2.is_leap_year());
    assert_eq!(qd2.length_of_year(), 365);

    let base = LocalDate::of(2020, 1, 31);
    assert_eq!(base.plus_weeks(1), LocalDate::of(2020, 2, 7));
    assert_eq!(base.minus_weeks(2), LocalDate::of(2020, 1, 17));
    assert_eq!(base.plus_months(1), LocalDate::of(2020, 2, 29));
    assert_eq!(LocalDate::of(2019, 1, 31).plus_months(1), LocalDate::of(2019, 2, 28));
    assert_eq!(LocalDate::of(2020, 3, 31).minus_months(1), LocalDate::of(2020, 2, 29));
    assert_eq!(LocalDate::of(2020, 2, 29).plus_years(1), LocalDate::of(2021, 2, 28));
    assert_eq!(LocalDate::of(2020, 2, 29).minus_years(1), LocalDate::of(2019, 2, 28));

    let w = LocalDate::of(2021, 6, 15);
    assert_eq!(w.with_day_of_month(1), LocalDate::of(2021, 6, 1));
    assert_eq!(w.with_day_of_year(200), LocalDate::of(2021, 7, 19));
    assert_eq!(w.with_month(2), LocalDate::of(2021, 2, 15));
    assert_eq!(w.with_year(2020), LocalDate::of(2020, 6, 15));

    assert!(LocalDate::of(2020, 1, 1).is_before(LocalDate::of(2020, 1, 2)));
    assert!(LocalDate::of(2020, 1, 2).is_after(LocalDate::of(2020, 1, 1)));
    let a = LocalDate::of(2020, 1, 1);
    let b = LocalDate::of(2020, 1, 2);
    let a2 = LocalDate::of(2020, 1, 1);
    assert!(a.is_on_or_before(b));
    assert!(b.is_on_or_after(a));
    assert!(a.is_on_or_before(a2));
    assert!(a.is_on_or_after(a2));
}

#[test]
fn add_to_local_date_date_units() {
    let d = LocalDate::of(2020, 1, 31);
    assert_eq!(ChronoUnit::Days.add_to(d, 1), LocalDate::of(2020, 2, 1));
    assert_eq!(ChronoUnit::Weeks.add_to(d, 1), LocalDate::of(2020, 2, 7));
    assert_eq!(ChronoUnit::Months.add_to(d, 1), LocalDate::of(2020, 2, 29));
    assert_eq!(ChronoUnit::Years.add_to(d, 1), LocalDate::of(2021, 1, 31));
}

#[test]
fn plus_is_minus_of_the_negated_count() {
    let dates = [
        LocalDate::of(2020, 1, 31),
        LocalDate::of(2020, 2, 29),
        LocalDate::of(-1, 12, 31),
        LocalDate::of(0, 3, 30),
        LocalDate::of(1999, 8, 31),
    ];
    for d in dates {
        for n in [-37, -25, -13, -12, -1, 0, 1, 11, 12, 13, 25, 40] {
            assert_eq!(d.plus_months(n), d.minus_months(-n));
            assert_eq!(d.plus_years(n as i64), d.minus_years(-(n as i64)));
        }
    }
}

#[test]
fn months_and_years_across_year_zero() {
    assert_eq!(LocalDate::of(0, 1, 31).minus_months(1), LocalDate::of(-1, 12, 31));
    assert_eq!(LocalDate::of(-1, 2, 28).minus_months(2), LocalDate::of(-2, 12, 28));
    assert_eq!(LocalDate::of(-1, 12, 31).plus_months(2), LocalDate::of(0, 2, 29));
    assert_eq!(LocalDate::of(-4, 2, 29).plus_years(1), LocalDate::of(-3, 2, 28));
    assert_eq!(LocalDate::of(2019, 3, 31).plus_months(-1), LocalDate::of(2019, 2, 28));
}

#[test]
fn days_across_the_range_and_epoch_days() {
    assert_eq!(LocalDate::of_epoch_day(0), LocalDate::of(1970, 1, 1));
    assert_eq!(LocalDate::of_epoch_day(-1), LocalDate::of(1969, 12, 31));
    assert_eq!(LocalDate::of_epoch_day(19_000), LocalDate::of(2022, 1, 8));
    assert_eq!(LocalDate::of_epoch_day(-4_371_587), LocalDate::of(-9999, 1, 1));
    assert_eq!(LocalDate::of_epoch_day(2_932_896), LocalDate::of(9999, 12, 31));
    assert_eq!(LocalDate::of(1970, 1, 1).to_epoch_day(), 0);
    assert_eq!(LocalDate::of(2000, 3, 1).to_epoch_day(), 11_017);
    assert_eq!(LocalDate::of(-9999, 1, 1).plus_days(7_304_483), LocalDate::of(9999, 12, 31));
    assert_eq!(LocalDate::of(2020, 12, 31).plus_days(366), LocalDate::of(2022, 1, 1));
    assert_eq!(LocalDate::of(1900, 3, 1).minus_days(1), LocalDate::of(1900, 2, 28));
    assert_eq!(LocalDate::of(2000, 3, 1).minus_days(1), LocalDate::of(2000, 2, 29));
}

#[test]
fn ordinal_dates_and_validity() {
    assert_eq!(LocalDate::of_year_day(2024, 60), LocalDate::of(2024, 2, 29));
    assert_eq!(LocalDate::of_year_day(2023, 60), LocalDate::of(2023, 3, 1));
    assert_eq!(LocalDate::of_year_day(2023, 365), LocalDate::of(2023, 12, 31));
    assert_eq!(LocalDate::of_year_day(2024, 366), LocalDate::of(2024, 12, 31));
    assert_eq!(LocalDate::of_year_day(2024, 1), LocalDate::of(2024, 1, 1));
    assert_eq!(LocalDate::of(2023, 12, 31).day_of_year(), 365);
    assert!(LocalDate::is_valid(2024, 2, 29));
    assert!(!LocalDate::is_valid(2023, 2, 29));
    assert!(!LocalDate::is_valid(2023, 4, 31));
    assert!(!LocalDate::is_valid(2023, 13, 1));
    assert!(!LocalDate::is_valid(2023, 0, 1));
    assert!(!LocalDate::is_valid(2023, 1, 0));
    assert!(!LocalDate::is_valid(10_000, 1, 1));
    assert!(!LocalDate::is_valid(-10_000, 1, 1));
    assert!(LocalDate::is_valid(-9999, 1, 1));
}

#[test]
fn weekday_navigation_moves_the_right_way() {
    let sunday = LocalDate::of(2021, 3, 14);
    // `next` and `previous` never stay: the same day of the week is a week away.
    assert_eq!(sunday.next(DayOfWeek::Sunday), LocalDate::of(2021, 3, 21));
    assert_eq!(sunday.previous(DayOfWeek::Sunday), LocalDate::of(2021, 3, 7));
    assert_eq!(sunday.next(DayOfWeek::Saturday), LocalDate::of(2021, 3, 20));
    assert_eq!(sunday.previous(DayOfWeek::Monday), LocalDate::of(2021, 3, 8));
    assert_eq!(sunday.previous_or_same(DayOfWeek::Monday), LocalDate::of(2021, 3, 8));
    // Across a year's end.
    assert_eq!(LocalDate::of(2020, 12, 30).next(DayOfWeek::Friday), LocalDate::of(2021, 1, 1));
    assert_eq!(LocalDate::of(2021, 1, 1).previous(DayOfWeek::Thursday), LocalDate::of(2020, 12, 31));
    // Known weekdays, and one before year 1.
    assert_eq!(LocalDate::of(1970, 1, 1).day_of_week(), DayOfWeek::Thursday);
    assert_eq!(LocalDate::of(2000, 1, 1).day_of_week(), DayOfWeek::Saturday);
    assert_eq!(LocalDate::of(-4713, 11, 24).day_of_week(), DayOfWeek::Monday);
}

#[test]
fn subtraction_of_dates_counts_days() {
    let a = LocalDate::of(2020, 3, 1);
    let b = LocalDate::of(2020, 2, 1);
    assert_eq!(a - b, Duration::of_days(29));
    assert_eq!(b - a, Duration::of_days(-29));
    assert_eq!(a.since(a), Duration::of_seconds(0));
}

#[test]
fn date_text_and_parse_round_trip() {
    assert_eq!(LocalDate::of(2025, 1, 5).to_string(), "2025-01-05");
    assert_eq!(LocalDate::of(5, 12, 31).to_string(), "0005-12-31");
    assert_eq!(LocalDate::of(-44, 3, 15).to_string(), "-0044-03-15");
    assert_eq!(LocalDate::of(0, 1, 1).to_string(), "0000-01-01");
    let dates = [
        LocalDate::of(2024, 2, 29),
        LocalDate::of(-9999, 1, 1),
        LocalDate::of(9999, 12, 31),
        LocalDate::of(0, 6, 30),
        LocalDate::of(-1, 12, 31),
    ];
    for d in dates {
        assert_eq!(LocalDate::parse(&d.to_string()), d);
        assert_eq!(LocalDate::try_parse(&d.to_string()), Some(d));
    }
}

#[test]
fn date_parse_rejects_what_is_no_date() {
    assert_eq!(LocalDate::try_parse(""), None);
    assert_eq!(LocalDate::try_parse("2025-9-15"), None);
    assert_eq!(LocalDate::try_parse("2025-09-15 "), None);
    assert_eq!(LocalDate::try_parse("2025/09/15"), None);
    assert_eq!(LocalDate::try_parse("2023-02-29"), None);
    assert_eq!(LocalDate::try_parse("2023-13-01"), None);
    assert_eq!(LocalDate::try_parse("2023-00-10"), None);
    assert_eq!(LocalDate::try_parse("2023-01-00"), None);
    assert_eq!(LocalDate::try_parse("-0000-01-01"), None);
    assert_eq!(LocalDate::try_parse("+2023-01-01"), None);
    assert_eq!(LocalDate::try_parse("20230101"), None);
    assert_eq!(LocalDate::try_parse("２０２３-01-01"), None);
    assert_eq!(LocalDate::try_parse("2023-01-0١"), None);
    assert_eq!(LocalDate::try_parse("-0001-12-31"), Some(LocalDate::of(-1, 12, 31)));
}
