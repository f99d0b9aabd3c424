use joda_rs::calendar::{is_valid_date, leap_year, month_day_of_ordinal, month_length, ordinal_of};
use joda_rs::{DayOfWeek, LocalDate};

/// The Julian day number of a date, counted from the lengths of the years and
/// months before it.
fn counted_julian_day(year: i32, month: u8, day: u8) -> i64 {
    let y = (year as i64) - 1;
    let before_year = 365 * y + y.div_euclid(4) - y.div_euclid(100) + y.div_euclid(400);
    let mut before_month = 0i64;
    for m in 1..month {
        before_month += month_length(year, m) as i64;
    }
    before_year + before_month + (day as i64) + 1_721_425
}

/// The date after `date`, found by the lengths of the months alone.
fn day_after(date: LocalDate) -> LocalDate {
    if (date.day as i32) < date.length_of_month() {
        LocalDate::of(date.year, date.month as i32, date.day as i32 + 1)
    } else if date.month < 12 {
        LocalDate::of(date.year, date.month as i32 + 1, 1)
    } else {
        LocalDate::of(date.year + 1, 1, 1)
    }
}

fn sweep(first_epoch_day: i64, last_epoch_day: i64) {
    let mut expected = LocalDate::of_epoch_day(first_epoch_day);
    let mut weekday = expected.day_of_week();
    for epoch_day in first_epoch_day..=last_epoch_day {
        let date = LocalDate::of_epoch_day(epoch_day);
        assert_eq!(date, expected, "epoch day {}", epoch_day);
        assert!(is_valid_date(date.year, date.month as i32, date.day as i32));
        assert_eq!(date.to_epoch_day(), epoch_day);
        assert_eq!(
            counted_julian_day(date.year, date.month, date.day),
            epoch_day + 2_440_588,
            "{:?}",
            date
        );
        assert_eq!(date.day_of_week(), weekday, "{:?}", date);
        assert_eq!(
            date.day_of_week().value() as i64,
            (epoch_day + 2_440_588).rem_euclid(7) + 1
        );
        if epoch_day < last_epoch_day {
            expected = day_after(date);
            weekday = weekday.plus(1);
        }
    }
}

#[test]
fn every_day_from_the_first_to_year_minus_5000() {
    sweep(-4_371_587, -2_545_375);
}

#[test]
fn every_day_from_year_minus_5000_to_year_0() {
    sweep(-2_545_375, -719_528);
}

#[test]
fn every_day_from_year_0_to_year_5000() {
    sweep(-719_528, 1_106_685);
}

#[test]
fn every_day_from_year_5000_to_the_last() {
    sweep(1_106_685, 2_932_896);
}

#[test]
fn the_ends_of_the_sweeps_are_where_they_should_be() {
    assert_eq!(LocalDate::of_epoch_day(-4_371_587), LocalDate::of(-9999, 1, 1));
    assert_eq!(LocalDate::of_epoch_day(-2_545_375), LocalDate::of(-4999, 1, 1));
    assert_eq!(LocalDate::of_epoch_day(-719_528), LocalDate::of(0, 1, 1));
    assert_eq!(LocalDate::of_epoch_day(1_106_685), LocalDate::of(5000, 1, 1));
    assert_eq!(LocalDate::of_epoch_day(2_932_896), LocalDate::of(9999, 12, 31));
    assert_eq!(LocalDate::of(2000, 1, 1).day_of_week(), DayOfWeek::Saturday);
}

#[test]
fn every_day_of_the_year_has_its_month_and_day() {
    for year in [-9999, -400, -1, 0, 1, 1900, 2000, 2023, 2024, 9999] {
        let length = if leap_year(year) { 366 } else { 365 };
        let mut month = 1u8;
        let mut day = 1u8;
        for ordinal in 1..=length {
            assert_eq!(month_day_of_ordinal(year, ordinal), (month, day));
            assert_eq!(ordinal_of(year, month, day), ordinal);
            assert_eq!(LocalDate::of_year_day(year, ordinal as i32).day_of_year(), ordinal as i32);
            if day < month_length(year, month) {
                day += 1;
            } else {
                month += 1;
                day = 1;
            }
        }
        assert_eq!((month, day), (13, 1));
    }
}
