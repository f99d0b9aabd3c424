//! The ISO-8601 text of dates, of times of day, and of dates with times.
//!
//! A date reads `YYYY-MM-DD`, with a minus sign before the year of a date
//! before year 0. A time of day reads `HH:MM:SS`, followed by a point and up
//! to nine digits of a fraction of the second where there is one. A date and
//! time reads as the date, the letter `T` and the time of day.

use vstd::prelude::*;
use vstd::string::{StrSliceExecFns, StringExecFns};
use crate::calendar::{is_valid_date, valid_date};
use crate::local_date::LocalDate;
use crate::local_date_time::LocalDateTime;
use crate::local_time::LocalTime;
use crate::text::{digit_char, digit_text, power_of_ten};

verus! {

/// Whether `c` is one of the decimal digits.
pub open spec fn is_digit(c: char) -> bool {
    48 <= c as int <= 57
}

/// The value of the decimal digit `c`.
pub open spec fn digit_value(c: char) -> int {
    c as int - 48
}

/// The two decimal digits of a value below 100.
pub open spec fn two_digits(value: int) -> Seq<char> {
    seq![digit_char(value / 10), digit_char(value % 10)]
}

/// The four decimal digits of a value below 10_000.
pub open spec fn four_digits(value: int) -> Seq<char> {
    seq![
        digit_char(value / 1000),
        digit_char((value / 100) % 10),
        digit_char((value / 10) % 10),
        digit_char(value % 10),
    ]
}

/// The nine decimal digits of a value below 1_000_000_000.
pub open spec fn nine_digits(value: int) -> Seq<char> {
    seq![
        digit_char(value / 100_000_000),
        digit_char((value / 10_000_000) % 10),
        digit_char((value / 1_000_000) % 10),
        digit_char((value / 100_000) % 10),
        digit_char((value / 10_000) % 10),
        digit_char((value / 1_000) % 10),
        digit_char((value / 100) % 10),
        digit_char((value / 10) % 10),
        digit_char(value % 10),
    ]
}

/// Whether `text` holds digits at the `count` places from `start`.
pub open spec fn digits_at(text: Seq<char>, start: int, count: int) -> bool {
    forall|i: int| start <= i < start + count ==> is_digit(#[trigger] text[i])
}

/// The number that the two digits of `text` from `start` make.
pub open spec fn number_of_two(text: Seq<char>, start: int) -> int {
    digit_value(text[start]) * 10 + digit_value(text[start + 1])
}

/// The number that the four digits of `text` from `start` make.
pub open spec fn number_of_four(text: Seq<char>, start: int) -> int {
    digit_value(text[start]) * 1000 + digit_value(text[start + 1]) * 100 + digit_value(
        text[start + 2],
    ) * 10 + digit_value(text[start + 3])
}

/// The number that the first `places` of nine fraction digits make, where
/// `text` holds the digits from `start` on and every place after its end
/// counts as a zero.
pub open spec fn fraction_prefix(text: Seq<char>, start: int, places: nat) -> int
    decreases places,
{
    if places == 0 {
        0
    } else {
        let index = start + places - 1;
        fraction_prefix(text, start, (places - 1) as nat) * 10 + if index < text.len() {
            digit_value(text[index])
        } else {
            0
        }
    }
}

/// The text of a date of the given year, read as a sign and a magnitude,
/// month and day.
pub open spec fn date_layout(negative: bool, magnitude: int, month: int, day: int) -> Seq<char> {
    let sign: Seq<char> = if negative {
        seq!['-']
    } else {
        Seq::<char>::empty()
    };
    sign + four_digits(magnitude) + seq!['-'] + two_digits(month) + seq!['-'] + two_digits(day)
}

/// The text of a date.
pub open spec fn date_text(date: LocalDate) -> Seq<char> {
    date_layout(
        date.year < 0,
        if date.year < 0 {
            -date.year
        } else {
            date.year as int
        },
        date.month as int,
        date.day as int,
    )
}

/// The text of the hour, minute and second of a time of day.
pub open spec fn clock_text(hour: int, minute: int, second: int) -> Seq<char> {
    two_digits(hour) + seq![':'] + two_digits(minute) + seq![':'] + two_digits(second)
}

/// The text of a time of day.
pub open spec fn time_text(time: LocalTime) -> Seq<char> {
    let whole = clock_text(time.hour as int, time.minute as int, time.second as int);
    if time.nano == 0 {
        whole
    } else {
        whole + seq!['.'] + nine_digits(time.nano as int)
    }
}

/// The text of a date and time.
pub open spec fn date_time_text(date_time: LocalDateTime) -> Seq<char> {
    date_text(date_time.date) + seq!['T'] + time_text(date_time.time)
}

/// The date that `text` is the text of, if it is the text of one: four
/// digits of a year, after a minus sign or not, two digits of a month and two
/// of a day, with hyphens between them, that name a date of the calendar. A
/// year 0 takes no minus sign.
pub open spec fn date_of_text(text: Seq<char>) -> Option<LocalDate> {
    let negative: bool = text.len() > 0 && text[0] == '-';
    let start: int = if negative {
        1
    } else {
        0
    };
    if text.len() == start + 10 && digits_at(text, start, 4) && text[start + 4] == '-'
        && digits_at(text, start + 5, 2) && text[start + 7] == '-' && digits_at(
        text,
        start + 8,
        2,
    ) {
        let magnitude = number_of_four(text, start);
        let year = if negative {
            -magnitude
        } else {
            magnitude
        };
        let month = number_of_two(text, start + 5);
        let day = number_of_two(text, start + 8);
        if valid_date(year, month, day) && !(negative && magnitude == 0) {
            Some(LocalDate { year: year as i32, month: month as u8, day: day as u8 })
        } else {
            None
        }
    } else {
        None
    }
}

/// The time of day that `text` is the text of, if it is the text of one: two
/// digits each of an hour, a minute and a second, with colons between them,
/// that name a time of day, and after them nothing, or a point and one to
/// nine digits of a fraction of the second.
pub open spec fn time_of_text(text: Seq<char>) -> Option<LocalTime> {
    if text.len() >= 8 && digits_at(text, 0, 2) && text[2] == ':' && digits_at(text, 3, 2)
        && text[5] == ':' && digits_at(text, 6, 2) && (text.len() == 8 || (10 <= text.len() <= 18
        && text[8] == '.' && digits_at(text, 9, text.len() - 9))) {
        let hour = number_of_two(text, 0);
        let minute = number_of_two(text, 3);
        let second = number_of_two(text, 6);
        let nano = if text.len() == 8 {
            0
        } else {
            fraction_prefix(text, 9, 9)
        };
        if hour < 24 && minute < 60 && second < 60 {
            Some(
                LocalTime {
                    hour: hour as u8,
                    minute: minute as u8,
                    second: second as u8,
                    nano: nano as u32,
                },
            )
        } else {
            None
        }
    } else {
        None
    }
}

/// The date and time that `text` is the text of, if it is the text of one:
/// the text of a date, the letter `T` and the text of a time of day.
pub open spec fn date_time_of_text(text: Seq<char>) -> Option<LocalDateTime> {
    let split: int = if text.len() > 0 && text[0] == '-' {
        11
    } else {
        10
    };
    if text.len() > split && text[split] == 'T' {
        match (
            date_of_text(text.subrange(0, split)),
            time_of_text(text.subrange(split + 1, text.len() as int)),
        ) {
            (Some(date), Some(time)) => Some(LocalDateTime { date, time }),
            _ => None,
        }
    } else {
        None
    }
}

/// The characters of `text`.
fn chars_of(text: &str) -> (chars: Vec<char>)
    ensures
        chars@ == text@,
{
    let count: usize = text.unicode_len();
    let mut chars: Vec<char> = Vec::new();
    let mut index: usize = 0;
    while index < count
        invariant
            count == text@.len(),
            index <= count,
            chars@ == text@.subrange(0, index as int),
        decreases count - index,
    {
        let c: char = text.get_char(index);
        chars.push(c);
        index = index + 1;
        assert(chars@ =~= text@.subrange(0, index as int));
    }
    assert(chars@ =~= text@);
    chars
}

/// The value of the digit at `index`, if there is a digit.
fn digit_at(chars: &Vec<char>, index: usize) -> (digit: Option<u32>)
    requires
        index < chars.len(),
    ensures
        is_digit(chars@[index as int]) ==> digit == Some(digit_value(chars@[index as int]) as u32),
        !is_digit(chars@[index as int]) ==> digit.is_none(),
        digit matches Some(d) ==> d <= 9,
{
    let c: char = chars[index];
    if c >= '0' && c <= '9' {
        Some(c as u32 - 48)
    } else {
        None
    }
}

/// The number that the two digits from `start` make, if there are two digits.
fn two_at(chars: &Vec<char>, start: usize) -> (number: Option<u32>)
    requires
        start + 2 <= chars.len(),
    ensures
        digits_at(chars@, start as int, 2) ==> number == Some(
            number_of_two(chars@, start as int) as u32,
        ),
        !digits_at(chars@, start as int, 2) ==> number.is_none(),
        number matches Some(n) ==> n <= 99,
{
    match (digit_at(chars, start), digit_at(chars, start + 1)) {
        (Some(high), Some(low)) => {
            assert(digits_at(chars@, start as int, 2));
            Some(high * 10 + low)
        },
        _ => {
            assert(!is_digit(chars@[start as int]) || !is_digit(chars@[start + 1]));
            None
        },
    }
}

/// The number that the four digits from `start` make, if there are four digits.
fn four_at(chars: &Vec<char>, start: usize) -> (number: Option<u32>)
    requires
        start + 4 <= chars.len(),
    ensures
        digits_at(chars@, start as int, 4) ==> number == Some(
            number_of_four(chars@, start as int) as u32,
        ),
        !digits_at(chars@, start as int, 4) ==> number.is_none(),
        number matches Some(n) ==> n <= 9999,
{
    match (two_at(chars, start), two_at(chars, start + 2)) {
        (Some(high), Some(low)) => {
            assert(digits_at(chars@, start as int, 4)) by {
                assert(digits_at(chars@, start as int, 2));
                assert(digits_at(chars@, start + 2, 2));
                assert forall|i: int| start <= i < start + 4 implies is_digit(
                    #[trigger] chars@[i],
                ) by {
                    if i < start + 2 {
                        assert(is_digit(chars@[i]));
                    } else {
                        assert(is_digit(chars@[i]));
                    }
                }
            }
            Some(high * 100 + low)
        },
        _ => {
            assert(!digits_at(chars@, start as int, 4)) by {
                if digits_at(chars@, start as int, 4) {
                    assert(is_digit(chars@[start as int]));
                    assert(is_digit(chars@[start + 1]));
                    assert(is_digit(chars@[start + 2]));
                    assert(is_digit(chars@[start + 3]));
                    assert(digits_at(chars@, start as int, 2));
                    assert(digits_at(chars@, start + 2, 2));
                }
            }
            None
        },
    }
}

/// The nanoseconds that the fraction digits from `start` to the end make, if
/// all of them are digits.
fn fraction_at(chars: &Vec<char>, start: usize) -> (nanos: Option<u32>)
    requires
        start < chars.len() <= start + 9,
    ensures
        digits_at(chars@, start as int, chars.len() - start) ==> nanos == Some(
            fraction_prefix(chars@, start as int, 9) as u32,
        ),
        !digits_at(chars@, start as int, chars.len() - start) ==> nanos.is_none(),
        nanos matches Some(n) ==> n < 1_000_000_000,
{
    let mut value: u32 = 0;
    let mut place: usize = 0;
    let given: usize = chars.len() - start;
    proof {
        reveal_with_fuel(power_of_ten, 10);
    }
    while place < 9
        invariant
            place <= 9,
            start < chars.len() <= start + 9,
            given == chars.len() - start,
            value == fraction_prefix(chars@, start as int, place as nat),
            0 <= value < power_of_ten(place as nat),
            forall|i: int|
                start <= i < start + place && i < chars.len() ==> is_digit(#[trigger] chars@[i]),
        decreases 9 - place,
    {
        let mut digit: u32 = 0;
        if place < given {
            match digit_at(chars, start + place) {
                Some(d) => {
                    digit = d;
                },
                None => {
                    assert(!digits_at(chars@, start as int, chars.len() - start));
                    return None;
                },
            }
        }
        proof {
            reveal_with_fuel(power_of_ten, 10);
            assert(power_of_ten((place + 1) as nat) == 10 * power_of_ten(place as nat));
            assert(power_of_ten(place as nat) <= 100_000_000);
        }
        value = value * 10 + digit;
        place = place + 1;
    }
    proof {
        reveal_with_fuel(power_of_ten, 10);
    }
    assert(digits_at(chars@, start as int, chars.len() - start));
    Some(value)
}

/// The characters of `chars` from `from` up to `to`.
fn part_of(chars: &Vec<char>, from: usize, to: usize) -> (part: Vec<char>)
    requires
        from <= to <= chars.len(),
    ensures
        part@ == chars@.subrange(from as int, to as int),
{
    let mut part: Vec<char> = Vec::new();
    let mut index: usize = from;
    while index < to
        invariant
            from <= index <= to <= chars.len(),
            part@ == chars@.subrange(from as int, index as int),
        decreases to - index,
    {
        part.push(chars[index]);
        index = index + 1;
        assert(part@ =~= chars@.subrange(from as int, index as int));
    }
    part
}

/// The date that `chars` is the text of, if it is the text of one.
fn parse_date(chars: &Vec<char>) -> (date: Option<LocalDate>)
    ensures
        date == date_of_text(chars@),
        date matches Some(d) ==> d.wf(),
{
    let negative: bool = chars.len() > 0 && chars[0] == '-';
    let start: usize = if negative {
        1
    } else {
        0
    };
    if chars.len() != start + 10 {
        return None;
    }
    if chars[start + 4] != '-' || chars[start + 7] != '-' {
        return None;
    }
    match (four_at(chars, start), two_at(chars, start + 5), two_at(chars, start + 8)) {
        (Some(magnitude), Some(month), Some(day)) => {
            let year: i32 = if negative {
                -(magnitude as i32)
            } else {
                magnitude as i32
            };
            if is_valid_date(year, month as i32, day as i32) && !(negative && magnitude == 0) {
                Some(LocalDate { year, month: month as u8, day: day as u8 })
            } else {
                None
            }
        },
        _ => None,
    }
}

/// The time of day that `chars` is the text of, if it is the text of one.
fn parse_time(chars: &Vec<char>) -> (time: Option<LocalTime>)
    ensures
        time == time_of_text(chars@),
        time matches Some(t) ==> t.wf(),
{
    let length: usize = chars.len();
    if length < 8 {
        return None;
    }
    if chars[2] != ':' || chars[5] != ':' {
        return None;
    }
    let mut nano: u32 = 0;
    if length != 8 {
        if length < 10 || length > 18 || chars[8] != '.' {
            return None;
        }
        match fraction_at(chars, 9) {
            Some(n) => {
                nano = n;
            },
            None => {
                return None;
            },
        }
    }
    match (two_at(chars, 0), two_at(chars, 3), two_at(chars, 6)) {
        (Some(hour), Some(minute), Some(second)) => {
            if hour < 24 && minute < 60 && second < 60 {
                Some(
                    LocalTime {
                        hour: hour as u8,
                        minute: minute as u8,
                        second: second as u8,
                        nano,
                    },
                )
            } else {
                None
            }
        },
        _ => None,
    }
}

/// The date and time that `chars` is the text of, if it is the text of one.
fn parse_date_time(chars: &Vec<char>) -> (date_time: Option<LocalDateTime>)
    ensures
        date_time == date_time_of_text(chars@),
        date_time matches Some(d) ==> d.wf(),
{
    let split: usize = if chars.len() > 0 && chars[0] == '-' {
        11
    } else {
        10
    };
    if chars.len() <= split || chars[split] != 'T' {
        return None;
    }
    let date_part: Vec<char> = part_of(chars, 0, split);
    let time_part: Vec<char> = part_of(chars, split + 1, chars.len());
    match (parse_date(&date_part), parse_time(&time_part)) {
        (Some(date), Some(time)) => Some(LocalDateTime { date, time }),
        _ => None,
    }
}

/// Appends the digit `digit` to `text`.
fn append_digit(text: &mut String, digit: u32)
    requires
        digit <= 9,
    ensures
        final(text)@ == old(text)@.push(digit_char(digit as int)),
{
    text.append(digit_text(digit as u64));
    assert(final(text)@ =~= old(text)@.push(digit_char(digit as int)));
}

/// Appends the two digits of `value` to `text`.
fn append_two(text: &mut String, value: u32)
    requires
        value <= 99,
    ensures
        final(text)@ == old(text)@ + two_digits(value as int),
{
    append_digit(text, value / 10);
    append_digit(text, value % 10);
    assert(final(text)@ =~= old(text)@ + two_digits(value as int));
}

/// Appends the four digits of `value` to `text`.
fn append_four(text: &mut String, value: u32)
    requires
        value <= 9999,
    ensures
        final(text)@ == old(text)@ + four_digits(value as int),
{
    append_digit(text, value / 1000);
    append_digit(text, (value / 100) % 10);
    append_digit(text, (value / 10) % 10);
    append_digit(text, value % 10);
    assert(final(text)@ =~= old(text)@ + four_digits(value as int));
}

/// Appends the nine digits of `value` to `text`.
fn append_nine(text: &mut String, value: u32)
    requires
        value <= 999_999_999,
    ensures
        final(text)@ == old(text)@ + nine_digits(value as int),
{
    append_digit(text, value / 100_000_000);
    append_digit(text, (value / 10_000_000) % 10);
    append_digit(text, (value / 1_000_000) % 10);
    append_digit(text, (value / 100_000) % 10);
    append_digit(text, (value / 10_000) % 10);
    append_digit(text, (value / 1_000) % 10);
    append_digit(text, (value / 100) % 10);
    append_digit(text, (value / 10) % 10);
    append_digit(text, value % 10);
    assert(final(text)@ =~= old(text)@ + nine_digits(value as int));
}

/// Appends the text of `date` to `text`.
fn append_date(text: &mut String, date: LocalDate)
    requires
        date.wf(),
    ensures
        final(text)@ == old(text)@ + date_text(date),
{
    proof {
        reveal_strlit("-");
    }
    if date.year < 0 {
        text.append("-");
        append_four(text, (-date.year) as u32);
    } else {
        append_four(text, date.year as u32);
    }
    text.append("-");
    append_two(text, date.month as u32);
    text.append("-");
    append_two(text, date.day as u32);
    assert("-"@ =~= seq!['-']);
    assert(final(text)@ =~= old(text)@ + date_text(date));
}

/// Appends the text of `time` to `text`.
fn append_time(text: &mut String, time: LocalTime)
    requires
        time.wf(),
    ensures
        final(text)@ == old(text)@ + time_text(time),
{
    proof {
        reveal_strlit(":");
        reveal_strlit(".");
    }
    append_two(text, time.hour as u32);
    text.append(":");
    append_two(text, time.minute as u32);
    text.append(":");
    append_two(text, time.second as u32);
    if time.nano != 0 {
        text.append(".");
        append_nine(text, time.nano);
    }
    assert(":"@ =~= seq![':']);
    assert("."@ =~= seq!['.']);
    assert(final(text)@ =~= old(text)@ + time_text(time));
}

impl LocalDate {
    /// The date that `text` is the text of, if it is the text of one.
    pub fn try_parse(text: &str) -> (date: Option<LocalDate>)
        ensures
            date == date_of_text(text@),
            date matches Some(d) ==> d.wf(),
    {
        let chars: Vec<char> = chars_of(text);
        parse_date(&chars)
    }

    /// The date that `text` is the text of. It must be the text of a date.
    pub fn parse(text: &str) -> (date: LocalDate)
        requires
            date_of_text(text@).is_some(),
        ensures
            Some(date) == date_of_text(text@),
            date.wf(),
    {
        LocalDate::try_parse(text).unwrap()
    }

    /// The text of the date, such as `2025-09-15`.
    pub fn to_string(&self) -> (text: String)
        requires
            self.wf(),
        ensures
            text@ == date_text(*self),
    {
        let mut text: String = String::new();
        append_date(&mut text, *self);
        assert(text@ =~= date_text(*self));
        text
    }
}

impl LocalTime {
    /// The time of day that `text` is the text of, if it is the text of one.
    pub fn try_parse(text: &str) -> (time: Option<LocalTime>)
        ensures
            time == time_of_text(text@),
            time matches Some(t) ==> t.wf(),
    {
        let chars: Vec<char> = chars_of(text);
        parse_time(&chars)
    }

    /// The time of day that `text` is the text of. It must be the text of one.
    pub fn parse(text: &str) -> (time: LocalTime)
        requires
            time_of_text(text@).is_some(),
        ensures
            Some(time) == time_of_text(text@),
            time.wf(),
    {
        LocalTime::try_parse(text).unwrap()
    }

    /// The text of the time of day, such as `09:05:03`, with nine digits of
    /// the fraction of the second where it is not zero.
    pub fn to_string(&self) -> (text: String)
        requires
            self.wf(),
        ensures
            text@ == time_text(*self),
    {
        let mut text: String = String::new();
        append_time(&mut text, *self);
        assert(text@ =~= time_text(*self));
        text
    }
}

impl LocalDateTime {
    /// The date and time that `text` is the text of, if it is the text of one.
    pub fn try_parse(text: &str) -> (date_time: Option<LocalDateTime>)
        ensures
            date_time == date_time_of_text(text@),
            date_time matches Some(d) ==> d.wf(),
    {
        let chars: Vec<char> = chars_of(text);
        parse_date_time(&chars)
    }

    /// The date and time that `text` is the text of. It must be the text of one.
    pub fn parse(text: &str) -> (date_time: LocalDateTime)
        requires
            date_time_of_text(text@).is_some(),
        ensures
            Some(date_time) == date_time_of_text(text@),
            date_time.wf(),
    {
        LocalDateTime::try_parse(text).unwrap()
    }

    /// The text of the date and time, such as `2025-01-05T09:05:03`.
    pub fn to_string(&self) -> (text: String)
        requires
            self.wf(),
        ensures
            text@ == date_time_text(*self),
    {
        proof {
            reveal_strlit("T");
        }
        let mut text: String = String::new();
        append_date(&mut text, self.date);
        text.append("T");
        append_time(&mut text, self.time);
        assert("T"@ =~= seq!['T']);
        assert(text@ =~= date_time_text(*self));
        text
    }
}

/// The character of a digit is a digit, and has the digit as its value.
pub proof fn lemma_digits_give_value(value: int)
    requires
        0 <= value <= 9,
    ensures
        is_digit(digit_char(value)),
        digit_value(digit_char(value)) == value,
        digit_char(value) != '-',
{
    reveal(digit_char);
}

/// The two digits of a value are digits that make the value.
proof fn lemma_two_digits(value: int)
    requires
        0 <= value <= 99,
    ensures
        two_digits(value).len() == 2,
        is_digit(two_digits(value)[0]),
        is_digit(two_digits(value)[1]),
        number_of_two(two_digits(value), 0) == value,
{
    lemma_digits_give_value(value / 10);
    lemma_digits_give_value(value % 10);
}

/// The four digits of a value are digits that make the value.
proof fn lemma_four_digits(value: int)
    requires
        0 <= value <= 9999,
    ensures
        four_digits(value).len() == 4,
        is_digit(four_digits(value)[0]),
        is_digit(four_digits(value)[1]),
        is_digit(four_digits(value)[2]),
        is_digit(four_digits(value)[3]),
        four_digits(value)[0] != '-',
        number_of_four(four_digits(value), 0) == value,
{
    lemma_digits_give_value(value / 1000);
    lemma_digits_give_value((value / 100) % 10);
    lemma_digits_give_value((value / 10) % 10);
    lemma_digits_give_value(value % 10);
}

/// Taking the last digit off a quotient: the quotient by ten times the scale,
/// times ten, and the digit at the scale make the quotient by the scale.
proof fn lemma_digit_at_scale(value: int, scale: int)
    requires
        value >= 0,
        scale > 0,
    ensures
        (value / (scale * 10)) * 10 + (value / scale) % 10 == value / scale,
        0 <= (value / scale) % 10 <= 9,
{
    vstd::arithmetic::div_mod::lemma_div_denominator(value, scale, 10);
    vstd::arithmetic::div_mod::lemma_fundamental_div_mod(value / scale, 10);
}

/// The nine digits of a value below a thousand million, from the highest
/// place down, make the value.
proof fn lemma_nine_places(value: int)
    requires
        0 <= value <= 999_999_999,
    ensures
        0 <= value / 100_000_000 <= 9,
        ((((((((value / 100_000_000) * 10 + (value / 10_000_000) % 10) * 10 + (value / 1_000_000)
            % 10) * 10 + (value / 100_000) % 10) * 10 + (value / 10_000) % 10) * 10 + (value
            / 1_000) % 10) * 10 + (value / 100) % 10) * 10 + (value / 10) % 10) * 10 + value % 10
            == value,
{
    lemma_digit_at_scale(value, 10_000_000);
    lemma_digit_at_scale(value, 1_000_000);
    lemma_digit_at_scale(value, 100_000);
    lemma_digit_at_scale(value, 10_000);
    lemma_digit_at_scale(value, 1_000);
    lemma_digit_at_scale(value, 100);
    lemma_digit_at_scale(value, 10);
    lemma_digit_at_scale(value, 1);
}

/// The nine digits of a value are digits with the values of its places.
proof fn lemma_nine_digit_values(value: int)
    requires
        0 <= value <= 999_999_999,
    ensures
        nine_digits(value).len() == 9,
        forall|i: int| 0 <= i < 9 ==> is_digit(#[trigger] nine_digits(value)[i]),
        digit_value(nine_digits(value)[0]) == value / 100_000_000,
        digit_value(nine_digits(value)[1]) == (value / 10_000_000) % 10,
        digit_value(nine_digits(value)[2]) == (value / 1_000_000) % 10,
        digit_value(nine_digits(value)[3]) == (value / 100_000) % 10,
        digit_value(nine_digits(value)[4]) == (value / 10_000) % 10,
        digit_value(nine_digits(value)[5]) == (value / 1_000) % 10,
        digit_value(nine_digits(value)[6]) == (value / 100) % 10,
        digit_value(nine_digits(value)[7]) == (value / 10) % 10,
        digit_value(nine_digits(value)[8]) == value % 10,
{
    lemma_digits_give_value(value / 100_000_000);
    lemma_digits_give_value((value / 10_000_000) % 10);
    lemma_digits_give_value((value / 1_000_000) % 10);
    lemma_digits_give_value((value / 100_000) % 10);
    lemma_digits_give_value((value / 10_000) % 10);
    lemma_digits_give_value((value / 1_000) % 10);
    lemma_digits_give_value((value / 100) % 10);
    lemma_digits_give_value((value / 10) % 10);
    lemma_digits_give_value(value % 10);
}

/// The nine digits of a value are digits, and read as a fraction of nine
/// places they make the value.
proof fn lemma_nine_digits(value: int)
    requires
        0 <= value <= 999_999_999,
    ensures
        nine_digits(value).len() == 9,
        forall|i: int| 0 <= i < 9 ==> is_digit(#[trigger] nine_digits(value)[i]),
        fraction_prefix(nine_digits(value), 0, 9) == value,
{
    let text = nine_digits(value);
    lemma_nine_digit_values(value);
    lemma_nine_places(value);
    let p1 = fraction_prefix(text, 0, 1);
    let p2 = fraction_prefix(text, 0, 2);
    let p3 = fraction_prefix(text, 0, 3);
    let p4 = fraction_prefix(text, 0, 4);
    let p5 = fraction_prefix(text, 0, 5);
    let p6 = fraction_prefix(text, 0, 6);
    let p7 = fraction_prefix(text, 0, 7);
    let p8 = fraction_prefix(text, 0, 8);
    assert(fraction_prefix(text, 0, 0) == 0);
    assert(p1 == digit_value(text[0]));
    assert(p2 == p1 * 10 + digit_value(text[1]));
    assert(p3 == p2 * 10 + digit_value(text[2]));
    assert(p4 == p3 * 10 + digit_value(text[3]));
    assert(p5 == p4 * 10 + digit_value(text[4]));
    assert(p6 == p5 * 10 + digit_value(text[5]));
    assert(p7 == p6 * 10 + digit_value(text[6]));
    assert(p8 == p7 * 10 + digit_value(text[7]));
    assert(fraction_prefix(text, 0, 9) == p8 * 10 + digit_value(text[8]));
}

/// The fraction that a text holds from a place on is the one that its
/// characters from that place on make by themselves.
proof fn lemma_fraction_of_part(text: Seq<char>, start: int, part: Seq<char>, places: nat)
    requires
        0 <= start <= text.len(),
        part.len() == text.len() - start,
        forall|i: int| 0 <= i < part.len() ==> #[trigger] part[i] == text[start + i],
    ensures
        fraction_prefix(text, start, places) == fraction_prefix(part, 0, places),
    decreases places,
{
    if places > 0 {
        lemma_fraction_of_part(text, start, part, (places - 1) as nat);
        let index = places - 1;
        if start + index < text.len() {
            assert(part[index] == text[start + index]);
        }
    }
}

/// The text of a date holds the digits of its numbers where a reader looks
/// for them.
proof fn lemma_date_layout(negative: bool, magnitude: int, month: int, day: int)
    requires
        0 <= magnitude <= 9999,
        0 <= month <= 99,
        0 <= day <= 99,
    ensures
        ({
            let text = date_layout(negative, magnitude, month, day);
            let start: int = if negative {
                1
            } else {
                0
            };
            &&& text.len() == start + 10
            &&& (text[0] == '-') == negative
            &&& digits_at(text, start, 4)
            &&& text[start + 4] == '-'
            &&& digits_at(text, start + 5, 2)
            &&& text[start + 7] == '-'
            &&& digits_at(text, start + 8, 2)
            &&& number_of_four(text, start) == magnitude
            &&& number_of_two(text, start + 5) == month
            &&& number_of_two(text, start + 8) == day
        }),
{
    let text = date_layout(negative, magnitude, month, day);
    let start: int = if negative {
        1
    } else {
        0
    };
    let year_part = four_digits(magnitude);
    let month_part = two_digits(month);
    let day_part = two_digits(day);
    lemma_four_digits(magnitude);
    lemma_two_digits(month);
    lemma_two_digits(day);
    assert(text.len() == start + 10);
    assert(text[start] == year_part[0]);
    assert(text[start + 1] == year_part[1]);
    assert(text[start + 2] == year_part[2]);
    assert(text[start + 3] == year_part[3]);
    assert(text[start + 4] == '-');
    assert(text[start + 5] == month_part[0]);
    assert(text[start + 6] == month_part[1]);
    assert(text[start + 7] == '-');
    assert(text[start + 8] == day_part[0]);
    assert(text[start + 9] == day_part[1]);
    if negative {
        assert(text[0] == '-');
    } else {
        assert(text[0] == year_part[0]);
    }
}

/// Reading the text of a date gives the date back.
pub proof fn lemma_date_text_round_trip(date: LocalDate)
    requires
        date.wf(),
    ensures
        date_of_text(date_text(date)) == Some(date),
{
    lemma_date_layout(
        date.year < 0,
        if date.year < 0 {
            -date.year
        } else {
            date.year as int
        },
        date.month as int,
        date.day as int,
    );
}

/// The text of an hour, minute and second holds their digits where a reader
/// looks for them.
proof fn lemma_clock_layout(hour: int, minute: int, second: int)
    requires
        0 <= hour <= 99,
        0 <= minute <= 99,
        0 <= second <= 99,
    ensures
        ({
            let text = clock_text(hour, minute, second);
            &&& text.len() == 8
            &&& digits_at(text, 0, 2)
            &&& text[2] == ':'
            &&& digits_at(text, 3, 2)
            &&& text[5] == ':'
            &&& digits_at(text, 6, 2)
            &&& number_of_two(text, 0) == hour
            &&& number_of_two(text, 3) == minute
            &&& number_of_two(text, 6) == second
        }),
{
    let text = clock_text(hour, minute, second);
    let hour_part = two_digits(hour);
    let minute_part = two_digits(minute);
    let second_part = two_digits(second);
    lemma_two_digits(hour);
    lemma_two_digits(minute);
    lemma_two_digits(second);
    assert(text[0] == hour_part[0]);
    assert(text[1] == hour_part[1]);
    assert(text[2] == ':');
    assert(text[3] == minute_part[0]);
    assert(text[4] == minute_part[1]);
    assert(text[5] == ':');
    assert(text[6] == second_part[0]);
    assert(text[7] == second_part[1]);
}

/// A text that goes on after the hour, minute and second with a point and
/// nine digits holds a fraction of that value.
proof fn lemma_fraction_layout(whole: Seq<char>, nanos: int)
    requires
        whole.len() == 8,
        0 <= nanos <= 999_999_999,
    ensures
        ({
            let text = whole + seq!['.'] + nine_digits(nanos);
            &&& text.len() == 18
            &&& forall|i: int| 0 <= i < 8 ==> #[trigger] text[i] == whole[i]
            &&& text[8] == '.'
            &&& digits_at(text, 9, 9)
            &&& fraction_prefix(text, 9, 9) == nanos
        }),
{
    let fraction = nine_digits(nanos);
    let text = whole + seq!['.'] + fraction;
    lemma_nine_digits(nanos);
    assert(text.len() == 18);
    assert(text[8] == '.');
    assert forall|i: int| 0 <= i < 9 implies #[trigger] fraction[i] == text[9 + i] by {}
    assert forall|i: int| 9 <= i < 18 implies is_digit(#[trigger] text[i]) by {
        assert(text[i] == fraction[i - 9]);
    }
    lemma_fraction_of_part(text, 9, fraction, 9);
}

/// Digits that two texts share make the same number in both.
proof fn lemma_two_digits_shared(text: Seq<char>, part: Seq<char>, start: int)
    requires
        0 <= start,
        start + 2 <= part.len() <= text.len(),
        text[start] == part[start],
        text[start + 1] == part[start + 1],
        digits_at(part, start, 2),
    ensures
        digits_at(text, start, 2),
        number_of_two(text, start) == number_of_two(part, start),
{
    assert(is_digit(part[start]));
    assert(is_digit(part[start + 1]));
}

/// Reading the text of a time of day gives the time of day back.
pub proof fn lemma_time_text_round_trip(time: LocalTime)
    requires
        time.wf(),
    ensures
        time_of_text(time_text(time)) == Some(time),
{
    let whole = clock_text(time.hour as int, time.minute as int, time.second as int);
    let text = time_text(time);
    lemma_clock_layout(time.hour as int, time.minute as int, time.second as int);
    if time.nano != 0 {
        lemma_fraction_layout(whole, time.nano as int);
        assert(text[0] == whole[0]);
        assert(text[1] == whole[1]);
        assert(text[2] == whole[2]);
        assert(text[3] == whole[3]);
        assert(text[4] == whole[4]);
        assert(text[5] == whole[5]);
        assert(text[6] == whole[6]);
        assert(text[7] == whole[7]);
        lemma_two_digits_shared(text, whole, 0);
        lemma_two_digits_shared(text, whole, 3);
        lemma_two_digits_shared(text, whole, 6);
    }
}

/// Reading the text of a date and time gives the date and time back.
pub proof fn lemma_date_time_text_round_trip(date_time: LocalDateTime)
    requires
        date_time.wf(),
    ensures
        date_time_of_text(date_time_text(date_time)) == Some(date_time),
{
    let date_part = date_text(date_time.date);
    let time_part = time_text(date_time.time);
    let text = date_time_text(date_time);
    let split: int = if date_time.date.year < 0 {
        11
    } else {
        10
    };
    lemma_date_text_round_trip(date_time.date);
    lemma_time_text_round_trip(date_time.time);
    assert(date_part.len() == split);
    assert(text[0] == date_part[0]);
    lemma_date_layout(
        date_time.date.year < 0,
        if date_time.date.year < 0 {
            -date_time.date.year
        } else {
            date_time.date.year as int
        },
        date_time.date.month as int,
        date_time.date.day as int,
    );
    assert(text[split] == 'T');
    assert(text.subrange(0, split) =~= date_part);
    assert(text.subrange(split + 1, text.len() as int) =~= time_part);
}

} // verus!
