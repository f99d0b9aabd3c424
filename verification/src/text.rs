//! Decimal digits and the ISO-8601 text of dates and times.

use vstd::prelude::*;
use vstd::string::StringExecFns;

verus! {

/// The character of the decimal digit `digit`, from 0 to 9.
#[verifier::opaque]
pub open spec fn digit_char(digit: int) -> char {
    if digit == 0 {
        '0'
    } else if digit == 1 {
        '1'
    } else if digit == 2 {
        '2'
    } else if digit == 3 {
        '3'
    } else if digit == 4 {
        '4'
    } else if digit == 5 {
        '5'
    } else if digit == 6 {
        '6'
    } else if digit == 7 {
        '7'
    } else if digit == 8 {
        '8'
    } else {
        '9'
    }
}

/// The decimal digits of `value`, the most significant first, without
/// leading zeros; the single digit 0 for zero.
pub open spec fn decimal_digits(value: nat) -> Seq<char>
    decreases value,
{
    if value < 10 {
        seq![digit_char(value as int)]
    } else {
        decimal_digits(value / 10).push(digit_char((value % 10) as int))
    }
}

/// A run of `count` zeros.
pub open spec fn zeros(count: nat) -> Seq<char> {
    Seq::new(count, |i: int| '0')
}

/// The decimal digits of `value`, with zeros before them where they are
/// fewer than `width`.
pub open spec fn padded_decimal(value: nat, width: nat) -> Seq<char> {
    let digits = decimal_digits(value);
    if digits.len() >= width {
        digits
    } else {
        zeros((width - digits.len()) as nat) + digits
    }
}

/// The decimal digits of `value`, after a minus sign where it is negative.
pub open spec fn signed_decimal(value: int) -> Seq<char> {
    if value < 0 {
        seq!['-'] + decimal_digits((-value) as nat)
    } else {
        decimal_digits(value as nat)
    }
}

/// The decimal digits of `value` in a field of `width` characters, as a sign
/// aware zero padding fills it: the minus sign of a negative value takes one
/// place of the field.
pub open spec fn signed_padded_decimal(value: int, width: nat) -> Seq<char> {
    if value < 0 {
        seq!['-'] + padded_decimal((-value) as nat, if width >= 1 {
            (width - 1) as nat
        } else {
            0
        })
    } else {
        padded_decimal(value as nat, width)
    }
}

/// The text of one decimal digit.
pub(crate) fn digit_text(digit: u64) -> (text: &'static str)
    requires
        digit < 10,
    ensures
        text@ == seq![digit_char(digit as int)],
{
    proof {
        reveal(digit_char);
        reveal_strlit("0");
        reveal_strlit("1");
        reveal_strlit("2");
        reveal_strlit("3");
        reveal_strlit("4");
        reveal_strlit("5");
        reveal_strlit("6");
        reveal_strlit("7");
        reveal_strlit("8");
        reveal_strlit("9");
    }
    let text: &'static str = if digit == 0 {
        "0"
    } else if digit == 1 {
        "1"
    } else if digit == 2 {
        "2"
    } else if digit == 3 {
        "3"
    } else if digit == 4 {
        "4"
    } else if digit == 5 {
        "5"
    } else if digit == 6 {
        "6"
    } else if digit == 7 {
        "7"
    } else if digit == 8 {
        "8"
    } else {
        "9"
    };
    assert(text@ =~= seq![digit_char(digit as int)]);
    text
}

/// Appends the decimal digits of `value` to `text`.
pub fn append_decimal(text: &mut String, value: u64)
    ensures
        final(text)@ == old(text)@ + decimal_digits(value as nat),
    decreases value,
{
    if value >= 10 {
        append_decimal(text, value / 10);
    }
    text.append(digit_text(value % 10));
    proof {
        let before = old(text)@;
        if value >= 10 {
            assert(final(text)@ =~= before + decimal_digits((value / 10) as nat).push(
                digit_char((value % 10) as int),
            ));
        } else {
            assert(final(text)@ =~= before + decimal_digits(value as nat));
        }
    }
}

/// The number of decimal digits of `value`.
pub fn decimal_length(value: u64) -> (length: usize)
    ensures
        length == decimal_digits(value as nat).len(),
        1 <= length <= 20,
    decreases value,
{
    if value < 10 {
        1
    } else {
        let shorter: usize = decimal_length(value / 10);
        proof {
            lemma_decimal_length_bound(value as nat);
        }
        shorter + 1
    }
}

/// Ten to the power of `exponent`.
pub open spec fn power_of_ten(exponent: nat) -> nat
    decreases exponent,
{
    if exponent == 0 {
        1
    } else {
        10 * power_of_ten((exponent - 1) as nat)
    }
}

/// No value of 64 bits has more than twenty decimal digits.
pub proof fn lemma_decimal_length_bound(value: nat)
    ensures
        decimal_digits(value).len() >= 1,
        value <= u64::MAX ==> decimal_digits(value).len() <= 20,
{
    lemma_decimal_length_step(value, 20);
    reveal_with_fuel(power_of_ten, 21);
    assert(power_of_ten(20) == 100_000_000_000_000_000_000);
}

/// A value with more than `limit` digits is at least ten to the power of `limit`.
proof fn lemma_decimal_length_step(value: nat, limit: nat)
    requires
        limit >= 1,
    ensures
        decimal_digits(value).len() >= 1,
        decimal_digits(value).len() > limit ==> value >= power_of_ten(limit),
    decreases value,
{
    if value >= 10 {
        if limit >= 2 {
            lemma_decimal_length_step(value / 10, (limit - 1) as nat);
        } else {
            lemma_decimal_length_step(value / 10, 1);
            reveal_with_fuel(power_of_ten, 2);
        }
    }
}

/// Appends the decimal digits of `value` to `text`, with zeros before them
/// where they are fewer than `width`.
pub fn append_padded_decimal(text: &mut String, value: u64, width: usize)
    ensures
        final(text)@ == old(text)@ + padded_decimal(value as nat, width as nat),
{
    let ghost before = text@;
    let length: usize = decimal_length(value);
    let mut filled: usize = length;
    while filled < width
        invariant
            length <= filled,
            filled <= width || filled == length,
            text@ == before + zeros((filled - length) as nat),
        decreases width - filled,
    {
        proof {
            reveal_strlit("0");
        }
        text.append("0");
        filled = filled + 1;
        assert(text@ =~= before + zeros((filled - length) as nat));
    }
    append_decimal(text, value);
    assert(text@ =~= before + padded_decimal(value as nat, width as nat));
}

/// The decimal digits of `value` as text, after a minus sign where it is negative.
pub fn signed_decimal_string(value: i64) -> (text: String)
    ensures
        text@ == signed_decimal(value as int),
{
    let mut text: String = String::new();
    if value < 0 {
        proof {
            reveal_strlit("-");
        }
        text.append("-");
        assert(text@ =~= seq!['-']);
        let magnitude: u64 = if value == i64::MIN {
            9_223_372_036_854_775_808
        } else {
            (-value) as u64
        };
        append_decimal(&mut text, magnitude);
    } else {
        append_decimal(&mut text, value as u64);
        assert(text@ =~= decimal_digits(value as nat));
    }
    text
}

} // verus!
