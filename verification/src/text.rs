use vstd::prelude::*;
use vstd::string::StringExecFns;

verus! {

/// The numeral of one decimal digit.
pub open spec fn digit_text(digit: nat) -> Seq<char> {
    if digit == 0 {
        "0"@
    } else if digit == 1 {
        "1"@
    } else if digit == 2 {
        "2"@
    } else if digit == 3 {
        "3"@
    } else if digit == 4 {
        "4"@
    } else if digit == 5 {
        "5"@
    } else if digit == 6 {
        "6"@
    } else if digit == 7 {
        "7"@
    } else if digit == 8 {
        "8"@
    } else {
        "9"@
    }
}

/// The decimal numeral of a natural number, without leading zeros.
pub open spec fn digits(number: nat) -> Seq<char>
    decreases number,
{
    if number < 10 {
        digit_text(number)
    } else {
        digits(number / 10) + digit_text(number % 10)
    }
}

/// The decimal numeral of an integer: a minus sign before a negative one.
pub open spec fn decimal(value: int) -> Seq<char> {
    if value < 0 {
        "-"@ + digits((-value) as nat)
    } else {
        digits(value as nat)
    }
}

/// The text of a truth value.
pub open spec fn truth(value: bool) -> Seq<char> {
    if value {
        "true"@
    } else {
        "false"@
    }
}

/// The numeral of one decimal digit.
fn digit_str(digit: u64) -> (text: &'static str)
    requires
        digit < 10,
    ensures
        text@ == digit_text(digit as nat),
{
    if digit == 0 {
        "0"
    } else if digit == 1 {
        "1"
    } else if digit == 2 {
        "2"
    } else if digit == 3 {
        "3"
    } else if digit == 4 {
        "4"
    } else if digit == 5 {
        "5"
    } else if digit == 6 {
        "6"
    } else if digit == 7 {
        "7"
    } else if digit == 8 {
        "8"
    } else {
        "9"
    }
}

/// Writes a natural number in decimal.
pub fn digits_text(number: u64) -> (text: String)
    ensures
        text@ == digits(number as nat),
    decreases number,
{
    if number < 10 {
        digit_str(number).to_owned()
    } else {
        let mut text = digits_text(number / 10);
        text.append(digit_str(number % 10));
        text
    }
}

/// Writes an integer in decimal.
pub fn decimal_text(value: i64) -> (text: String)
    ensures
        text@ == decimal(value as int),
{
    if value < 0 {
        let below: u64 = (-(value + 1)) as u64;
        let mut text = "-".to_owned();
        let size = digits_text(below + 1);
        text.append(size.as_str());
        text
    } else {
        digits_text(value as u64)
    }
}

/// Writes a truth value.
pub fn truth_text(value: bool) -> (text: &'static str)
    ensures
        text@ == truth(value),
{
    if value {
        "true"
    } else {
        "false"
    }
}

} // verus!
