//! Decimal numerals.

use vstd::prelude::*;
use vstd::string::StringExecFns;

verus! {

/// The numeral of a single digit; empty for anything above nine.
pub open spec fn digit(d: nat) -> Seq<char> {
    if d == 0 {
        "0"@
    } else if d == 1 {
        "1"@
    } else if d == 2 {
        "2"@
    } else if d == 3 {
        "3"@
    } else if d == 4 {
        "4"@
    } else if d == 5 {
        "5"@
    } else if d == 6 {
        "6"@
    } else if d == 7 {
        "7"@
    } else if d == 8 {
        "8"@
    } else if d == 9 {
        "9"@
    } else {
        Seq::empty()
    }
}

/// The decimal numeral of `n`, without leading zeros.
pub open spec fn decimal_digits(n: nat) -> Seq<char>
    decreases n,
{
    if n < 10 {
        digit(n)
    } else {
        decimal_digits(n / 10) + digit(n % 10)
    }
}

fn digit_str(d: u32) -> (numeral: &'static str)
    requires
        d < 10,
    ensures
        numeral@ == digit(d as nat),
{
    match d {
        0 => "0",
        1 => "1",
        2 => "2",
        3 => "3",
        4 => "4",
        5 => "5",
        6 => "6",
        7 => "7",
        8 => "8",
        _ => "9",
    }
}

/// Writes `n` in decimal.
pub fn decimal(n: u32) -> (numeral: String)
    ensures
        numeral@ == decimal_digits(n as nat),
    decreases n,
{
    let mut numeral = if n >= 10 {
        decimal(n / 10)
    } else {
        String::new()
    };
    numeral.append(digit_str(n % 10));
    numeral
}

} // verus!
