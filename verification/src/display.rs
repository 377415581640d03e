//! Two-decimal display text for nonnegative fixed-point values.

use vstd::prelude::*;
use vstd::string::StringExecFns;
use crate::MICRO;

verus! {

/// The decimal digit character for a value from zero to nine.
pub open spec fn digit_char(d: int) -> char {
    if d == 0 {
        '0'
    } else if d == 1 {
        '1'
    } else if d == 2 {
        '2'
    } else if d == 3 {
        '3'
    } else if d == 4 {
        '4'
    } else if d == 5 {
        '5'
    } else if d == 6 {
        '6'
    } else if d == 7 {
        '7'
    } else if d == 8 {
        '8'
    } else {
        '9'
    }
}

/// A nonnegative value in micro-units rounded to centi-units, halves
/// rounding up.
pub open spec fn round_centi_spec(v: int) -> int {
    (v + 5000) / 10000
}

/// The four characters "d.dd" for a value given in centi-units, below one
/// thousand.
pub open spec fn two_decimals_spec(centi: int) -> Seq<char> {
    seq![
        digit_char(centi / 100),
        '.',
        digit_char((centi / 10) % 10),
        digit_char(centi % 10),
    ]
}

/// Display text for a nonnegative value in micro-units: the value rounded
/// to two decimal places, one integer digit.
pub open spec fn display_spec(v: int) -> Seq<char> {
    two_decimals_spec(round_centi_spec(v))
}

/// The one-character string for a decimal digit.
fn digit_str(d: u64) -> (r: &'static str)
    requires
        d < 10,
    ensures
        r@ == seq![digit_char(d as int)],
{
    let r: &'static str = match d {
        0 => "0",
        1 => "1",
        2 => "2",
        3 => "3",
        4 => "4",
        5 => "5",
        6 => "6",
        7 => "7",
        8 => "8",
        _ => "9",
    };
    proof {
        reveal_strlit("0");
        reveal_strlit("1");
        reveal_strlit("2");
        reveal_strlit("3");
        reveal_strlit("4");
        reveal_strlit("5");
        reveal_strlit("6");
        reveal_strlit("7");
        reveal_strlit("8");
        reveal_strlit("9");
        assert(r@ =~= seq![digit_char(d as int)]);
    }
    r
}

/// Formats a nonnegative value in micro-units to two decimal places.
pub fn format_two_decimals(v: i64) -> (r: String)
    requires
        0 <= v <= 9 * MICRO,
    ensures
        r@ == display_spec(v as int),
{
    proof {
        vstd::arithmetic::div_mod::lemma_div_is_ordered(v + 5000, 9_005_000, 10000);
        assert(9_005_000int / 10000 == 900);
    }
    let centi: u64 = ((v as u64) + 5000) / 10000;
    let int_digit: u64 = centi / 100;
    let tenths_digit: u64 = (centi / 10) % 10;
    let hundredths_digit: u64 = centi % 10;
    let mut s = String::from_str(digit_str(int_digit));
    s.append(".");
    s.append(digit_str(tenths_digit));
    s.append(digit_str(hundredths_digit));
    proof {
        reveal_strlit(".");
        assert(s@ =~= display_spec(v as int));
    }
    s
}

} // verus!
