//! Rendering of row counts as decimal strings, proved exact against a
//! recursive specification of the usual base-ten notation.

use vstd::prelude::*;
use vstd::string::StringExecFns;

verus! {

/// The character that denotes a single decimal digit.
pub open spec fn spec_digit_char(d: nat) -> char {
    if d == 0 {
        '0'
    } else if d == 1 {
        '1'
    } else if d == 2 {
        '2'
    } else if d == 3 {
        '3'
    } else if d == 4 {
        '4'
    } else if d == 5 {
        '5'
    } else if d == 6 {
        '6'
    } else if d == 7 {
        '7'
    } else if d == 8 {
        '8'
    } else {
        '9'
    }
}

/// The decimal notation of `n`, most significant digit first, with no
/// leading zeros (a single `'0'` for zero itself).
pub open spec fn spec_digits(n: nat) -> Seq<char>
    decreases n,
{
    if n < 10 {
        seq![spec_digit_char(n)]
    } else {
        spec_digits(n / 10).push(spec_digit_char(n % 10))
    }
}

/// The one-character string for a single decimal digit.
fn digit_str(d: usize) -> (s: &'static str)
    requires
        d < 10,
    ensures
        s@ =~= seq![spec_digit_char(d as nat)],
{
    proof {
        reveal_strlit("0");
        reveal_strlit("1");
        reveal_strlit("2");
        reveal_strlit("3");
        reveal_strlit("4");
        reveal_strlit("5");
        reveal_strlit("6");
        reveal_strlit("7");
        reveal_strlit("8");
        reveal_strlit("9");
    }
    match d {
        0 => "0",
        1 => "1",
        2 => "2",
        3 => "3",
        4 => "4",
        5 => "5",
        6 => "6",
        7 => "7",
        8 => "8",
        _ => "9",
    }
}

/// Renders `n` in decimal, exactly as `spec_digits` describes it.
pub fn usize_to_decimal(n: usize) -> (s: String)
    ensures
        s@ == spec_digits(n as nat),
    decreases n,
{
    if n < 10 {
        String::from_str(digit_str(n))
    } else {
        let mut s = usize_to_decimal(n / 10);
        s.append(digit_str(n % 10));
        s
    }
}

} // verus!
