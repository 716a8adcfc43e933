//! Verified decimal rendering of integer values: the specification of the
//! digit string of a mathematical integer, and executable functions proved
//! to produce exactly that string.

use vstd::prelude::*;
use vstd::string::StringExecFns;

verus! {

/// The decimal digit character for `d`, meaningful for `0 <= d <= 9`.
pub open spec fn spec_digit(d: nat) -> char {
    if d == 0 {
        '0'
    } else if d == 1 {
        '1'
    } else if d == 2 {
        '2'
    } else if d == 3 {
        '3'
    } else if d == 4 {
        '4'
    } else if d == 5 {
        '5'
    } else if d == 6 {
        '6'
    } else if d == 7 {
        '7'
    } else if d == 8 {
        '8'
    } else {
        '9'
    }
}

/// The decimal rendering of a nonnegative integer, most significant digit
/// first, with no leading zeros (a single `'0'` for zero itself).
pub open spec fn spec_udec(n: nat) -> Seq<char>
    decreases n,
{
    if n < 10 {
        seq![spec_digit(n)]
    } else {
        spec_udec(n / 10) + seq![spec_digit(n % 10)]
    }
}

/// The decimal rendering of a mathematical integer: a leading `'-'` for a
/// negative value, then the digits of its magnitude.
pub open spec fn spec_dec(x: int) -> Seq<char> {
    if x < 0 {
        seq!['-'] + spec_udec((-x) as nat)
    } else {
        spec_udec(x as nat)
    }
}

/// The one-character string holding the decimal digit `d`.
fn digit_str(d: u64) -> (r: &'static str)
    requires
        d < 10,
    ensures
        r@ == seq![spec_digit(d as nat)],
{
    proof {
        reveal_strlit("0");
        reveal_strlit("1");
        reveal_strlit("2");
        reveal_strlit("3");
        reveal_strlit("4");
        reveal_strlit("5");
        reveal_strlit("6");
        reveal_strlit("7");
        reveal_strlit("8");
        reveal_strlit("9");
    }
    match d {
        0 => "0",
        1 => "1",
        2 => "2",
        3 => "3",
        4 => "4",
        5 => "5",
        6 => "6",
        7 => "7",
        8 => "8",
        _ => "9",
    }
}

/// Renders an unsigned value in decimal.
pub fn dec_u64(x: u64) -> (r: String)
    ensures
        r@ == spec_udec(x as nat),
    decreases x,
{
    if x < 10 {
        digit_str(x).to_owned()
    } else {
        let mut r = dec_u64(x / 10);
        r.append(digit_str(x % 10));
        r
    }
}

/// Renders a signed value in decimal, with a leading `'-'` when negative.
pub fn dec_i64(x: i64) -> (r: String)
    ensures
        r@ == spec_dec(x as int),
{
    if x >= 0 {
        dec_u64(x as u64)
    } else {
        let mag: u64 = if x == i64::MIN {
            9223372036854775808
        } else {
            (-x) as u64
        };
        proof {
            reveal_strlit("-");
        }
        let mut r = "-".to_owned();
        r.append(dec_u64(mag).as_str());
        r
    }
}

} // verus!
