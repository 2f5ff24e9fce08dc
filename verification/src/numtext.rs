//! Decimal text for the integers that appear in SQL statements and in the
//! JSON output: unsigned and signed values, and scores held in half-units.

use vstd::prelude::*;
use vstd::string::StringExecFns;

verus! {

/// The decimal digit character for a value below ten.
pub open spec fn digit_char(d: int) -> char {
    if d == 0 {
        '0'
    } else if d == 1 {
        '1'
    } else if d == 2 {
        '2'
    } else if d == 3 {
        '3'
    } else if d == 4 {
        '4'
    } else if d == 5 {
        '5'
    } else if d == 6 {
        '6'
    } else if d == 7 {
        '7'
    } else if d == 8 {
        '8'
    } else {
        '9'
    }
}

/// The usual decimal rendering of a non-negative integer: no sign, no
/// leading zeros (except for zero itself, rendered as "0").
pub open spec fn spec_u64_text(n: int) -> Seq<char>
    decreases n,
{
    if n < 10 {
        seq![digit_char(n)]
    } else {
        spec_u64_text(n / 10) + seq![digit_char(n % 10)]
    }
}

/// The decimal rendering of a signed integer: a leading '-' for negative
/// values, then the digits of the magnitude.
pub open spec fn spec_i64_text(n: int) -> Seq<char> {
    if n < 0 {
        seq!['-'] + spec_u64_text(-n)
    } else {
        spec_u64_text(n)
    }
}

fn digit_str(d: u64) -> (r: &'static str)
    requires
        d < 10,
    ensures
        r@ == seq![digit_char(d as int)],
{
    proof {
        reveal_strlit("0");
        reveal_strlit("1");
        reveal_strlit("2");
        reveal_strlit("3");
        reveal_strlit("4");
        reveal_strlit("5");
        reveal_strlit("6");
        reveal_strlit("7");
        reveal_strlit("8");
        reveal_strlit("9");
    }
    let r: &'static str = if d == 0 {
        "0"
    } else if d == 1 {
        "1"
    } else if d == 2 {
        "2"
    } else if d == 3 {
        "3"
    } else if d == 4 {
        "4"
    } else if d == 5 {
        "5"
    } else if d == 6 {
        "6"
    } else if d == 7 {
        "7"
    } else if d == 8 {
        "8"
    } else {
        "9"
    };
    proof {
        assert(r@ =~= seq![digit_char(d as int)]);
    }
    r
}

/// Render a non-negative value in decimal.
pub fn u64_text(n: u64) -> (r: String)
    ensures
        r@ == spec_u64_text(n as int),
    decreases n,
{
    if n < 10 {
        String::from_str(digit_str(n))
    } else {
        let high = u64_text(n / 10);
        let r = high.concat(digit_str(n % 10));
        proof {
            assert(r@ =~= spec_u64_text(n as int));
        }
        r
    }
}

/// Render a signed value in decimal, with a leading '-' when negative.
pub fn i64_text(n: i64) -> (r: String)
    ensures
        r@ == spec_i64_text(n as int),
{
    if n >= 0 {
        u64_text(n as u64)
    } else {
        let magnitude: u64 = (-(n as i128)) as u64;
        assert(magnitude == -(n as int));
        let mut r = String::from_str("-");
        proof {
            reveal_strlit("-");
        }
        r.append(u64_text(magnitude).as_str());
        proof {
            assert(r@ =~= spec_i64_text(n as int));
        }
        r
    }
}

} // verus!
