//! Rendering of normalized telemetry values as display text.
//!
//! A value held in hundredths is rendered as its decimal text with exactly
//! two fraction digits, the form the hub displays.

use vstd::prelude::*;
use vstd::string::StringExecFns;
use crate::units::mag;

verus! {

/// The decimal digit character for `d`.
pub open spec fn digit_char(d: int) -> char {
    if d == 0 {
        '0'
    } else if d == 1 {
        '1'
    } else if d == 2 {
        '2'
    } else if d == 3 {
        '3'
    } else if d == 4 {
        '4'
    } else if d == 5 {
        '5'
    } else if d == 6 {
        '6'
    } else if d == 7 {
        '7'
    } else if d == 8 {
        '8'
    } else {
        '9'
    }
}

/// Decimal text of a natural number, most significant digit first, no
/// leading zeros except for zero itself.
pub open spec fn spec_dec(n: nat) -> Seq<char>
    decreases n,
{
    if n < 10 {
        seq![digit_char(n as int)]
    } else {
        spec_dec(n / 10) + seq![digit_char((n % 10) as int)]
    }
}

/// Display text of a value held in hundredths: an optional minus sign, the
/// whole part in decimal, a dot, and exactly two fraction digits.
pub open spec fn spec_centi(v: int) -> Seq<char> {
    let m = mag(v);
    let sign: Seq<char> = if v < 0 {
        seq!['-']
    } else {
        Seq::<char>::empty()
    };
    sign + spec_dec((m / 100) as nat) + seq!['.', digit_char(m % 100 / 10), digit_char(m % 10)]
}

/// The one-character string for a decimal digit.
fn digit_str(d: u64) -> (r: &'static str)
    requires
        d < 10,
    ensures
        r@ == seq![digit_char(d as int)],
{
    let s: &'static str = match d {
        0 => "0",
        1 => "1",
        2 => "2",
        3 => "3",
        4 => "4",
        5 => "5",
        6 => "6",
        7 => "7",
        8 => "8",
        _ => "9",
    };
    proof {
        reveal_strlit("0");
        reveal_strlit("1");
        reveal_strlit("2");
        reveal_strlit("3");
        reveal_strlit("4");
        reveal_strlit("5");
        reveal_strlit("6");
        reveal_strlit("7");
        reveal_strlit("8");
        reveal_strlit("9");
        assert(s@ =~= seq![digit_char(d as int)]);
    }
    s
}

/// Decimal text of `n`.
pub fn dec_string(n: u64) -> (r: String)
    ensures
        r@ == spec_dec(n as nat),
    decreases n,
{
    if n < 10 {
        digit_str(n).to_owned()
    } else {
        let mut s = dec_string(n / 10);
        s.append(digit_str(n % 10));
        s
    }
}

/// Renders a value held in hundredths with two fraction digits.
pub fn format_centi(v: i64) -> (r: String)
    requires
        v > i64::MIN,
    ensures
        r@ == spec_centi(v as int),
{
    let m: u64 = if v >= 0 {
        v as u64
    } else {
        (-v) as u64
    };
    let mut s: String = if v < 0 {
        "-".to_owned()
    } else {
        String::new()
    };
    let whole = dec_string(m / 100);
    s.append(whole.as_str());
    s.append(".");
    s.append(digit_str(m % 100 / 10));
    s.append(digit_str(m % 10));
    proof {
        reveal_strlit("-");
        reveal_strlit(".");
        assert(s@ =~= spec_centi(v as int));
    }
    s
}

} // verus!
