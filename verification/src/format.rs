//! Verified rendering of fixed-point values.
//!
//! A metric value is an `i64` counting hundredths, so its display form is
//! its decimal magnitude with exactly two digits after the point, and an
//! optional leading minus sign. Counts are plain decimal.

use vstd::prelude::*;
use vstd::arithmetic::div_mod::group_div_basics;

verus! {

/// The decimal digit character for `d` in `0 ..= 9`.
pub open spec fn digit_char(d: int) -> char {
    if d == 0 {
        '0'
    } else if d == 1 {
        '1'
    } else if d == 2 {
        '2'
    } else if d == 3 {
        '3'
    } else if d == 4 {
        '4'
    } else if d == 5 {
        '5'
    } else if d == 6 {
        '6'
    } else if d == 7 {
        '7'
    } else if d == 8 {
        '8'
    } else {
        '9'
    }
}

/// The decimal digits of `n`, most significant first, without leading
/// zeros (except for `n == 0` itself).
pub open spec fn dec_digits(n: nat) -> Seq<char>
    decreases n,
{
    if n < 10 {
        seq![digit_char(n as int)]
    } else {
        dec_digits(n / 10).push(digit_char((n % 10) as int))
    }
}

/// Exactly two decimal digits for a fraction below one hundred.
pub open spec fn two_dec_digits(f: nat) -> Seq<char> {
    seq![digit_char((f / 10) as int), digit_char((f % 10) as int)]
}

/// A non-negative count of hundredths rendered with two digits after the
/// point.
pub open spec fn fmt_fixed_mag(m: nat) -> Seq<char> {
    dec_digits(m / 100) + seq!['.'] + two_dec_digits(m % 100)
}

/// A fixed-point value rendered with two digits after the point and a
/// minus sign when negative.
pub open spec fn fmt_fixed(v: int) -> Seq<char> {
    if v < 0 {
        seq!['-'] + fmt_fixed_mag((-v) as nat)
    } else {
        fmt_fixed_mag(v as nat)
    }
}

/// One decimal digit as a string slice.
fn digit_str(d: u64) -> (r: &'static str)
    requires
        d < 10,
    ensures
        r@ =~= seq![digit_char(d as int)],
{
    proof {
        reveal_strlit("0");
        reveal_strlit("1");
        reveal_strlit("2");
        reveal_strlit("3");
        reveal_strlit("4");
        reveal_strlit("5");
        reveal_strlit("6");
        reveal_strlit("7");
        reveal_strlit("8");
        reveal_strlit("9");
    }
    if d == 0 {
        "0"
    } else if d == 1 {
        "1"
    } else if d == 2 {
        "2"
    } else if d == 3 {
        "3"
    } else if d == 4 {
        "4"
    } else if d == 5 {
        "5"
    } else if d == 6 {
        "6"
    } else if d == 7 {
        "7"
    } else if d == 8 {
        "8"
    } else {
        "9"
    }
}

/// The decimal rendering of an unsigned value.
pub fn u64_to_string(n: u64) -> (r: String)
    ensures
        r@ == dec_digits(n as nat),
    decreases n,
{
    if n < 10 {
        let s = String::from_str(digit_str(n));
        proof {
            assert(s@ =~= dec_digits(n as nat));
        }
        s
    } else {
        let mut s = u64_to_string(n / 10);
        s.append(digit_str(n % 10));
        proof {
            assert(s@ =~= dec_digits(n as nat));
        }
        s
    }
}

/// The decimal rendering of a count.
pub fn format_count(n: usize) -> (r: String)
    ensures
        r@ == dec_digits(n as nat),
{
    u64_to_string(n as u64)
}

/// The two-decimal rendering of a fixed-point value.
pub fn format_fixed(v: i64) -> (r: String)
    ensures
        r@ == fmt_fixed(v as int),
{
    proof {
        reveal_strlit("-");
        reveal_strlit(".");
    }
    let mag: u64 = if v < 0 {
        ((-(v + 1)) as u64) + 1
    } else {
        v as u64
    };
    let mut s = if v < 0 {
        String::from_str("-")
    } else {
        String::new()
    };
    let intpart = u64_to_string(mag / 100);
    s.append(intpart.as_str());
    s.append(".");
    let frac: u64 = mag % 100;
    s.append(digit_str(frac / 10));
    s.append(digit_str(frac % 10));
    proof {
        assert(s@ =~= fmt_fixed(v as int));
    }
    s
}

/// The two-decimal rendering of an optional fixed-point value: a missing
/// value shows as not available.
pub fn format_opt_fixed(v: &Option<i64>) -> (r: String)
    ensures
        (match v {
            Some(x) => r@ == fmt_fixed(*x as int),
            None => r@ == "N/A"@,
        }),
{
    match v {
        Some(x) => format_fixed(*x),
        None => String::from_str("N/A"),
    }
}

/// The mean of a running sum over its contribution count: the quotient
/// truncated toward zero, and zero when nothing contributed.
pub open spec fn mean_val(sum: int, count: nat) -> int {
    if count == 0 {
        0
    } else if sum >= 0 {
        sum / (count as int)
    } else {
        -((-sum) / (count as int))
    }
}

/// The running mean of a summed mean field, truncated toward zero.
pub fn mean_value(sum: i64, count: usize) -> (r: i64)
    ensures
        r as int == mean_val(sum as int, count as nat),
{
    broadcast use group_div_basics;

    if count == 0 {
        0
    } else if sum >= 0 {
        ((sum as u64) / (count as u64)) as i64
    } else {
        let mag: u64 = ((-(sum + 1)) as u64) + 1;
        let q: u64 = mag / (count as u64);
        if q >= 0x8000_0000_0000_0000u64 {
            i64::MIN
        } else {
            -(q as i64)
        }
    }
}

} // verus!
