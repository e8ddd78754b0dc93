//! Formatting of playback positions as shown next to the progress bar.
use vstd::prelude::*;
use vstd::string::*;
use crate::text::{signed_decimal, signed_decimal_text};

verus! {

/// Division that rounds toward zero, as Rust's `/` on integers does.
pub open spec fn trunc_div(n: int, d: int) -> int {
    if n >= 0 {
        n / d
    } else {
        -((-n) / d)
    }
}

/// The remainder of `trunc_div`, which has the sign of `n`.
pub open spec fn trunc_rem(n: int, d: int) -> int {
    if n >= 0 {
        n % d
    } else {
        -((-n) % d)
    }
}

pub open spec fn two_digit_text(n: int) -> Seq<char> {
    signed_decimal(n / 10) + signed_decimal(trunc_rem(n, 10))
}

pub open spec fn duration_text(seconds: int) -> Seq<char> {
    two_digit_text(trunc_div(seconds, 60)) + ":"@ + two_digit_text(trunc_rem(seconds, 60))
}

/// The magnitude of `n`.
fn magnitude(n: i64) -> (r: u64)
    ensures
        r == if n >= 0 { n as int } else { -n },
{
    if n >= 0 {
        n as u64
    } else {
        ((-(n + 1)) as u64) + 1
    }
}

/// Writes a number with at least two digits: the tens (rounded down) and
/// then the last digit, so 7 gives "07" and 42 gives "42".
pub fn format_two_digit_int(number: i64) -> (r: String)
    ensures
        r@ == two_digit_text(number as int),
{
    let m = magnitude(number);
    let tens: i64 = if number >= 0 {
        (m / 10) as i64
    } else {
        -(((m - 1) / 10) as i64) - 1
    };
    let ones: i64 = if number >= 0 {
        (m % 10) as i64
    } else {
        -((m % 10) as i64)
    };
    assert(number < 0 ==> tens == (number as int) / 10) by {
        if number < 0 {
            let k = (m - 1) as int;
            assert(k == -(number as int) - 1);
            assert((number as int) / 10 == -(k / 10) - 1) by (nonlinear_arith)
                requires
                    k == -(number as int) - 1,
                    k >= 0,
            {
                let q = k / 10;
                let r = k % 10;
                assert(k == 10 * q + r);
                assert(number as int == -10 * q - r - 1);
                assert(number as int == 10 * (-q - 1) + (9 - r));
            }
        }
    }
    let mut s = signed_decimal_text(tens);
    let low = signed_decimal_text(ones);
    s.append(low.as_str());
    s
}

/// Writes a duration of whole seconds as minutes and seconds, "mm:ss".
pub fn format_duration(seconds: i64) -> (r: String)
    ensures
        r@ == duration_text(seconds as int),
{
    let m = magnitude(seconds);
    let (minutes, rest): (i64, i64) = if seconds >= 0 {
        ((m / 60) as i64, (m % 60) as i64)
    } else {
        (-((m / 60) as i64), -((m % 60) as i64))
    };
    let mut s = format_two_digit_int(minutes);
    s.append(":");
    let low = format_two_digit_int(rest);
    s.append(low.as_str());
    s
}

} // verus!
