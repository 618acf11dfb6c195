//! Rational time conversion: container timestamps are expressed in an
//! arbitrary rational unit (a time base `numerator / denominator` of a
//! second); every other component works in integer milliseconds.
//!
//! Conversion cross-multiplies and divides with round-to-nearest
//! (halfway cases away from zero), computing through 128-bit
//! intermediates so that no plausible media duration overflows.  A result
//! that does not fit a 64-bit timestamp saturates to `i64::MIN`, and a
//! degenerate (non-positive) time base yields zero.

use vstd::prelude::*;

verus! {

/// A rational number, used for time bases and frame rates.
#[derive(Clone, Copy, Debug, PartialEq, Eq, Structural)]
pub struct RationalValue {
    pub numerator: i32,
    pub denominator: i32,
}

/// A time base is usable only when both parts are positive; anything else
/// is treated as a guard case and converts to zero.
pub open spec fn is_valid_time_base(tb: RationalValue) -> bool {
    tb.numerator > 0 && tb.denominator > 0
}

/// `n / d` rounded to the nearest integer, halfway cases away from zero.
pub open spec fn rounded_div(n: int, d: int) -> int
    recommends
        d > 0,
{
    if n >= 0 {
        (n + d / 2) / d
    } else {
        -((-n + d / 2) / d)
    }
}

/// Saturation of an out-of-range 64-bit result.
pub open spec fn sat_i64(v: int) -> int {
    if v > i64::MAX as int || v < i64::MIN as int {
        i64::MIN as int
    } else {
        v
    }
}

/// Mathematical value of converting a timestamp in time base `tb` to
/// milliseconds: `ts * tb` seconds, rescaled to thousandths.
pub open spec fn ts_to_ms(ts: int, tb: RationalValue) -> int {
    if is_valid_time_base(tb) {
        sat_i64(rounded_div(ts * tb.numerator * 1000, tb.denominator as int))
    } else {
        0
    }
}

/// Mathematical value of converting milliseconds to a timestamp in time
/// base `tb`; inverse of `ts_to_ms` up to rounding.
pub open spec fn ms_to_ts(ms: int, tb: RationalValue) -> int {
    if is_valid_time_base(tb) {
        sat_i64(rounded_div(ms * tb.denominator, 1000 * tb.numerator))
    } else {
        0
    }
}

/// Nearest division moves a value by at most half the divisor: the
/// rounded quotient, scaled back up, differs from the dividend by `e`
/// with `-d/2 <= e <= d/2`.
proof fn lemma_rounded_div_error(n: int, d: int)
    requires
        n >= 0,
        d > 0,
    ensures
        rounded_div(n, d) >= 0,
        -(d / 2) <= d * rounded_div(n, d) - n <= d / 2,
{
    let q = (n + d / 2) / d;
    vstd::arithmetic::div_mod::lemma_fundamental_div_mod(n + d / 2, d);
    assert(n + d / 2 == d * q + (n + d / 2) % d);
}

/// Converting a time to a stream timestamp and back moves it by no more
/// than half a tick plus half a millisecond, the rounding of the two
/// legs: with a tick of `1000 * num / den` milliseconds, the round trip
/// `ms -> timestamp -> ms` lands within one tick of `ms` whenever a tick
/// is at least a millisecond, and within a millisecond otherwise.
pub proof fn lemma_time_round_trip(ms: int, tb: RationalValue)
    requires
        is_valid_time_base(tb),
        ms >= 0,
    ensures
        ({
            let t = rounded_div(ms * tb.denominator, 1000 * tb.numerator);
            let back = rounded_div(t * tb.numerator * 1000, tb.denominator as int);
            let err = if back >= ms {
                back - ms
            } else {
                ms - back
            };
            2 * tb.denominator * err <= 1000 * tb.numerator + tb.denominator
        }),
{
    let a = 1000 * tb.numerator;
    let d = tb.denominator as int;
    let n1 = ms * d;
    assert(n1 >= 0) by (nonlinear_arith)
        requires
            ms >= 0,
            d > 0,
            n1 == ms * d,
    ;
    let t = rounded_div(n1, a);
    lemma_rounded_div_error(n1, a);
    let e = a * t - n1;
    let n2 = t * tb.numerator * 1000;
    assert(n2 == t * a) by (nonlinear_arith)
        requires
            a == 1000 * tb.numerator,
            n2 == t * tb.numerator * 1000,
    ;
    assert(t * a >= 0) by (nonlinear_arith)
        requires
            t >= 0,
            a > 0,
    ;
    assert(n2 >= 0);
    let back = rounded_div(n2, d);
    lemma_rounded_div_error(n2, d);
    let f = d * back - n2;
    assert(a * t == t * a) by (nonlinear_arith);
    assert(d * back == ms * d + e + f);
    assert(d * (back - ms) == d * back - d * ms) by (nonlinear_arith);
    assert(d * ms == ms * d) by (nonlinear_arith);
    assert(d * (back - ms) == e + f);
    let err = if back >= ms {
        back - ms
    } else {
        ms - back
    };
    assert(d * err == if e + f >= 0 {
        e + f
    } else {
        -(e + f)
    }) by (nonlinear_arith)
        requires
            d > 0,
            d * (back - ms) == e + f,
            err == if back >= ms {
                back - ms
            } else {
                ms - back
            },
    ;
    assert(2 * (a / 2) <= a);
    assert(2 * (d / 2) <= d);
    assert(2 * (d * err) <= a + d);
    assert(2 * d * err == 2 * (d * err)) by (nonlinear_arith);
}

/// Nearest-integer division of nonnegative 128-bit operands.
fn rounded_div_u128(n: u128, d: u128) -> (q: u128)
    requires
        d > 0,
        n + d / 2 <= u128::MAX,
    ensures
        q == rounded_div(n as int, d as int),
{
    (n + d / 2) / d
}

/// Apply the sign and saturate the magnitude into an `i64`.
fn sign_and_saturate(negative: bool, q: u128) -> (r: i64)
    ensures
        r as int == sat_i64(if negative { -(q as int) } else { q as int }),
{
    if negative {
        if q >= 0x8000_0000_0000_0000u128 {
            i64::MIN
        } else {
            -(q as i64)
        }
    } else {
        if q > i64::MAX as u128 {
            i64::MIN
        } else {
            q as i64
        }
    }
}

/// Magnitude of a signed 64-bit value, widened so that `i64::MIN` is exact.
fn abs_u128(v: i64) -> (a: u128)
    ensures
        a as int == if v >= 0 { v as int } else { -(v as int) },
{
    if v >= 0 {
        v as u128
    } else {
        (-(v as i128)) as u128
    }
}

/// Converts a container timestamp to milliseconds.
pub fn timestamp_to_ms(timestamp: i64, time_base: RationalValue) -> (r: i64)
    ensures
        r as int == ts_to_ms(timestamp as int, time_base),
{
    if time_base.numerator <= 0 || time_base.denominator <= 0 {
        return 0;
    }
    let negative: bool = timestamp < 0;
    let ts_abs: u128 = abs_u128(timestamp);
    let num: u128 = time_base.numerator as u128;
    let den: u128 = time_base.denominator as u128;
    assert(ts_abs * num * 1000 <= 0x8000_0000_0000_0000u128 * 0x8000_0000u128 * 1000)
        by (nonlinear_arith)
        requires
            ts_abs <= 0x8000_0000_0000_0000u128,
            num <= 0x8000_0000u128,
    ;
    let prod: u128 = ts_abs * num * 1000;
    let q: u128 = rounded_div_u128(prod, den);
    proof {
        let t: int = timestamp as int;
        let m: int = time_base.numerator as int;
        if negative {
            assert(t * m * 1000 < 0 && (-t) * m * 1000 == -(t * m * 1000)) by (nonlinear_arith)
                requires
                    t < 0,
                    m > 0,
            ;
        } else {
            assert(t * m * 1000 >= 0) by (nonlinear_arith)
                requires
                    t >= 0,
                    m > 0,
            ;
        }
    }
    sign_and_saturate(negative, q)
}

/// Converts milliseconds to a container timestamp in time base `tb`.
pub fn ms_to_timestamp(ms: i64, time_base: RationalValue) -> (r: i64)
    ensures
        r as int == ms_to_ts(ms as int, time_base),
{
    if time_base.numerator <= 0 || time_base.denominator <= 0 {
        return 0;
    }
    let negative: bool = ms < 0;
    let ms_abs: u128 = abs_u128(ms);
    let num: u128 = time_base.numerator as u128;
    let den: u128 = time_base.denominator as u128;
    assert(ms_abs * den <= 0x8000_0000_0000_0000u128 * 0x8000_0000u128) by (nonlinear_arith)
        requires
            ms_abs <= 0x8000_0000_0000_0000u128,
            den <= 0x8000_0000u128,
    ;
    let prod: u128 = ms_abs * den;
    let q: u128 = rounded_div_u128(prod, 1000 * num);
    proof {
        let t: int = ms as int;
        let d: int = time_base.denominator as int;
        if negative {
            assert(t * d < 0 && (-t) * d == -(t * d)) by (nonlinear_arith)
                requires
                    t < 0,
                    d > 0,
            ;
        } else {
            assert(t * d >= 0) by (nonlinear_arith)
                requires
                    t >= 0,
                    d > 0,
            ;
        }
    }
    sign_and_saturate(negative, q)
}

} // verus!
