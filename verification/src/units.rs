//! Fixed-point scale and the arithmetic shared by every gameplay system.
//!
//! Lengths and oxygen are counted in millionths of a unit, durations in
//! microseconds. Results that would leave the `i64` range are held at its
//! ends, so no operation here can overflow or panic.

use vstd::prelude::*;

verus! {

/// One world unit, one oxygen unit and one second, in the fixed-point scale.
pub const UNIT: i64 = 1_000_000;

/// One second in the unit of durations.
pub const MICROS_PER_SECOND: u64 = 1_000_000;

/// `v` limited to the range `lo..=hi`.
pub open spec fn clamp(v: int, lo: int, hi: int) -> int {
    if v < lo {
        lo
    } else if v > hi {
        hi
    } else {
        v
    }
}

/// `v` held at the ends of the `i64` range.
pub open spec fn saturate(v: int) -> int {
    clamp(v, i64::MIN as int, i64::MAX as int)
}

/// The quotient `a / d` rounded toward zero, for a positive divisor.
pub open spec fn div_toward_zero(a: int, d: int) -> int {
    if a >= 0 {
        a / d
    } else {
        -((-a) / d)
    }
}

/// `v * num / den`, rounded toward zero and held within the `i64` range.
pub open spec fn scaled(v: int, num: int, den: int) -> int {
    saturate(div_toward_zero(v * num, den))
}

/// `a + b`, held at the ends of the `i64` range instead of wrapping.
pub fn saturating_add(a: i64, b: i64) -> (r: i64)
    ensures
        r == saturate(a + b),
{
    match a.checked_add(b) {
        Some(sum) => sum,
        None => if b > 0 {
            i64::MAX
        } else {
            i64::MIN
        },
    }
}

/// `a - b`, held at the ends of the `i64` range instead of wrapping.
pub fn saturating_sub(a: i64, b: i64) -> (r: i64)
    ensures
        r == saturate(a - b),
{
    match a.checked_sub(b) {
        Some(difference) => difference,
        None => if b < 0 {
            i64::MAX
        } else {
            i64::MIN
        },
    }
}

/// Multiplies `v` by the fraction `num / den`, rounding toward zero.
pub fn scale(v: i64, num: u64, den: u64) -> (r: i64)
    requires
        den > 0,
    ensures
        r == scaled(v as int, num as int, den as int),
{
    let negative = v < 0;
    let magnitude: u128 = if negative {
        (-(v as i128)) as u128
    } else {
        v as u128
    };
    assert(magnitude * num <= 0x8000_0000_0000_0000 * 0xffff_ffff_ffff_ffff) by (nonlinear_arith)
        requires
            magnitude <= 0x8000_0000_0000_0000,
            num <= 0xffff_ffff_ffff_ffff,
    ;
    let product: u128 = magnitude * (num as u128);
    let quotient: u128 = product / (den as u128);
    proof {
        if negative {
            assert((v as int) * (num as int) == -(magnitude as int * num as int))
                by (nonlinear_arith)
                requires
                    magnitude as int == -(v as int),
            ;
            assert(magnitude as int * num as int >= 0) by (nonlinear_arith)
                requires
                    magnitude >= 0,
                    num >= 0,
            ;
        } else {
            assert((v as int) * (num as int) >= 0) by (nonlinear_arith)
                requires
                    v >= 0,
                    num >= 0,
            ;
        }
    }
    if negative {
        if quotient >= 0x8000_0000_0000_0000 {
            i64::MIN
        } else {
            -(quotient as i64)
        }
    } else if quotient > 0x7fff_ffff_ffff_ffff {
        i64::MAX
    } else {
        quotient as i64
    }
}

} // verus!
