//! Saturating Q32.32 fixed-point arithmetic.
//!
//! A quantity `v` is stored as the `i64` value `v * 2^32`, rounded down.
//! Every operation is total: a result outside the range of `i64` is clamped
//! to its nearest end.
use vstd::prelude::*;

verus! {

/// The fixed-point representation of 1.
pub const ONE: i64 = 4294967296;

/// One half in fixed point.
pub const HALF: i64 = 2147483648;

/// One quarter in fixed point.
pub const QUARTER: i64 = 1073741824;

/// Whether `v` is the value of an `i64`.
pub open spec fn in_i64(v: int) -> bool {
    i64::MIN <= v <= i64::MAX
}

/// Clamps a mathematical integer to the range of `i64`.
pub open spec fn sat(x: int) -> int {
    if x > i64::MAX {
        i64::MAX as int
    } else if x < i64::MIN {
        i64::MIN as int
    } else {
        x
    }
}

/// Saturating sum.
pub open spec fn fx_add(a: int, b: int) -> int {
    sat(a + b)
}

/// Saturating difference.
pub open spec fn fx_sub(a: int, b: int) -> int {
    sat(a - b)
}

/// Saturating negation.
pub open spec fn fx_neg(a: int) -> int {
    sat(-a)
}

/// Fixed-point product, rounded down, then saturated.
pub open spec fn fx_mul(a: int, b: int) -> int {
    sat((a * b) / (ONE as int))
}

/// Fixed-point quotient by a positive divisor, rounded down, then saturated.
pub open spec fn fx_div(a: int, b: int) -> int {
    sat((a * ONE) / b)
}

/// The fixed-point value of a whole number.
pub open spec fn fx_from_int(n: int) -> int {
    sat(n * ONE)
}

/// The whole part of a fixed-point value, rounded down.
pub open spec fn fx_floor(a: int) -> int {
    a / (ONE as int)
}

/// Floor division of a signed value by a positive divisor.
fn floor_div(p: i128, d: i128) -> (r: i128)
    requires
        d > 0,
    ensures
        r == p / d,
        p >= 0 ==> 0 <= r <= p,
        p < 0 ==> p <= r < 0,
{
    if p >= 0 {
        let q = p / d;
        proof {
            vstd::arithmetic::div_mod::lemma_div_pos_is_pos(p as int, d as int);
            vstd::arithmetic::div_mod::lemma_div_is_ordered_by_denominator(p as int, 1, d as int);
        }
        q
    } else {
        let m: i128 = -(p + 1);
        let q = m / d;
        proof {
            let pi = p as int;
            let di = d as int;
            let mi = m as int;
            vstd::arithmetic::div_mod::lemma_fundamental_div_mod(mi, di);
            vstd::arithmetic::div_mod::lemma_fundamental_div_mod(pi, di);
            vstd::arithmetic::div_mod::lemma_div_pos_is_pos(mi, di);
            vstd::arithmetic::div_mod::lemma_div_is_ordered_by_denominator(mi, 1, di);
            // p = -m - 1 = d * (-q - 1) + (d - 1 - m % d), with 0 <= d - 1 - m % d < d
            let qq = -(q as int) - 1;
            let rr = di - 1 - mi % di;
            vstd::arithmetic::div_mod::lemma_mod_pos_bound(mi, di);
            assert(pi == qq * di + rr) by (nonlinear_arith)
                requires
                    mi == di * (mi / di) + mi % di,
                    q as int == mi / di,
                    pi == -mi - 1,
                    qq == -(q as int) - 1,
                    rr == di - 1 - mi % di,
            ;
            vstd::arithmetic::div_mod::lemma_fundamental_div_mod_converse(pi, di, qq, rr);
        }
        -q - 1
    }
}

proof fn lemma_scale_fits(a: i64)
    ensures
        -0x1_0000_0000_0000_0000_0000_0000 <= (a as int) * (ONE as int) <= 0x1_0000_0000_0000_0000_0000_0000,
{
    assert(-0x1_0000_0000_0000_0000_0000_0000 <= (a as int) * 0x1_0000_0000 <= 0x1_0000_0000_0000_0000_0000_0000)
        by (nonlinear_arith)
        requires
            i64::MIN <= a <= i64::MAX,
    ;
}

/// Clamps an `i128` to the range of `i64`.
fn saturate(x: i128) -> (r: i64)
    ensures
        r == sat(x as int),
{
    if x > i64::MAX as i128 {
        i64::MAX
    } else if x < i64::MIN as i128 {
        i64::MIN
    } else {
        x as i64
    }
}

/// Saturating sum of two fixed-point values.
pub fn fadd(a: i64, b: i64) -> (r: i64)
    ensures
        r == fx_add(a as int, b as int),
{
    saturate(a as i128 + b as i128)
}

/// Saturating difference of two fixed-point values.
pub fn fsub(a: i64, b: i64) -> (r: i64)
    ensures
        r == fx_sub(a as int, b as int),
{
    saturate(a as i128 - b as i128)
}

/// Saturating negation of a fixed-point value.
pub fn fneg(a: i64) -> (r: i64)
    ensures
        r == fx_neg(a as int),
{
    saturate(-(a as i128))
}

/// Product of two fixed-point values, rounded down and saturated.
pub fn fmul(a: i64, b: i64) -> (r: i64)
    ensures
        r == fx_mul(a as int, b as int),
{
    proof {
        assert((a as int) * (b as int) <= 0x4000_0000_0000_0000_0000_0000_0000_0000) by (nonlinear_arith)
            requires
                i64::MIN <= a <= i64::MAX,
                i64::MIN <= b <= i64::MAX,
        ;
        assert((a as int) * (b as int) >= -0x4000_0000_0000_0000_0000_0000_0000_0000) by (nonlinear_arith)
            requires
                i64::MIN <= a <= i64::MAX,
                i64::MIN <= b <= i64::MAX,
        ;
    }
    let p = a as i128 * b as i128;
    saturate(floor_div(p, ONE as i128))
}

/// Quotient of two fixed-point values, rounded down and saturated.
pub fn fdiv(a: i64, b: i64) -> (r: i64)
    requires
        b > 0,
    ensures
        r == fx_div(a as int, b as int),
{
    proof {
        lemma_scale_fits(a);
    }
    let n = a as i128 * ONE as i128;
    saturate(floor_div(n, b as i128))
}

/// The fixed-point value of a whole number, saturated.
pub fn from_int(n: i64) -> (r: i64)
    ensures
        r == fx_from_int(n as int),
{
    proof {
        lemma_scale_fits(n);
    }
    saturate(n as i128 * ONE as i128)
}

} // verus!
