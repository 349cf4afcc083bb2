//! IEEE 754 single-precision (binary32) encoding of fixed-point values,
//! computed with integer arithmetic only.
//!
//! A Q32.32 value `raw * 2^-32` with `raw != 0` has magnitude `m * 2^-32`
//! with `1 <= m <= 2^63`. With `e` the position of the highest set bit of
//! `m`, its unbiased exponent is `e - 32`, always within the normal range,
//! and the 24-bit significand is `m` scaled to `[2^23, 2^24)`, rounded to
//! nearest with ties to even. The encoding is
//! `sign * 2^31 + (e - 32 + 127) * 2^23 + (significand - 2^23)`,
//! that is `sign * 2^31 + (e + 94) * 2^23 + significand`; a significand that
//! rounds up to `2^24` carries into the exponent by the same formula.
use vstd::prelude::*;
use vstd::arithmetic::power2::{pow2, lemma2_to64, lemma2_to64_rest, lemma_pow2_adds,
    lemma_pow2_unfold, lemma_pow2_pos, lemma_pow2_strictly_increases};

verus! {

/// The position of the highest set bit of `m`, for `m >= 1`.
pub open spec fn top_bit(m: nat) -> nat
    decreases m,
{
    if m <= 1 {
        0
    } else {
        1 + top_bit(m / 2)
    }
}

/// `m / 2^k` rounded to nearest, ties to even.
pub open spec fn round_shift(m: nat, k: nat) -> nat {
    let d = pow2(k);
    let q = m / d;
    let r = m % d;
    if 2 * r > d || (2 * r == d && q % 2 == 1) {
        q + 1
    } else {
        q
    }
}

/// The binary32 encoding, sign bit clear, of `m * 2^-32` for `m >= 1`.
pub open spec fn magnitude_bits(m: nat) -> nat {
    let e = top_bit(m);
    if e <= 23 {
        (e + 94) * pow2(23) + m * pow2((23 - e) as nat)
    } else {
        (e + 94) * pow2(23) + round_shift(m, (e - 23) as nat)
    }
}

/// The binary32 encoding of the fixed-point value `raw * 2^-32`, rounded to
/// nearest with ties to even; zero encodes as positive zero.
pub open spec fn binary32_bits(raw: int) -> nat {
    if raw == 0 {
        0
    } else if raw > 0 {
        magnitude_bits(raw as nat)
    } else {
        pow2(31) + magnitude_bits((-raw) as nat)
    }
}

/// `2^k` for `k <= 63`.
fn pow2_u64(k: u32) -> (r: u64)
    requires
        k <= 63,
    ensures
        r == pow2(k as nat),
{
    let mut r: u64 = 1;
    let mut i: u32 = 0;
    proof {
        lemma2_to64();
        lemma2_to64_rest();
    }
    while i < k
        invariant
            i <= k <= 63,
            r == pow2(i as nat),
            pow2(63) == 0x8000_0000_0000_0000,
        decreases k - i,
    {
        proof {
            lemma_pow2_unfold((i + 1) as nat);
            if i + 1 < 63 {
                lemma_pow2_strictly_increases((i + 1) as nat, 63);
            }
        }
        r = r * 2;
        i = i + 1;
    }
    r
}

/// The highest set bit of `m`, with the bounds it gives.
fn top_bit_u64(m: u64) -> (e: u32)
    requires
        m >= 1,
    ensures
        e == top_bit(m as nat),
        e <= 63,
        pow2(e as nat) <= m < pow2((e + 1) as nat),
{
    let mut t = m;
    let mut e: u32 = 0;
    proof {
        lemma2_to64();
    }
    while t > 1
        invariant
            1 <= t <= m,
            e + top_bit(t as nat) == top_bit(m as nat),
            pow2(e as nat) * t <= m,
            m < pow2(e as nat) * (t + 1),
            pow2(64) == 0x1_0000_0000_0000_0000,
            e <= 64,
        decreases t,
    {
        proof {
            let p = pow2(e as nat);
            lemma_pow2_unfold((e + 1) as nat);
            lemma_pow2_pos(e as nat);
            let h = t / 2;
            assert(2 * h <= t <= 2 * h + 1);
            assert(2 * p * h <= p * t) by (nonlinear_arith)
                requires
                    2 * h <= t,
                    p > 0,
            ;
            assert(p * (t + 1) <= 2 * p * (h + 1)) by (nonlinear_arith)
                requires
                    t <= 2 * h + 1,
                    p > 0,
            ;
            assert(p * 2 <= p * t) by (nonlinear_arith)
                requires
                    t >= 2,
                    p > 0,
            ;
            if e >= 63 {
                if e > 63 {
                    lemma_pow2_strictly_increases(63, e as nat);
                }
                lemma2_to64_rest();
                lemma_pow2_unfold(64);
            }
        }
        t = t / 2;
        e = e + 1;
    }
    proof {
        lemma_pow2_unfold((e + 1) as nat);
        assert(t == 1);
        assert(pow2(e as nat) * t == pow2(e as nat));
        assert(pow2(e as nat) * (t + 1) == 2 * pow2(e as nat));
        if e > 63 {
            lemma_pow2_strictly_increases(64, e as nat);
        }
        if e == 64 {
            assert(false);
        }
    }
    e
}

/// The binary32 encoding, sign bit clear, of `m * 2^-32`.
fn magnitude_u32(m: u64) -> (r: u32)
    requires
        1 <= m <= 0x8000_0000_0000_0000,
    ensures
        r == magnitude_bits(m as nat),
        r < 0x8000_0000,
{
    let e = top_bit_u64(m);
    proof {
        lemma2_to64();
        lemma2_to64_rest();
        if e == 63 {
            lemma_pow2_unfold(64);
        }
    }
    if e <= 23 {
        let p = pow2_u64(23 - e);
        proof {
            lemma_pow2_adds(e as nat, (23 - e) as nat);
            lemma_pow2_adds((e + 1) as nat, (23 - e) as nat);
            lemma_pow2_unfold(24);
            let pe = pow2(e as nat);
            let pe1 = pow2((e + 1) as nat);
            assert(m * p < pe1 * p) by (nonlinear_arith)
                requires
                    m < pe1,
                    p > 0,
            ;
        }
        ((e as u64 + 94) * 0x80_0000 + m * p) as u32
    } else {
        let k = e - 23;
        let d = pow2_u64(k);
        let q = m / d;
        let r = m % d;
        proof {
            lemma_pow2_adds(24, k as nat);
            lemma_pow2_pos(k as nat);
            lemma_pow2_strictly_increases(k as nat, 41);
            assert(pow2(41) == 0x200_0000_0000);
            vstd::arithmetic::div_mod::lemma_fundamental_div_mod(m as int, d as int);
            vstd::arithmetic::div_mod::lemma_mod_pos_bound(m as int, d as int);
            assert(q < 0x100_0000) by (nonlinear_arith)
                requires
                    m == d * q + r,
                    r >= 0,
                    m < 0x100_0000 * d,
                    d > 0,
            ;
        }
        let s = if 2 * r > d || (2 * r == d && q % 2 == 1) {
            q + 1
        } else {
            q
        };
        ((e as u64 + 94) * 0x80_0000 + s) as u32
    }
}

/// The binary32 encoding of the fixed-point value `raw * 2^-32`.
pub fn binary32_of(raw: i64) -> (r: u32)
    ensures
        r == binary32_bits(raw as int),
{
    proof {
        lemma2_to64();
    }
    if raw == 0 {
        0
    } else if raw > 0 {
        magnitude_u32(raw as u64)
    } else {
        let m: u64 = if raw == i64::MIN {
            0x8000_0000_0000_0000
        } else {
            (-raw) as u64
        };
        0x8000_0000 + magnitude_u32(m)
    }
}

} // verus!
