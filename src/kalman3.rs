//! A Kalman filter for one scalar reading and its first two derivatives.
//!
//! The state vector is `x = [value, d(value)/dt, d2(value)/dt2]`; the filter
//! is advanced by a constant sample interval `dt`, with `h = dt^2/2`.
//!
//! Model:
//!
//! * transition `F = [[1, dt, h], [0, 1, dt], [0, 0, 1]]` (constant second
//!   derivative over `dt`);
//! * process noise: an unknown third derivative `j ~ N(0, Q)` held over each
//!   interval, so that `w = [j dt^3/6, j dt^2/2, j dt]` and
//!   `Q0 = E[w w'] = Q [[dt^6/36, dt^5/12, dt^4/6], [dt^5/12, dt^4/4, dt^3/2],
//!   [dt^4/6, dt^3/2, dt^2]]`, computed once;
//! * observation `H = [1, 0, 0]` with sensor variance `R`.
//!
//! The steps are those of [`crate::kalman`], one order higher.
//!
//! All values are Q32.32 fixed-point (see [`crate::fixed`]).
use vstd::prelude::*;
use crate::fixed::{fadd, fsub, fmul, fdiv, fx_add, fx_sub, fx_mul, fx_div, in_i64, HALF, QUARTER};
use crate::kalman::{lemma_gain_keeps_variance, INITIAL_VARIANCE};

verus! {

/// One sixth in fixed point, rounded down.
pub const SIXTH: i64 = 715827882;

/// One twelfth in fixed point, rounded down.
pub const TWELFTH: i64 = 357913941;

/// One thirty-sixth in fixed point, rounded down.
pub const THIRTY_SIXTH: i64 = 119304647;

/// The mathematical content of a [`Kalman3`] filter; the names follow
/// [`crate::kalman::KalmanView`], and `h` is `dt^2/2`.
pub ghost struct Kalman3View {
    pub r: int,
    pub dt: int,
    pub h: int,
    pub x0: int,
    pub x1: int,
    pub x2: int,
    pub xp0: int,
    pub xp1: int,
    pub xp2: int,
    pub p00: int,
    pub p01: int,
    pub p02: int,
    pub p10: int,
    pub p11: int,
    pub p12: int,
    pub p20: int,
    pub p21: int,
    pub p22: int,
    pub pp00: int,
    pub pp01: int,
    pub pp02: int,
    pub pp10: int,
    pub pp11: int,
    pub pp12: int,
    pub pp20: int,
    pub pp21: int,
    pub pp22: int,
    pub q00: int,
    pub q01: int,
    pub q02: int,
    pub q10: int,
    pub q11: int,
    pub q12: int,
    pub q20: int,
    pub q21: int,
    pub q22: int,
}

impl Kalman3View {
    /// Every entry is the value of an `i64`.
    pub open spec fn in_range(self) -> bool {
        &&& in_i64(self.r)
        &&& in_i64(self.dt)
        &&& in_i64(self.h)
        &&& in_i64(self.x0)
        &&& in_i64(self.x1)
        &&& in_i64(self.x2)
        &&& in_i64(self.xp0)
        &&& in_i64(self.xp1)
        &&& in_i64(self.xp2)
        &&& in_i64(self.p00)
        &&& in_i64(self.p01)
        &&& in_i64(self.p02)
        &&& in_i64(self.p10)
        &&& in_i64(self.p11)
        &&& in_i64(self.p12)
        &&& in_i64(self.p20)
        &&& in_i64(self.p21)
        &&& in_i64(self.p22)
        &&& in_i64(self.pp00)
        &&& in_i64(self.pp01)
        &&& in_i64(self.pp02)
        &&& in_i64(self.pp10)
        &&& in_i64(self.pp11)
        &&& in_i64(self.pp12)
        &&& in_i64(self.pp20)
        &&& in_i64(self.pp21)
        &&& in_i64(self.pp22)
        &&& in_i64(self.q00)
        &&& in_i64(self.q01)
        &&& in_i64(self.q02)
        &&& in_i64(self.q10)
        &&& in_i64(self.q11)
        &&& in_i64(self.q12)
        &&& in_i64(self.q20)
        &&& in_i64(self.q21)
        &&& in_i64(self.q22)
    }
}

/// A freshly created filter: state `(z, 0, 0)`, diagonal covariance
/// [`INITIAL_VARIANCE`], and `Q0` derived from `q` and `dt`.
pub open spec fn initial3(q: int, r: int, dt: int, z: int) -> Kalman3View {
    let dt2 = fx_mul(dt, dt);
    let dt3 = fx_mul(dt2, dt);
    let dt4 = fx_mul(dt3, dt);
    let dt5 = fx_mul(dt4, dt);
    let dt6 = fx_mul(dt5, dt);
    Kalman3View {
        r,
        dt,
        h: fx_mul(dt2, HALF as int),
        x0: z,
        x1: 0,
        x2: 0,
        xp0: 0,
        xp1: 0,
        xp2: 0,
        p00: INITIAL_VARIANCE as int,
        p01: 0,
        p02: 0,
        p10: 0,
        p11: INITIAL_VARIANCE as int,
        p12: 0,
        p20: 0,
        p21: 0,
        p22: INITIAL_VARIANCE as int,
        pp00: 0,
        pp01: 0,
        pp02: 0,
        pp10: 0,
        pp11: 0,
        pp12: 0,
        pp20: 0,
        pp21: 0,
        pp22: 0,
        q00: fx_mul(fx_mul(q, dt6), THIRTY_SIXTH as int),
        q01: fx_mul(fx_mul(q, dt5), TWELFTH as int),
        q02: fx_mul(fx_mul(q, dt4), SIXTH as int),
        q10: fx_mul(fx_mul(q, dt5), TWELFTH as int),
        q11: fx_mul(fx_mul(q, dt4), QUARTER as int),
        q12: fx_mul(fx_mul(q, dt3), HALF as int),
        q20: fx_mul(fx_mul(q, dt4), SIXTH as int),
        q21: fx_mul(fx_mul(q, dt3), HALF as int),
        q22: fx_mul(q, dt2),
    }
}

/// The innovation variance `S = Pp[0][0] + R`.
pub open spec fn innovation_variance3(k: Kalman3View) -> int {
    fx_add(k.pp00, k.r)
}

/// The filter after a predict step: `xp = F x` and `Pp = F P F' + Q0`,
/// with `A = F P` computed first.
pub open spec fn predicted3(k: Kalman3View) -> Kalman3View {
    let a00 = fx_add(fx_add(k.p00, fx_mul(k.dt, k.p10)), fx_mul(k.h, k.p20));
    let a10 = fx_add(k.p10, fx_mul(k.dt, k.p20));
    let a01 = fx_add(fx_add(k.p01, fx_mul(k.dt, k.p11)), fx_mul(k.h, k.p21));
    let a11 = fx_add(k.p11, fx_mul(k.dt, k.p21));
    let a02 = fx_add(fx_add(k.p02, fx_mul(k.dt, k.p12)), fx_mul(k.h, k.p22));
    let a12 = fx_add(k.p12, fx_mul(k.dt, k.p22));
    Kalman3View {
        xp0: fx_add(fx_add(k.x0, fx_mul(k.dt, k.x1)), fx_mul(k.h, k.x2)),
        xp1: fx_add(k.x1, fx_mul(k.dt, k.x2)),
        xp2: k.x2,
        pp00: fx_add(fx_add(fx_add(a00, fx_mul(k.dt, a01)), fx_mul(k.h, a02)), k.q00),
        pp01: fx_add(fx_add(a01, fx_mul(k.dt, a02)), k.q01),
        pp02: fx_add(a02, k.q02),
        pp10: fx_add(fx_add(fx_add(a10, fx_mul(k.dt, a11)), fx_mul(k.h, a12)), k.q10),
        pp11: fx_add(fx_add(a11, fx_mul(k.dt, a12)), k.q11),
        pp12: fx_add(a12, k.q12),
        pp20: fx_add(fx_add(fx_add(k.p20, fx_mul(k.dt, k.p21)), fx_mul(k.h, k.p22)), k.q20),
        pp21: fx_add(fx_add(k.p21, fx_mul(k.dt, k.p22)), k.q21),
        pp22: fx_add(k.p22, k.q22),
        ..k
    }
}

/// The filter after an update step with observation `z`.
///
/// Where `S` is not positive the observation carries no usable weight and
/// the posterior is the prior.
pub open spec fn corrected3(k: Kalman3View, z: int) -> Kalman3View {
    let s = innovation_variance3(k);
    if s > 0 {
        let k0 = fx_div(k.pp00, s);
        let k1 = fx_div(k.pp10, s);
        let k2 = fx_div(k.pp20, s);
        let y = fx_sub(z, k.xp0);
        Kalman3View {
            x0: fx_add(k.xp0, fx_mul(k0, y)),
            x1: fx_add(k.xp1, fx_mul(k1, y)),
            x2: fx_add(k.xp2, fx_mul(k2, y)),
            p00: fx_sub(k.pp00, fx_mul(k0, k.pp00)),
            p01: fx_sub(k.pp01, fx_mul(k0, k.pp01)),
            p02: fx_sub(k.pp02, fx_mul(k0, k.pp02)),
            p10: fx_sub(k.pp10, fx_mul(k1, k.pp00)),
            p11: fx_sub(k.pp11, fx_mul(k1, k.pp01)),
            p12: fx_sub(k.pp12, fx_mul(k1, k.pp02)),
            p20: fx_sub(k.pp20, fx_mul(k2, k.pp00)),
            p21: fx_sub(k.pp21, fx_mul(k2, k.pp01)),
            p22: fx_sub(k.pp22, fx_mul(k2, k.pp02)),
            ..k
        }
    } else {
        Kalman3View {
            x0: k.xp0,
            x1: k.xp1,
            x2: k.xp2,
            p00: k.pp00,
            p01: k.pp01,
            p02: k.pp02,
            p10: k.pp10,
            p11: k.pp11,
            p12: k.pp12,
            p20: k.pp20,
            p21: k.pp21,
            p22: k.pp22,
            ..k
        }
    }
}

/// Update law: an update step never raises the variance of the value
/// estimate above its prior and never makes it negative, whatever the
/// observation.
pub proof fn lemma_update_never_raises_variance3(k: Kalman3View, z: int)
    requires
        k.in_range(),
        k.pp00 >= 0,
        k.r >= 0,
    ensures
        0 <= corrected3(k, z).p00 <= k.pp00,
{
    if innovation_variance3(k) > 0 {
        lemma_gain_keeps_variance(k.pp00, k.r);
    }
}

/// Steady state: an estimate that equals a constant reading `v` with zero
/// derivatives stays exactly there after a predict and an update with `v`.
pub proof fn lemma_settled_estimate_is_kept3(k: Kalman3View, v: int)
    requires
        k.in_range(),
        k.x0 == v,
        k.x1 == 0,
        k.x2 == 0,
    ensures
        corrected3(predicted3(k), v).x0 == v,
        corrected3(predicted3(k), v).x1 == 0,
        corrected3(predicted3(k), v).x2 == 0,
{
    let p = predicted3(k);
    vstd::arithmetic::mul::lemma_mul_basics(k.dt);
    vstd::arithmetic::mul::lemma_mul_basics(k.h);
    assert(fx_mul(k.dt, 0) == 0);
    assert(fx_mul(k.h, 0) == 0);
    assert(p.xp0 == v);
    let s = innovation_variance3(p);
    if s > 0 {
        let k0 = fx_div(p.pp00, s);
        let k1 = fx_div(p.pp10, s);
        let k2 = fx_div(p.pp20, s);
        assert(fx_sub(v, p.xp0) == 0);
        vstd::arithmetic::mul::lemma_mul_basics(k0);
        vstd::arithmetic::mul::lemma_mul_basics(k1);
        vstd::arithmetic::mul::lemma_mul_basics(k2);
        assert(fx_mul(k0, 0) == 0);
        assert(fx_mul(k1, 0) == 0);
        assert(fx_mul(k2, 0) == 0);
    }
}

/// Kalman filter estimating a scalar reading and its first two derivatives.
pub struct Kalman3 {
    r: i64,
    dt: i64,
    h: i64,
    x0: i64,
    x1: i64,
    x2: i64,
    xp0: i64,
    xp1: i64,
    xp2: i64,
    p00: i64,
    p01: i64,
    p02: i64,
    p10: i64,
    p11: i64,
    p12: i64,
    p20: i64,
    p21: i64,
    p22: i64,
    pp00: i64,
    pp01: i64,
    pp02: i64,
    pp10: i64,
    pp11: i64,
    pp12: i64,
    pp20: i64,
    pp21: i64,
    pp22: i64,
    q00: i64,
    q01: i64,
    q02: i64,
    q10: i64,
    q11: i64,
    q12: i64,
    q20: i64,
    q21: i64,
    q22: i64,
}

impl View for Kalman3 {
    type V = Kalman3View;

    closed spec fn view(&self) -> Kalman3View {
        Kalman3View {
            r: self.r as int,
            dt: self.dt as int,
            h: self.h as int,
            x0: self.x0 as int,
            x1: self.x1 as int,
            x2: self.x2 as int,
            xp0: self.xp0 as int,
            xp1: self.xp1 as int,
            xp2: self.xp2 as int,
            p00: self.p00 as int,
            p01: self.p01 as int,
            p02: self.p02 as int,
            p10: self.p10 as int,
            p11: self.p11 as int,
            p12: self.p12 as int,
            p20: self.p20 as int,
            p21: self.p21 as int,
            p22: self.p22 as int,
            pp00: self.pp00 as int,
            pp01: self.pp01 as int,
            pp02: self.pp02 as int,
            pp10: self.pp10 as int,
            pp11: self.pp11 as int,
            pp12: self.pp12 as int,
            pp20: self.pp20 as int,
            pp21: self.pp21 as int,
            pp22: self.pp22 as int,
            q00: self.q00 as int,
            q01: self.q01 as int,
            q02: self.q02 as int,
            q10: self.q10 as int,
            q11: self.q11 as int,
            q12: self.q12 as int,
            q20: self.q20 as int,
            q21: self.q21 as int,
            q22: self.q22 as int,
        }
    }
}

impl Kalman3 {
    /// Every entry of the view is the value of an `i64`.
    pub proof fn lemma_view_in_range(&self)
        ensures
            self@.in_range(),
    {
    }

    /// Creates a filter for process variance `q` (variance of the third
    /// derivative per unit time), sensor variance `r`, sample interval `dt`
    /// and initial reading `z`; both derivatives start at zero.
    ///
    /// As for [`crate::kalman::Kalman::new`], entries of `Q0` below the
    /// Q32.32 resolution of 2^-32 round to zero.
    pub fn new(q: i64, r: i64, dt: i64, z: i64) -> (k: Kalman3)
        ensures
            k@ == initial3(q as int, r as int, dt as int, z as int),
    {
        let dt2 = fmul(dt, dt);
        let dt3 = fmul(dt2, dt);
        let dt4 = fmul(dt3, dt);
        let dt5 = fmul(dt4, dt);
        let dt6 = fmul(dt5, dt);
        let q01 = fmul(fmul(q, dt5), TWELFTH);
        let q02 = fmul(fmul(q, dt4), SIXTH);
        let q12 = fmul(fmul(q, dt3), HALF);
        Kalman3 {
            r,
            dt,
            h: fmul(dt2, HALF),
            x0: z,
            x1: 0,
            x2: 0,
            xp0: 0,
            xp1: 0,
            xp2: 0,
            p00: INITIAL_VARIANCE,
            p01: 0,
            p02: 0,
            p10: 0,
            p11: INITIAL_VARIANCE,
            p12: 0,
            p20: 0,
            p21: 0,
            p22: INITIAL_VARIANCE,
            pp00: 0,
            pp01: 0,
            pp02: 0,
            pp10: 0,
            pp11: 0,
            pp12: 0,
            pp20: 0,
            pp21: 0,
            pp22: 0,
            q00: fmul(fmul(q, dt6), THIRTY_SIXTH),
            q01,
            q02,
            q10: q01,
            q11: fmul(fmul(q, dt4), QUARTER),
            q12,
            q20: q02,
            q21: q12,
            q22: fmul(q, dt2),
        }
    }

    /// Advances the prior state and covariance by one interval `dt`.
    pub fn predict(&mut self)
        ensures
            final(self)@ == predicted3(old(self)@),
    {
        // A = F P, rows 0 and 1 (row 2 is that of P)
        let a00 = fadd(fadd(self.p00, fmul(self.dt, self.p10)), fmul(self.h, self.p20));
        let a10 = fadd(self.p10, fmul(self.dt, self.p20));
        let a01 = fadd(fadd(self.p01, fmul(self.dt, self.p11)), fmul(self.h, self.p21));
        let a11 = fadd(self.p11, fmul(self.dt, self.p21));
        let a02 = fadd(fadd(self.p02, fmul(self.dt, self.p12)), fmul(self.h, self.p22));
        let a12 = fadd(self.p12, fmul(self.dt, self.p22));
        // xp = F x, Pp = A F' + Q0
        self.xp0 = fadd(fadd(self.x0, fmul(self.dt, self.x1)), fmul(self.h, self.x2));
        self.xp1 = fadd(self.x1, fmul(self.dt, self.x2));
        self.xp2 = self.x2;
        self.pp00 = fadd(fadd(fadd(a00, fmul(self.dt, a01)), fmul(self.h, a02)), self.q00);
        self.pp01 = fadd(fadd(a01, fmul(self.dt, a02)), self.q01);
        self.pp02 = fadd(a02, self.q02);
        self.pp10 = fadd(fadd(fadd(a10, fmul(self.dt, a11)), fmul(self.h, a12)), self.q10);
        self.pp11 = fadd(fadd(a11, fmul(self.dt, a12)), self.q11);
        self.pp12 = fadd(a12, self.q12);
        self.pp20 = fadd(fadd(fadd(self.p20, fmul(self.dt, self.p21)), fmul(self.h, self.p22)), self.q20);
        self.pp21 = fadd(fadd(self.p21, fmul(self.dt, self.p22)), self.q21);
        self.pp22 = fadd(self.p22, self.q22);
    }

    /// Incorporates the observation `z` into the posterior state and
    /// covariance; to be called after the `predict` of the same interval.
    pub fn update(&mut self, z: i64)
        ensures
            final(self)@ == corrected3(old(self)@, z as int),
            old(self)@.pp00 >= 0 && old(self)@.r >= 0 ==> 0 <= final(self)@.p00
                <= old(self)@.pp00,
    {
        proof {
            self.lemma_view_in_range();
            if self@.pp00 >= 0 && self@.r >= 0 {
                lemma_update_never_raises_variance3(self@, z as int);
            }
        }
        let s = fadd(self.pp00, self.r);
        if s > 0 {
            let k0 = fdiv(self.pp00, s);
            let k1 = fdiv(self.pp10, s);
            let k2 = fdiv(self.pp20, s);
            let y = fsub(z, self.xp0);
            self.x0 = fadd(self.xp0, fmul(k0, y));
            self.x1 = fadd(self.xp1, fmul(k1, y));
            self.x2 = fadd(self.xp2, fmul(k2, y));
            self.p00 = fsub(self.pp00, fmul(k0, self.pp00));
            self.p01 = fsub(self.pp01, fmul(k0, self.pp01));
            self.p02 = fsub(self.pp02, fmul(k0, self.pp02));
            self.p10 = fsub(self.pp10, fmul(k1, self.pp00));
            self.p11 = fsub(self.pp11, fmul(k1, self.pp01));
            self.p12 = fsub(self.pp12, fmul(k1, self.pp02));
            self.p20 = fsub(self.pp20, fmul(k2, self.pp00));
            self.p21 = fsub(self.pp21, fmul(k2, self.pp01));
            self.p22 = fsub(self.pp22, fmul(k2, self.pp02));
        } else {
            self.x0 = self.xp0;
            self.x1 = self.xp1;
            self.x2 = self.xp2;
            self.p00 = self.pp00;
            self.p01 = self.pp01;
            self.p02 = self.pp02;
            self.p10 = self.pp10;
            self.p11 = self.pp11;
            self.p12 = self.pp12;
            self.p20 = self.pp20;
            self.p21 = self.pp21;
            self.p22 = self.pp22;
        }
    }

    /// The current estimate: the value and its first two derivatives.
    pub fn get(&self) -> (r: (i64, i64, i64))
        ensures
            r.0 == self@.x0,
            r.1 == self@.x1,
            r.2 == self@.x2,
    {
        (self.x0, self.x1, self.x2)
    }

    /// The posterior variance of the value estimate, `P[0][0]`.
    pub fn variance(&self) -> (r: i64)
        ensures
            r == self@.p00,
    {
        self.p00
    }

    /// The prior variance of the value estimate, `Pp[0][0]`.
    pub fn prior_variance(&self) -> (r: i64)
        ensures
            r == self@.pp00,
    {
        self.pp00
    }
}

} // verus!
