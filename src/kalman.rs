//! A Kalman filter for one scalar reading and its first derivative.
//!
//! The state vector is `x = [value, d(value)/dt]`; the filter is advanced by
//! a constant sample interval `dt`.
//!
//! Model:
//!
//! * transition `F = [[1, dt], [0, 1]]` (constant second derivative over `dt`);
//! * process noise: an unknown change of the second derivative `a ~ N(0, Q)`
//!   held over each interval, so that `w = [a dt^2/2, a dt]` and
//!   `Q0 = E[w w'] = Q [[dt^4/4, dt^3/2], [dt^3/2, dt^2]]`, computed once;
//! * observation `H = [1, 0]` with sensor variance `R`.
//!
//! `predict` computes the prior `xp = F x`, `Pp = F P F' + Q0`; `update`
//! computes the posterior from an observation `z` with the gain
//! `K = Pp[:, 0] / (Pp[0][0] + R)`:
//! `x = xp + K (z - xp[0])`, `P = (I - K H) Pp`.
//!
//! All values are Q32.32 fixed-point (see [`crate::fixed`]).
use vstd::prelude::*;
use crate::fixed::{fadd, fsub, fmul, fdiv, fx_add, fx_sub, fx_mul, fx_div, in_i64, HALF, ONE, QUARTER};

verus! {

/// Diagonal of the initial error covariance (about 1e-3), small and positive
/// so that the first gain is well defined.
pub const INITIAL_VARIANCE: i64 = 4294967;

/// The mathematical content of a [`Kalman`] filter.
///
/// `x*` is the posterior state, `xp*` the prior, `p**` the posterior error
/// covariance, `pp**` its prior, and `q**` the constant process noise
/// covariance.
pub ghost struct KalmanView {
    pub r: int,
    pub dt: int,
    pub x0: int,
    pub x1: int,
    pub xp0: int,
    pub xp1: int,
    pub p00: int,
    pub p01: int,
    pub p10: int,
    pub p11: int,
    pub pp00: int,
    pub pp01: int,
    pub pp10: int,
    pub pp11: int,
    pub q00: int,
    pub q01: int,
    pub q10: int,
    pub q11: int,
}

impl KalmanView {
    /// Every entry is the value of an `i64`.
    pub open spec fn in_range(self) -> bool {
        &&& in_i64(self.r) && in_i64(self.dt)
        &&& in_i64(self.x0) && in_i64(self.x1) && in_i64(self.xp0) && in_i64(self.xp1)
        &&& in_i64(self.p00) && in_i64(self.p01) && in_i64(self.p10) && in_i64(self.p11)
        &&& in_i64(self.pp00) && in_i64(self.pp01) && in_i64(self.pp10) && in_i64(self.pp11)
        &&& in_i64(self.q00) && in_i64(self.q01) && in_i64(self.q10) && in_i64(self.q11)
    }
}

/// A freshly created filter: state `(z, 0)`, diagonal covariance
/// [`INITIAL_VARIANCE`], and `Q0` derived from `q` and `dt`.
pub open spec fn initial(q: int, r: int, dt: int, z: int) -> KalmanView {
    let dt2 = fx_mul(dt, dt);
    let dt3 = fx_mul(dt2, dt);
    let dt4 = fx_mul(dt3, dt);
    KalmanView {
        r,
        dt,
        x0: z,
        x1: 0,
        xp0: 0,
        xp1: 0,
        p00: INITIAL_VARIANCE as int,
        p01: 0,
        p10: 0,
        p11: INITIAL_VARIANCE as int,
        pp00: 0,
        pp01: 0,
        pp10: 0,
        pp11: 0,
        q00: fx_mul(fx_mul(q, dt4), QUARTER as int),
        q01: fx_mul(fx_mul(q, dt3), HALF as int),
        q10: fx_mul(fx_mul(q, dt3), HALF as int),
        q11: fx_mul(q, dt2),
    }
}

/// The filter after a predict step: `xp = F x` and `Pp = F P F' + Q0`.
pub open spec fn predicted(k: KalmanView) -> KalmanView {
    let pp01 = fx_add(k.p01, fx_mul(k.p11, k.dt));
    let pp00 = fx_add(fx_add(k.p00, fx_mul(k.p10, k.dt)), fx_mul(pp01, k.dt));
    KalmanView {
        xp0: fx_add(k.x0, fx_mul(k.dt, k.x1)),
        xp1: k.x1,
        pp00: fx_add(pp00, k.q00),
        pp01: fx_add(pp01, k.q01),
        pp10: fx_add(fx_add(k.p10, fx_mul(k.p11, k.dt)), k.q10),
        pp11: fx_add(k.p11, k.q11),
        ..k
    }
}

/// The innovation variance `S = Pp[0][0] + R`.
pub open spec fn innovation_variance(k: KalmanView) -> int {
    fx_add(k.pp00, k.r)
}

/// The filter after an update step with observation `z`.
///
/// Where `S` is not positive the observation carries no usable weight and
/// the posterior is the prior.
pub open spec fn corrected(k: KalmanView, z: int) -> KalmanView {
    let s = innovation_variance(k);
    if s > 0 {
        let k0 = fx_div(k.pp00, s);
        let k1 = fx_div(k.pp10, s);
        let y = fx_sub(z, k.xp0);
        KalmanView {
            x0: fx_add(k.xp0, fx_mul(k0, y)),
            x1: fx_add(k.xp1, fx_mul(k1, y)),
            p00: fx_sub(k.pp00, fx_mul(k0, k.pp00)),
            p01: fx_sub(k.pp01, fx_mul(k0, k.pp01)),
            p10: fx_sub(k.pp10, fx_mul(k1, k.pp00)),
            p11: fx_sub(k.pp11, fx_mul(k1, k.pp01)),
            ..k
        }
    } else {
        KalmanView {
            x0: k.xp0,
            x1: k.xp1,
            p00: k.pp00,
            p01: k.pp01,
            p10: k.pp10,
            p11: k.pp11,
            ..k
        }
    }
}

/// The scalar step behind both filters' variance law: with a non-negative
/// prior variance `pp00` and sensor variance `r`, the posterior variance
/// `pp00 - K pp00`, with gain `K = pp00 / (pp00 + r)`, lies in `[0, pp00]`.
pub proof fn lemma_gain_keeps_variance(pp00: int, r: int)
    requires
        in_i64(pp00),
        in_i64(r),
        pp00 >= 0,
        r >= 0,
        fx_add(pp00, r) > 0,
    ensures
        0 <= fx_sub(pp00, fx_mul(fx_div(pp00, fx_add(pp00, r)), pp00)) <= pp00,
{
    let s = fx_add(pp00, r);
    let one = ONE as int;
    assert(pp00 <= s);
    let g = (pp00 * one) / s;
    assert(0 <= g <= one) by {
        vstd::arithmetic::div_mod::lemma_div_pos_is_pos(pp00 * one, s);
        vstd::arithmetic::mul::lemma_mul_inequality(pp00, s, one);
        vstd::arithmetic::div_mod::lemma_div_is_ordered(pp00 * one, s * one, s);
        vstd::arithmetic::div_mod::lemma_div_multiples_vanish(one, s);
    }
    let k0 = fx_div(pp00, s);
    assert(k0 == g);
    let m = (k0 * pp00) / one;
    assert(0 <= m <= pp00) by {
        vstd::arithmetic::mul::lemma_mul_inequality(k0, one, pp00);
        vstd::arithmetic::mul::lemma_mul_nonnegative(k0, pp00);
        vstd::arithmetic::div_mod::lemma_div_pos_is_pos(k0 * pp00, one);
        vstd::arithmetic::div_mod::lemma_div_is_ordered(k0 * pp00, one * pp00, one);
        vstd::arithmetic::mul::lemma_mul_is_commutative(one, pp00);
        vstd::arithmetic::div_mod::lemma_div_multiples_vanish(pp00, one);
    }
    assert(fx_mul(k0, pp00) == m);
}

/// Update law: an update step never raises the variance of the value
/// estimate above its prior and never makes it negative, whatever the
/// observation; in particular, with no process noise, the posterior variance
/// after an update is at most the variance predicted for that interval.
pub proof fn lemma_update_never_raises_variance(k: KalmanView, z: int)
    requires
        k.in_range(),
        k.pp00 >= 0,
        k.r >= 0,
    ensures
        0 <= corrected(k, z).p00 <= k.pp00,
{
    if innovation_variance(k) > 0 {
        lemma_gain_keeps_variance(k.pp00, k.r);
    }
}

/// Steady state: an estimate that equals a constant reading `v` with zero
/// derivative stays exactly there after a predict and an update with `v`.
pub proof fn lemma_settled_estimate_is_kept(k: KalmanView, v: int)
    requires
        k.in_range(),
        k.x0 == v,
        k.x1 == 0,
    ensures
        corrected(predicted(k), v).x0 == v,
        corrected(predicted(k), v).x1 == 0,
{
    let p = predicted(k);
    vstd::arithmetic::mul::lemma_mul_basics(k.dt);
    assert(fx_mul(k.dt, 0) == 0);
    assert(p.xp0 == v);
    let s = innovation_variance(p);
    if s > 0 {
        let k0 = fx_div(p.pp00, s);
        let k1 = fx_div(p.pp10, s);
        assert(fx_sub(v, p.xp0) == 0);
        vstd::arithmetic::mul::lemma_mul_basics(k0);
        vstd::arithmetic::mul::lemma_mul_basics(k1);
        assert(fx_mul(k0, 0) == 0);
        assert(fx_mul(k1, 0) == 0);
    }
}

/// Kalman filter estimating a scalar reading and its first derivative.
pub struct Kalman {
    r: i64,
    dt: i64,
    x0: i64,
    x1: i64,
    xp0: i64,
    xp1: i64,
    p00: i64,
    p01: i64,
    p10: i64,
    p11: i64,
    pp00: i64,
    pp01: i64,
    pp10: i64,
    pp11: i64,
    q00: i64,
    q01: i64,
    q10: i64,
    q11: i64,
}

impl View for Kalman {
    type V = KalmanView;

    closed spec fn view(&self) -> KalmanView {
        KalmanView {
            r: self.r as int,
            dt: self.dt as int,
            x0: self.x0 as int,
            x1: self.x1 as int,
            xp0: self.xp0 as int,
            xp1: self.xp1 as int,
            p00: self.p00 as int,
            p01: self.p01 as int,
            p10: self.p10 as int,
            p11: self.p11 as int,
            pp00: self.pp00 as int,
            pp01: self.pp01 as int,
            pp10: self.pp10 as int,
            pp11: self.pp11 as int,
            q00: self.q00 as int,
            q01: self.q01 as int,
            q10: self.q10 as int,
            q11: self.q11 as int,
        }
    }
}

impl Kalman {
    /// Every entry of the view is the value of an `i64`.
    pub proof fn lemma_view_in_range(&self)
        ensures
            self@.in_range(),
    {
    }

    /// Creates a filter for process variance `q` (variance of the change of
    /// the second derivative per unit time), sensor variance `r`, sample
    /// interval `dt` and initial reading `z`; the derivative starts at zero.
    ///
    /// `Q0` is computed in Q32.32, whose resolution is 2^-32 (about
    /// 2.3e-10): an entry of `Q0` whose true value is below that, such as
    /// `dt^2` or `Q dt^4/4` for `dt` of a few microseconds in seconds,
    /// rounds to zero, and the filter then runs without process noise.
    /// Choose the time unit of `dt` and `q` so that `Q0` is representable
    /// where process noise matters.
    ///
    /// Every entry of `Q0`, and every entry computed by `predict` and
    /// `update`, is rounded down on its own. The stored matrices are
    /// therefore not guaranteed to stay symmetric positive semi-definite:
    /// `q00` may round to zero while `q01` does not, and the posterior
    /// variance may be rounded to a value as large as its prior. The laws
    /// this module proves hold of the rounded values as they are.
    pub fn new(q: i64, r: i64, dt: i64, z: i64) -> (k: Kalman)
        ensures
            k@ == initial(q as int, r as int, dt as int, z as int),
    {
        let dt2 = fmul(dt, dt);
        let dt3 = fmul(dt2, dt);
        let dt4 = fmul(dt3, dt);
        let q01 = fmul(fmul(q, dt3), HALF);
        Kalman {
            r,
            dt,
            x0: z,
            x1: 0,
            xp0: 0,
            xp1: 0,
            p00: INITIAL_VARIANCE,
            p01: 0,
            p10: 0,
            p11: INITIAL_VARIANCE,
            pp00: 0,
            pp01: 0,
            pp10: 0,
            pp11: 0,
            q00: fmul(fmul(q, dt4), QUARTER),
            q01,
            q10: q01,
            q11: fmul(q, dt2),
        }
    }

    /// Advances the prior state and covariance by one interval `dt`.
    pub fn predict(&mut self)
        ensures
            final(self)@ == predicted(old(self)@),
    {
        let dt = self.dt;
        self.xp0 = fadd(self.x0, fmul(dt, self.x1));
        self.xp1 = self.x1;
        let pp01 = fadd(self.p01, fmul(self.p11, dt));
        let pp00 = fadd(fadd(self.p00, fmul(self.p10, dt)), fmul(pp01, dt));
        self.pp00 = fadd(pp00, self.q00);
        self.pp01 = fadd(pp01, self.q01);
        self.pp10 = fadd(fadd(self.p10, fmul(self.p11, dt)), self.q10);
        self.pp11 = fadd(self.p11, self.q11);
    }

    /// Incorporates the observation `z` into the posterior state and
    /// covariance; to be called after the `predict` of the same interval.
    pub fn update(&mut self, z: i64)
        ensures
            final(self)@ == corrected(old(self)@, z as int),
            old(self)@.pp00 >= 0 && old(self)@.r >= 0 ==> 0 <= final(self)@.p00
                <= old(self)@.pp00,
    {
        proof {
            self.lemma_view_in_range();
            if self@.pp00 >= 0 && self@.r >= 0 {
                lemma_update_never_raises_variance(self@, z as int);
            }
        }
        let s = fadd(self.pp00, self.r);
        if s > 0 {
            let k0 = fdiv(self.pp00, s);
            let k1 = fdiv(self.pp10, s);
            let y = fsub(z, self.xp0);
            self.x0 = fadd(self.xp0, fmul(k0, y));
            self.x1 = fadd(self.xp1, fmul(k1, y));
            self.p00 = fsub(self.pp00, fmul(k0, self.pp00));
            self.p01 = fsub(self.pp01, fmul(k0, self.pp01));
            self.p10 = fsub(self.pp10, fmul(k1, self.pp00));
            self.p11 = fsub(self.pp11, fmul(k1, self.pp01));
        } else {
            self.x0 = self.xp0;
            self.x1 = self.xp1;
            self.p00 = self.pp00;
            self.p01 = self.pp01;
            self.p10 = self.pp10;
            self.p11 = self.pp11;
        }
    }

    /// The current estimate: the value and its first derivative.
    pub fn get(&self) -> (r: (i64, i64))
        ensures
            r.0 == self@.x0,
            r.1 == self@.x1,
    {
        (self.x0, self.x1)
    }

    /// The posterior variance of the value estimate, `P[0][0]`.
    pub fn variance(&self) -> (r: i64)
        ensures
            r == self@.p00,
    {
        self.p00
    }

    /// The prior variance of the value estimate, `Pp[0][0]`.
    pub fn prior_variance(&self) -> (r: i64)
        ensures
            r == self@.pp00,
    {
        self.pp00
    }
}

} // verus!
