//! A PID controller with a clamped integrator.
//!
//! At each step the controller needs the filtered process value and its
//! derivative. The derivative term acts on the process derivative rather
//! than on a differenced error, so sensor noise is not amplified.
//!
//! The integrator is clamped to `[i_min, i_max]` before gain is applied, so
//! the largest contribution of the integral term is `k_i * i_max`. Optionally
//! it only accumulates while the error magnitude is below a threshold.
//!
//! All values are Q32.32 fixed-point (see [`crate::fixed`]).
use vstd::prelude::*;
use crate::fixed::{fadd, fsub, fmul, fneg, fx_add, fx_sub, fx_mul, fx_neg, in_i64, ONE};

verus! {

/// The mathematical content of a [`PID`] controller.
pub ghost struct PidView {
    pub dt: int,
    pub k_p: int,
    pub k_i: int,
    pub k_d: int,
    pub i: int,
    pub i_min: int,
    pub i_max: int,
    pub i_threshold: Option<int>,
}

impl PidView {
    /// Every value is the value of an `i64`.
    pub open spec fn in_range(self) -> bool {
        &&& in_i64(self.dt) && in_i64(self.k_p) && in_i64(self.k_i) && in_i64(self.k_d)
        &&& in_i64(self.i) && in_i64(self.i_min) && in_i64(self.i_max)
        &&& (self.i_threshold matches Some(t) ==> in_i64(t))
    }

    /// The same controller with its integrator replaced.
    pub open spec fn with_i(self, i: int) -> PidView {
        PidView { i, ..self }
    }
}

/// Saturating magnitude of a fixed-point value.
pub open spec fn fx_abs(e: int) -> int {
    if e < 0 {
        fx_neg(e)
    } else {
        e
    }
}

/// Clamps an integrator value: first against `i_max`, then against `i_min`.
pub open spec fn clamp_integrator(i: int, i_min: int, i_max: int) -> int {
    if i > i_max {
        i_max
    } else if i < i_min {
        i_min
    } else {
        i
    }
}

/// Whether the integrator accumulates an error `err`.
pub open spec fn accumulates(c: PidView, err: int) -> bool {
    match c.i_threshold {
        None => true,
        Some(t) => fx_abs(err) < t,
    }
}

/// The integrator after a step towards `setpoint` from process value `x`.
pub open spec fn next_integrator(c: PidView, setpoint: int, x: int) -> int {
    let err = fx_sub(setpoint, x);
    let acc = if accumulates(c, err) {
        fx_add(c.i, fx_mul(err, c.dt))
    } else {
        c.i
    };
    clamp_integrator(acc, c.i_min, c.i_max)
}

/// The control action of a step: `k_p err + k_i i + k_d (-xdot)`, with `i`
/// the integrator after the step.
pub open spec fn control_action(c: PidView, setpoint: int, x: int, xdot: int) -> int {
    let err = fx_sub(setpoint, x);
    let p = fx_mul(c.k_p, err);
    let i = fx_mul(c.k_i, next_integrator(c, setpoint, x));
    let d = fx_mul(c.k_d, fx_neg(xdot));
    fx_add(fx_add(p, i), d)
}

/// Reset law: after `zero`, a step depends only on the configuration and
/// the new inputs: two controllers that differ only in their integrator
/// history give the same action and the same integrator.
pub proof fn lemma_zero_forgets_history(a: PidView, b: PidView, setpoint: int, x: int, xdot: int)
    requires
        a.with_i(0) == b.with_i(0),
    ensures
        control_action(a.with_i(0), setpoint, x, xdot) == control_action(
            b.with_i(0),
            setpoint,
            x,
            xdot,
        ),
        next_integrator(a.with_i(0), setpoint, x) == next_integrator(b.with_i(0), setpoint, x),
{
}

/// Steady state: with zero error, zero derivative and an empty integrator,
/// a step returns no action and leaves the integrator empty, provided the
/// integrator bounds admit zero.
pub proof fn lemma_steady_state_is_quiet(c: PidView, v: int)
    requires
        c.in_range(),
        in_i64(v),
        c.i == 0,
        c.i_min <= 0 <= c.i_max,
    ensures
        next_integrator(c, v, v) == 0,
        control_action(c, v, v, 0) == 0,
{
    vstd::arithmetic::mul::lemma_mul_basics(c.dt);
    vstd::arithmetic::mul::lemma_mul_basics(c.k_p);
    vstd::arithmetic::mul::lemma_mul_basics(c.k_i);
    vstd::arithmetic::mul::lemma_mul_basics(c.k_d);
    assert(fx_sub(v, v) == 0);
    assert(fx_mul(0, c.dt) == 0);
    assert(fx_neg(0) == 0);
}

/// Windup law, rising side: with no threshold and a non-negative step, a
/// non-negative error never lowers an integrator that lies within its
/// bounds, and never lifts it above `i_max`.
pub proof fn lemma_integrator_rises_to_max(c: PidView, setpoint: int, x: int)
    requires
        c.in_range(),
        c.i_threshold is None,
        c.i_min <= c.i <= c.i_max,
        c.dt >= 0,
        setpoint >= x,
    ensures
        c.i <= next_integrator(c, setpoint, x) <= c.i_max,
{
    let err = fx_sub(setpoint, x);
    assert(err >= 0);
    vstd::arithmetic::mul::lemma_mul_nonnegative(err, c.dt);
    vstd::arithmetic::div_mod::lemma_div_pos_is_pos(err * c.dt, ONE as int);
    assert(fx_mul(err, c.dt) >= 0);
}

/// Windup law, falling side: with no threshold and a non-negative step, a
/// non-positive error never raises an integrator that lies within its
/// bounds, and never pushes it below `i_min`.
pub proof fn lemma_integrator_falls_to_min(c: PidView, setpoint: int, x: int)
    requires
        c.in_range(),
        c.i_threshold is None,
        c.i_min <= c.i <= c.i_max,
        c.dt >= 0,
        setpoint <= x,
    ensures
        c.i_min <= next_integrator(c, setpoint, x) <= c.i,
{
    let err = fx_sub(setpoint, x);
    assert(err <= 0);
    vstd::arithmetic::mul::lemma_mul_nonnegative(-err, c.dt);
    vstd::arithmetic::mul::lemma_mul_unary_negation(err, c.dt);
    assert(err * c.dt <= 0);
    vstd::arithmetic::div_mod::lemma_div_is_ordered(err * c.dt, 0, ONE as int);
    assert(fx_mul(err, c.dt) <= 0);
}

/// PID controller.
pub struct PID {
    dt: i64,
    k_p: i64,
    k_i: i64,
    k_d: i64,
    i: i64,
    i_min: i64,
    i_max: i64,
    i_threshold: Option<i64>,
}

impl View for PID {
    type V = PidView;

    closed spec fn view(&self) -> PidView {
        PidView {
            dt: self.dt as int,
            k_p: self.k_p as int,
            k_i: self.k_i as int,
            k_d: self.k_d as int,
            i: self.i as int,
            i_min: self.i_min as int,
            i_max: self.i_max as int,
            i_threshold: match self.i_threshold {
                Some(t) => Some(t as int),
                None => None,
            },
        }
    }
}

impl PID {
    /// Every value of the view is the value of an `i64`.
    pub proof fn lemma_view_in_range(&self)
        ensures
            self@.in_range(),
    {
    }

    /// Creates a controller with step `dt`, gains `k_p`, `k_i`, `k_d` and
    /// integrator bounds `i_min`, `i_max`; the integrator starts at zero and
    /// accumulates every error.
    pub fn new(dt: i64, k_p: i64, k_i: i64, k_d: i64, i_min: i64, i_max: i64) -> (r: PID)
        ensures
            r@ == (PidView {
                dt: dt as int,
                k_p: k_p as int,
                k_i: k_i as int,
                k_d: k_d as int,
                i: 0,
                i_min: i_min as int,
                i_max: i_max as int,
                i_threshold: None,
            }),
    {
        PID { dt, k_p, k_i, k_d, i: 0, i_min, i_max, i_threshold: None }
    }

    /// The same controller, accumulating only errors whose magnitude is
    /// below `threshold`.
    pub fn with_integral_threshold(self, threshold: i64) -> (r: PID)
        ensures
            r@ == (PidView { i_threshold: Some(threshold as int), ..self@ }),
    {
        PID { i_threshold: Some(threshold), ..self }
    }

    /// Resets the integrator to zero.
    pub fn zero(&mut self)
        ensures
            final(self)@ == old(self)@.with_i(0),
    {
        self.i = 0;
    }

    /// Runs one control step towards `setpoint` from the process value `x`
    /// with derivative `xdot`, and returns the control action. The action is
    /// not limited here; the caller saturates it to the actuator's range.
    pub fn control_step(&mut self, setpoint: i64, x: i64, xdot: i64) -> (r: i64)
        ensures
            final(self)@ == old(self)@.with_i(next_integrator(old(self)@, setpoint as int, x as int)),
            r == control_action(old(self)@, setpoint as int, x as int, xdot as int),
            old(self)@.i_min <= old(self)@.i_max ==> old(self)@.i_min <= final(self)@.i
                <= old(self)@.i_max,
            old(self)@.i == 0 && old(self)@.i_min <= 0 <= old(self)@.i_max && setpoint == x && xdot
                == 0 ==> r == 0 && final(self)@.i == 0,
    {
        proof {
            self.lemma_view_in_range();
            if self@.i == 0 && self@.i_min <= 0 <= self@.i_max && setpoint == x && xdot == 0 {
                lemma_steady_state_is_quiet(self@, x as int);
            }
        }
        // Error between setpoint and filtered process value
        let err = fsub(setpoint, x);

        // Accumulate the integrator, gated by the threshold if one is set
        let gate = match self.i_threshold {
            None => true,
            Some(t) => {
                let mag = if err < 0 {
                    fneg(err)
                } else {
                    err
                };
                mag < t
            },
        };
        if gate {
            self.i = fadd(self.i, fmul(err, self.dt));
        }
        if self.i > self.i_max {
            self.i = self.i_max;
        } else if self.i < self.i_min {
            self.i = self.i_min;
        }

        // Proportional, integral and derivative contributions
        let p = fmul(self.k_p, err);
        let i = fmul(self.k_i, self.i);
        let d = fmul(self.k_d, fneg(xdot));

        fadd(fadd(p, i), d)
    }

    /// The integrator's current value.
    pub fn get_i(&self) -> (r: i64)
        ensures
            r == self@.i,
    {
        self.i
    }
}

} // verus!
