//! Equations of motion and the fixed-step fourth-order Runge-Kutta
//! integrator.
//!
//! The state derivative sums two-body gravity, the J2 oblateness
//! perturbation and thrust acceleration, and books propellant mass flow.
//! All quantities are fixed-point reals (see [`crate::fixed`]).

use vstd::prelude::*;
use crate::fixed::{SCALE, THOUSAND_FX, FIVE_FX, THREE_FX, TWO_FX, SIX_FX, HALF_FX, sat64, sadd,
    ssub, smul, sdiv, fx_add, fx_sub, fx_mul, fx_div, fx_neg};
use crate::utils::{Vec3, EARTH_MU, EARTH_RADIUS};

verus! {

/// Three halves of the J2 oblateness coefficient (1.5 * 1.08263e-3),
/// the leading factor of the perturbation term.
pub const J2_15_FX: i64 = 1_623_945;

/// Standard gravity, m/s^2 (9.80665).
pub const G0_FX: i64 = 9_806_650_000;

/// The full integrable state: position (km), velocity (km/s), mass (kg).
#[derive(Clone, Copy, Debug, PartialEq, Eq, Structural)]
pub struct State {
    pub r: Vec3,
    pub v: Vec3,
    pub m: i64,
}

/// The commanded control: thrust vector in the inertial frame (N) and
/// specific impulse (s), held constant over one integration step.
#[derive(Clone, Copy, Debug, PartialEq, Eq, Structural)]
pub struct Control {
    pub thrust_eci: Vec3,
    pub isp: i64,
}

/// What `two_body_accel` computes: `-mu * r / |r|^3`, staged as the unit
/// vector times `mu / |r|^2` to keep precision; the zero vector when
/// `r` is zero.
pub open spec fn stwo_body_accel(mu: int, r: Vec3) -> Vec3 {
    let rn = r.smag();
    let g = sdiv(sdiv(mu, rn), rn);
    r.sdiv_by(rn).sscale(sat64(-g))
}

fn two_body_accel(mu: i64, r: Vec3) -> (a: Vec3)
    ensures
        a == stwo_body_accel(mu as int, r),
{
    let rn = r.magnitude();
    let g = fx_div(fx_div(mu, rn), rn);
    r.div_by(rn).scale(fx_neg(g))
}

/// What `j2_accel` computes: the closed-form J2 oblateness acceleration
/// `1.5 * J2 * mu * Re^2 / r^5 * (x(5z^2/r^2 - 1), y(5z^2/r^2 - 1),
/// z(5z^2/r^2 - 3))`, staged over the unit position vector; the zero
/// vector when `r` is zero.
pub open spec fn sj2_accel(r: Vec3) -> Vec3 {
    let rn = r.smag();
    let r2 = r.sdot(r);
    let g = sdiv(sdiv(EARTH_MU as int, rn), rn);
    let u = sdiv(EARTH_RADIUS as int, rn);
    let k = smul(smul(g, smul(u, u)), J2_15_FX as int);
    let f5 = smul(sdiv(smul(r.z as int, r.z as int), r2), FIVE_FX as int);
    let h = r.sdiv_by(rn);
    Vec3 {
        x: smul(h.x as int, ssub(f5, SCALE as int)) as i64,
        y: smul(h.y as int, ssub(f5, SCALE as int)) as i64,
        z: smul(h.z as int, ssub(f5, THREE_FX as int)) as i64,
    }.sscale(k)
}

fn j2_accel(r: Vec3) -> (a: Vec3)
    ensures
        a == sj2_accel(r),
{
    let rn = r.magnitude();
    let r2 = r.dot(r);
    let g = fx_div(fx_div(EARTH_MU, rn), rn);
    let u = fx_div(EARTH_RADIUS, rn);
    let k = fx_mul(fx_mul(g, fx_mul(u, u)), J2_15_FX);
    let f5 = fx_mul(fx_div(fx_mul(r.z, r.z), r2), FIVE_FX);
    let h = r.div_by(rn);
    Vec3 {
        x: fx_mul(h.x, fx_sub(f5, SCALE)),
        y: fx_mul(h.y, fx_sub(f5, SCALE)),
        z: fx_mul(h.z, fx_sub(f5, THREE_FX)),
    }.scale(k)
}

/// What `mdot_from_thrust` computes: the propellant mass flow
/// `-thrust / (isp * g0)` for a positive specific impulse, zero
/// otherwise (thrust without an Isp spends no propellant).
pub open spec fn smdot(thrust: int, isp: int) -> int {
    if isp > 0 {
        sat64(-sdiv(thrust, smul(isp, G0_FX as int)))
    } else {
        0
    }
}

fn mdot_from_thrust(thrust: i64, isp: i64) -> (md: i64)
    ensures
        md == smdot(thrust as int, isp as int),
{
    if isp > 0 {
        fx_neg(fx_div(thrust, fx_mul(isp, G0_FX)))
    } else {
        0
    }
}

/// What the equations of motion return: position changes at the
/// velocity; velocity changes at the sum of two-body gravity, J2 (when
/// enabled) and thrust over mass (suppressed for a non-positive mass);
/// mass changes at the propellant flow.
pub open spec fn seom(x: State, u: Control, j2_on: bool) -> State {
    let a_grav = stwo_body_accel(EARTH_MU as int, x.r);
    let a_j2 = if j2_on {
        sj2_accel(x.r)
    } else {
        Vec3 { x: 0i64, y: 0i64, z: 0i64 }
    };
    let a_thrust = if x.m > 0 {
        u.thrust_eci.sdiv_by(THOUSAND_FX as int).sdiv_by(x.m as int)
    } else {
        Vec3 { x: 0i64, y: 0i64, z: 0i64 }
    };
    State {
        r: x.v,
        v: a_grav.splus(a_j2).splus(a_thrust),
        m: smdot(u.thrust_eci.smag(), u.isp as int) as i64,
    }
}

/// A force model: the capability of computing the state derivative from
/// a state and a control.  The integrator is generic over it, so other
/// force models can be substituted without touching the stepper.
pub trait EquationsOfMotion {
    /// The derivative the model stands for.
    spec fn sderiv(&self, x: State, u: Control) -> State;

    /// Compute the derivative; the time argument is accepted but unused
    /// by autonomous models.
    fn deriv(&self, t: i64, x: &State, u: &Control) -> (d: State)
        ensures
            d == self.sderiv(*x, *u),
    ;
}

/// The point-mass model of this crate: two-body gravity, optional J2,
/// thrust and mass flow.
#[derive(Clone, Copy, Debug, PartialEq, Eq, Structural)]
pub struct PointMassEom {
    pub j2_on: bool,
}

impl EquationsOfMotion for PointMassEom {
    open spec fn sderiv(&self, x: State, u: Control) -> State {
        seom(x, u, self.j2_on)
    }

    fn deriv(&self, t: i64, x: &State, u: &Control) -> (d: State) {
        let a_grav = two_body_accel(EARTH_MU, x.r);
        let a_j2 = if self.j2_on {
            j2_accel(x.r)
        } else {
            Vec3::zero()
        };
        let a_thrust = if x.m > 0 {
            u.thrust_eci.div_by(THOUSAND_FX).div_by(x.m)
        } else {
            Vec3::zero()
        };
        let thrust_mag = u.thrust_eci.magnitude();
        State {
            r: x.v,
            v: a_grav.plus(a_j2).plus(a_thrust),
            m: mdot_from_thrust(thrust_mag, u.isp),
        }
    }
}

/// Continuous-time equations of motion with every force term enabled,
/// `xdot = f(x, u)`; the time argument is accepted but unused.
pub fn eom(t: i64, x: &State, u: &Control) -> (d: State)
    ensures
        d == seom(*x, *u, true),
{
    let model = PointMassEom { j2_on: true };
    model.deriv(t, x, u)
}

/// One state plus a scaled derivative, componentwise.
pub open spec fn snudge(x: State, k: State, h: int) -> State {
    State {
        r: x.r.splus(k.r.sscale(h)),
        v: x.v.splus(k.v.sscale(h)),
        m: sadd(x.m as int, smul(k.m as int, h)) as i64,
    }
}

fn nudge(x: &State, k: &State, h: i64) -> (s: State)
    ensures
        s == snudge(*x, *k, h as int),
{
    State {
        r: x.r.plus(k.r.scale(h)),
        v: x.v.plus(k.v.scale(h)),
        m: fx_add(x.m, fx_mul(k.m, h)),
    }
}

/// The weighted stage combination `k1 + 2*k2 + 2*k3 + k4` of the
/// classical Runge-Kutta scheme, componentwise.
pub open spec fn srk4_blend(k1: State, k2: State, k3: State, k4: State) -> State {
    State {
        r: k1.r.splus(k2.r.sscale(TWO_FX as int)).splus(k3.r.sscale(TWO_FX as int)).splus(k4.r),
        v: k1.v.splus(k2.v.sscale(TWO_FX as int)).splus(k3.v.sscale(TWO_FX as int)).splus(k4.v),
        m: sadd(
            sadd(
                sadd(k1.m as int, smul(k2.m as int, TWO_FX as int)),
                smul(k3.m as int, TWO_FX as int),
            ),
            k4.m as int,
        ) as i64,
    }
}

/// What `rk4_step` computes: the four classical stages, each evaluated
/// with the same control, blended with weights 1:2:2:1 over 6.
pub open spec fn srk4_step<M: EquationsOfMotion>(model: M, x: State, u: Control, dt: int) -> State {
    let hdt = smul(dt, HALF_FX as int);
    let k1 = model.sderiv(x, u);
    let k2 = model.sderiv(snudge(x, k1, hdt), u);
    let k3 = model.sderiv(snudge(x, k2, hdt), u);
    let k4 = model.sderiv(snudge(x, k3, dt), u);
    snudge(x, srk4_blend(k1, k2, k3, k4), sdiv(dt, SIX_FX as int))
}

/// One classical fourth-order Runge-Kutta step of size `dt`, the control
/// held constant across all four stages.
pub fn rk4_step<M: EquationsOfMotion>(model: &M, t: i64, x: &State, u: &Control, dt: i64) -> (s: State)
    ensures
        s == srk4_step(*model, *x, *u, dt as int),
{
    let hdt = fx_mul(dt, HALF_FX);
    let k1 = model.deriv(t, x, u);
    let x2 = nudge(x, &k1, hdt);
    let k2 = model.deriv(fx_add(t, hdt), &x2, u);
    let x3 = nudge(x, &k2, hdt);
    let k3 = model.deriv(fx_add(t, hdt), &x3, u);
    let x4 = nudge(x, &k3, dt);
    let k4 = model.deriv(fx_add(t, dt), &x4, u);
    let blend = State {
        r: k1.r.plus(k2.r.scale(TWO_FX)).plus(k3.r.scale(TWO_FX)).plus(k4.r),
        v: k1.v.plus(k2.v.scale(TWO_FX)).plus(k3.v.scale(TWO_FX)).plus(k4.v),
        m: fx_add(fx_add(fx_add(k1.m, fx_mul(k2.m, TWO_FX)), fx_mul(k3.m, TWO_FX)), k4.m),
    };
    nudge(x, &blend, fx_div(dt, SIX_FX))
}

} // verus!
