//! Keplerian orbital elements, the transforms between elements and
//! Cartesian state vectors, and the satellite aggregate.
//!
//! The inverse transform is total: every degenerate case (circular,
//! equatorial, vanishing vectors) takes a documented fallback instead of
//! an ill-conditioned formula, and all angles come back in `[0, 2*pi)`.

use vstd::prelude::*;
use crate::fixed::{SCALE, TWO_FX, sat64, sadd, ssub, smul, sdiv, ssqrt, fx_add, fx_sub, fx_mul,
    fx_div, fx_neg, fx_sqrt};
use crate::utils::{Vec3, EARTH_MU, EARTH_RADIUS, TWO_PI_FX, sdeg_to_rad, deg_to_rad, snorm_angle,
    normalize_angle, sclamp, clamp};
use crate::trig::{ssin, scos, satan2, sacos, sin_fixed, cos_fixed, atan2_fixed, acos_fixed};
use crate::gnc::{State, Control, PointMassEom, rk4_step, srk4_step};

verus! {

/// Threshold below which a node vector or an eccentricity counts as
/// vanished and the fallback angle conventions apply.  One part in a
/// million: the analogue, at this representation's resolution, of the
/// tiny cutoff a double-precision implementation would use.
pub const EPS_FX: i64 = 1_000;

/// Keplerian orbital elements: semi-major axis (km), eccentricity,
/// and four angles stored in radians.
#[derive(Clone, Copy, Debug, PartialEq, Eq, Structural)]
pub struct OrbitalElements {
    pub semi_major_axis: i64,
    pub eccentricity: i64,
    pub inclination: i64,
    pub raan: i64,
    pub arg_periapsis: i64,
    pub true_anomaly: i64,
}

impl OrbitalElements {
    /// What `new` builds: the four angles arrive in degrees and are
    /// stored in radians; the axis and the eccentricity pass through.
    pub open spec fn snew(
        semi_major_axis: int,
        eccentricity: int,
        inclination: int,
        raan: int,
        arg_periapsis: int,
        true_anomaly: int,
    ) -> OrbitalElements {
        OrbitalElements {
            semi_major_axis: semi_major_axis as i64,
            eccentricity: eccentricity as i64,
            inclination: sdeg_to_rad(inclination) as i64,
            raan: sdeg_to_rad(raan) as i64,
            arg_periapsis: sdeg_to_rad(arg_periapsis) as i64,
            true_anomaly: sdeg_to_rad(true_anomaly) as i64,
        }
    }

    /// Build elements from angles in degrees.
    pub fn new(
        semi_major_axis: i64,
        eccentricity: i64,
        inclination: i64,
        raan: i64,
        arg_periapsis: i64,
        true_anomaly: i64,
    ) -> (r: OrbitalElements)
        ensures
            r == Self::snew(
                semi_major_axis as int,
                eccentricity as int,
                inclination as int,
                raan as int,
                arg_periapsis as int,
                true_anomaly as int,
            ),
    {
        OrbitalElements {
            semi_major_axis,
            eccentricity,
            inclination: deg_to_rad(inclination),
            raan: deg_to_rad(raan),
            arg_periapsis: deg_to_rad(arg_periapsis),
            true_anomaly: deg_to_rad(true_anomaly),
        }
    }
}

/// A satellite: one elements snapshot, one integrable state, one
/// control, one clock, the actuator thrust limit, and the J2 switch.
#[derive(Clone, Copy, Debug, PartialEq, Eq, Structural)]
pub struct Satellite {
    pub elements: OrbitalElements,
    pub state: State,
    pub control: Control,
    pub time: i64,
    pub thrust_limit_n: i64,
    pub j2_on: bool,
}

/// What the forward transform computes: in-plane position and velocity
/// from the conic equation and the angular momentum, rotated into the
/// inertial frame by the 3-1-3 sequence (RAAN, inclination, argument of
/// periapsis).
pub open spec fn sel_to_sv(el: OrbitalElements) -> (Vec3, Vec3) {
    let a = el.semi_major_axis as int;
    let e = el.eccentricity as int;
    let cnu = scos(el.true_anomaly as int);
    let snu = ssin(el.true_anomaly as int);
    let rr = sdiv(smul(a, ssub(SCALE as int, smul(e, e))), sadd(SCALE as int, smul(e, cnu)));
    let x_orb = smul(rr, cnu);
    let y_orb = smul(rr, snu);
    let h = smul(ssqrt(EARTH_MU as int), ssqrt(smul(a, ssub(SCALE as int, smul(e, e)))));
    let vx_orb = smul(sat64(-sdiv(EARTH_MU as int, h)), snu);
    let vy_orb = smul(sdiv(EARTH_MU as int, h), sadd(e, cnu));
    let co = scos(el.raan as int);
    let so = ssin(el.raan as int);
    let ci = scos(el.inclination as int);
    let si = ssin(el.inclination as int);
    let cw = scos(el.arg_periapsis as int);
    let sw = ssin(el.arg_periapsis as int);
    let r11 = ssub(smul(co, cw), smul(smul(so, sw), ci));
    let r12 = ssub(sat64(-smul(co, sw)), smul(smul(so, cw), ci));
    let r21 = sadd(smul(so, cw), smul(smul(co, sw), ci));
    let r22 = sadd(sat64(-smul(so, sw)), smul(smul(co, cw), ci));
    let r31 = smul(sw, si);
    let r32 = smul(cw, si);
    let pos = Vec3 {
        x: sadd(smul(r11, x_orb), smul(r12, y_orb)) as i64,
        y: sadd(smul(r21, x_orb), smul(r22, y_orb)) as i64,
        z: sadd(smul(r31, x_orb), smul(r32, y_orb)) as i64,
    };
    let vel = Vec3 {
        x: sadd(smul(r11, vx_orb), smul(r12, vy_orb)) as i64,
        y: sadd(smul(r21, vx_orb), smul(r22, vy_orb)) as i64,
        z: sadd(smul(r31, vx_orb), smul(r32, vy_orb)) as i64,
    };
    (pos, vel)
}

/// What the inverse transform computes, branch for branch: angular
/// momentum, node vector and eccentricity vector; the vis-viva
/// semi-major axis; then each angle by the documented convention —
/// the order of the checks (eccentric-and-inclined, then
/// eccentric-and-equatorial, then circular-and-inclined, then
/// circular-and-equatorial) decides which fallback applies.  An angle
/// between two of the orbit's vectors is measured between their unit
/// vectors, its sine taken about the unit angular-momentum vector, so
/// that inclination does not distort it and no product leaves the
/// representable range.
pub open spec fn ssv_to_el(r: Vec3, v: Vec3) -> OrbitalElements {
    let r_norm = r.smag();
    let v_norm2 = v.sdot(v);
    let h_vec = r.scross(v);
    let h_norm = h_vec.smag();
    let h_unit = h_vec.sdiv_by(h_norm);
    let i = sacos(sdiv(h_vec.z as int, h_norm));
    let n_vec = Vec3 { x: sat64(-(h_vec.y as int)) as i64, y: h_vec.x, z: 0i64 };
    let n_norm = n_vec.smag();
    let e_vec = v.scross(h_vec).sdiv_by(EARTH_MU as int).sminus(r.sdiv_by(r_norm));
    let e = e_vec.smag();
    let a = sdiv(SCALE as int, ssub(sdiv(TWO_FX as int, r_norm), sdiv(v_norm2, EARTH_MU as int)));
    let raan = if n_norm > EPS_FX {
        snorm_angle(satan2(n_vec.y as int, n_vec.x as int))
    } else {
        0
    };
    let arg_periapsis = if e > EPS_FX && n_norm > EPS_FX {
        let n_unit = n_vec.sdiv_by(n_norm);
        let e_unit = e_vec.sdiv_by(e);
        let cos_w = n_unit.sdot(e_unit);
        let sin_w = n_unit.scross(e_unit).sdot(h_unit);
        snorm_angle(satan2(sin_w, cos_w))
    } else if e > EPS_FX {
        snorm_angle(satan2(e_vec.y as int, e_vec.x as int))
    } else {
        0
    };
    let true_anomaly = if e > EPS_FX {
        let cos_nu = sclamp(sdiv(e_vec.sdot(r), smul(e, r_norm)), -(SCALE as int), SCALE as int);
        let nu = sacos(cos_nu);
        let nu_q = if r.sdot(v) < 0 {
            ssub(TWO_PI_FX as int, nu)
        } else {
            nu
        };
        snorm_angle(nu_q)
    } else if n_norm > EPS_FX {
        let n_unit = n_vec.sdiv_by(n_norm);
        let r_unit = r.sdiv_by(r_norm);
        let cos_u = n_unit.sdot(r_unit);
        let sin_u = n_unit.scross(r_unit).sdot(h_unit);
        snorm_angle(satan2(sin_u, cos_u))
    } else {
        snorm_angle(satan2(r.y as int, r.x as int))
    };
    OrbitalElements {
        semi_major_axis: a as i64,
        eccentricity: e as i64,
        inclination: i as i64,
        raan: raan as i64,
        arg_periapsis: arg_periapsis as i64,
        true_anomaly: true_anomaly as i64,
    }
}

/// What `set_thrust_eci` stores: the commanded vector, scaled down
/// uniformly onto the actuator limit when its magnitude exceeds it.
pub open spec fn sclamp_thrust(t: Vec3, limit: int) -> Vec3 {
    let mag = t.smag();
    if mag > limit {
        t.sscale(sdiv(limit, mag))
    } else {
        t
    }
}

/// What `new` builds: elements from degrees, the initial state from the
/// forward transform, zero control, zero clock, J2 enabled.
pub open spec fn ssatellite_new(
    semi_major_axis: int,
    eccentricity: int,
    inclination: int,
    raan: int,
    arg_periapsis: int,
    true_anomaly: int,
    mass: int,
    isp: int,
    thrust_limit_n: int,
) -> Satellite {
    let elements = OrbitalElements::snew(
        semi_major_axis,
        eccentricity,
        inclination,
        raan,
        arg_periapsis,
        true_anomaly,
    );
    let rv = sel_to_sv(elements);
    Satellite {
        elements: elements,
        state: State { r: rv.0, v: rv.1, m: mass as i64 },
        control: Control { thrust_eci: Vec3 { x: 0i64, y: 0i64, z: 0i64 }, isp: isp as i64 },
        time: 0i64,
        thrust_limit_n: thrust_limit_n as i64,
        j2_on: true,
    }
}

impl Satellite {
    /// Build a satellite from six orbital elements (angles in degrees),
    /// mass (kg), specific impulse (s) and actuator thrust limit (N).
    pub fn new(
        semi_major_axis: i64,
        eccentricity: i64,
        inclination: i64,
        raan: i64,
        arg_periapsis: i64,
        true_anomaly: i64,
        mass: i64,
        isp: i64,
        thrust_limit_n: i64,
    ) -> (r: Satellite)
        ensures
            r == ssatellite_new(
                semi_major_axis as int,
                eccentricity as int,
                inclination as int,
                raan as int,
                arg_periapsis as int,
                true_anomaly as int,
                mass as int,
                isp as int,
                thrust_limit_n as int,
            ),
    {
        let elements = OrbitalElements::new(
            semi_major_axis,
            eccentricity,
            inclination,
            raan,
            arg_periapsis,
            true_anomaly,
        );
        let (position, velocity) = Self::elements_to_state_vectors(&elements);
        Satellite {
            elements,
            state: State { r: position, v: velocity, m: mass },
            control: Control { thrust_eci: Vec3::zero(), isp },
            time: 0,
            thrust_limit_n,
            j2_on: true,
        }
    }

    /// The forward transform (elements to position and velocity).
    fn elements_to_state_vectors(elements: &OrbitalElements) -> (rv: (Vec3, Vec3))
        ensures
            rv == sel_to_sv(*elements),
    {
        let a = elements.semi_major_axis;
        let e = elements.eccentricity;
        let cnu = cos_fixed(elements.true_anomaly);
        let snu = sin_fixed(elements.true_anomaly);
        let rr = fx_div(
            fx_mul(a, fx_sub(SCALE, fx_mul(e, e))),
            fx_add(SCALE, fx_mul(e, cnu)),
        );
        let x_orb = fx_mul(rr, cnu);
        let y_orb = fx_mul(rr, snu);
        let h = fx_mul(fx_sqrt(EARTH_MU), fx_sqrt(fx_mul(a, fx_sub(SCALE, fx_mul(e, e)))));
        let vx_orb = fx_mul(fx_neg(fx_div(EARTH_MU, h)), snu);
        let vy_orb = fx_mul(fx_div(EARTH_MU, h), fx_add(e, cnu));
        let co = cos_fixed(elements.raan);
        let so = sin_fixed(elements.raan);
        let ci = cos_fixed(elements.inclination);
        let si = sin_fixed(elements.inclination);
        let cw = cos_fixed(elements.arg_periapsis);
        let sw = sin_fixed(elements.arg_periapsis);
        let r11 = fx_sub(fx_mul(co, cw), fx_mul(fx_mul(so, sw), ci));
        let r12 = fx_sub(fx_neg(fx_mul(co, sw)), fx_mul(fx_mul(so, cw), ci));
        let r21 = fx_add(fx_mul(so, cw), fx_mul(fx_mul(co, sw), ci));
        let r22 = fx_add(fx_neg(fx_mul(so, sw)), fx_mul(fx_mul(co, cw), ci));
        let r31 = fx_mul(sw, si);
        let r32 = fx_mul(cw, si);
        let pos = Vec3 {
            x: fx_add(fx_mul(r11, x_orb), fx_mul(r12, y_orb)),
            y: fx_add(fx_mul(r21, x_orb), fx_mul(r22, y_orb)),
            z: fx_add(fx_mul(r31, x_orb), fx_mul(r32, y_orb)),
        };
        let vel = Vec3 {
            x: fx_add(fx_mul(r11, vx_orb), fx_mul(r12, vy_orb)),
            y: fx_add(fx_mul(r21, vx_orb), fx_mul(r22, vy_orb)),
            z: fx_add(fx_mul(r31, vx_orb), fx_mul(r32, vy_orb)),
        };
        (pos, vel)
    }

    /// The inverse transform (position and velocity to elements).  It is
    /// total, and every angle comes back in its mathematical range, so
    /// repeated propagation of any orbit — circular, equatorial or both —
    /// keeps producing well-formed elements.
    pub fn state_vectors_to_elements(r: Vec3, v: Vec3) -> (el: OrbitalElements)
        ensures
            el == ssv_to_el(r, v),
            0 <= el.inclination <= crate::utils::PI_FX,
            0 <= el.raan < TWO_PI_FX,
            0 <= el.arg_periapsis < TWO_PI_FX,
            0 <= el.true_anomaly < TWO_PI_FX,
    {
        let r_norm = r.magnitude();
        let v_norm2 = v.dot(v);
        let h_vec = r.cross(v);
        let h_norm = h_vec.magnitude();
        let h_unit = h_vec.div_by(h_norm);
        let i = acos_fixed(fx_div(h_vec.z, h_norm));
        let n_vec = Vec3 { x: fx_neg(h_vec.y), y: h_vec.x, z: 0 };
        let n_norm = n_vec.magnitude();
        let e_vec = v.cross(h_vec).div_by(EARTH_MU).minus(r.div_by(r_norm));
        let e = e_vec.magnitude();
        let a = fx_div(SCALE, fx_sub(fx_div(TWO_FX, r_norm), fx_div(v_norm2, EARTH_MU)));
        let raan = if n_norm > EPS_FX {
            normalize_angle(atan2_fixed(n_vec.y, n_vec.x))
        } else {
            0
        };
        let arg_periapsis = if e > EPS_FX && n_norm > EPS_FX {
            let n_unit = n_vec.div_by(n_norm);
            let e_unit = e_vec.div_by(e);
            let cos_w = n_unit.dot(e_unit);
            let sin_w = n_unit.cross(e_unit).dot(h_unit);
            normalize_angle(atan2_fixed(sin_w, cos_w))
        } else if e > EPS_FX {
            normalize_angle(atan2_fixed(e_vec.y, e_vec.x))
        } else {
            0
        };
        let true_anomaly = if e > EPS_FX {
            let cos_nu = clamp(fx_div(e_vec.dot(r), fx_mul(e, r_norm)), -SCALE, SCALE);
            let nu = acos_fixed(cos_nu);
            let nu_q = if r.dot(v) < 0 {
                fx_sub(TWO_PI_FX, nu)
            } else {
                nu
            };
            normalize_angle(nu_q)
        } else if n_norm > EPS_FX {
            let n_unit = n_vec.div_by(n_norm);
            let r_unit = r.div_by(r_norm);
            let cos_u = n_unit.dot(r_unit);
            let sin_u = n_unit.cross(r_unit).dot(h_unit);
            normalize_angle(atan2_fixed(sin_u, cos_u))
        } else {
            normalize_angle(atan2_fixed(r.y, r.x))
        };
        OrbitalElements {
            semi_major_axis: a,
            eccentricity: e,
            inclination: i,
            raan,
            arg_periapsis,
            true_anomaly,
        }
    }

    /// Command a thrust vector (N, inertial frame).  A vector over the
    /// actuator limit is scaled down onto it; one within passes through
    /// unchanged.
    pub fn set_thrust_eci(&mut self, thrust_n_eci: Vec3)
        ensures
            final(self).control.thrust_eci == sclamp_thrust(
                thrust_n_eci,
                old(self).thrust_limit_n as int,
            ),
            final(self).control.isp == old(self).control.isp,
            final(self).elements == old(self).elements,
            final(self).state == old(self).state,
            final(self).time == old(self).time,
            final(self).thrust_limit_n == old(self).thrust_limit_n,
            final(self).j2_on == old(self).j2_on,
    {
        let mag = thrust_n_eci.magnitude();
        self.control.thrust_eci = if mag > self.thrust_limit_n {
            thrust_n_eci.scale(fx_div(self.thrust_limit_n, mag))
        } else {
            thrust_n_eci
        };
    }

    /// Advance the simulation by `dt` seconds: one Runge-Kutta step of
    /// the point-mass model with the current control, the clock moved
    /// forward, and the elements recomputed from the new state.
    pub fn update(&mut self, dt: i64)
        ensures
            final(self).state == srk4_step(
                PointMassEom { j2_on: old(self).j2_on },
                old(self).state,
                old(self).control,
                dt as int,
            ),
            final(self).time == sadd(old(self).time as int, dt as int),
            final(self).elements == ssv_to_el(final(self).state.r, final(self).state.v),
            0 <= final(self).elements.inclination <= crate::utils::PI_FX,
            0 <= final(self).elements.raan < TWO_PI_FX,
            0 <= final(self).elements.arg_periapsis < TWO_PI_FX,
            0 <= final(self).elements.true_anomaly < TWO_PI_FX,
            final(self).control == old(self).control,
            final(self).thrust_limit_n == old(self).thrust_limit_n,
            final(self).j2_on == old(self).j2_on,
    {
        let model = PointMassEom { j2_on: self.j2_on };
        self.state = rk4_step(&model, self.time, &self.state, &self.control, dt);
        self.time = fx_add(self.time, dt);
        self.elements = Self::state_vectors_to_elements(self.state.r, self.state.v);
    }

    /// What `get_orbital_period` computes: `2*pi*sqrt(a^3/mu)`, staged
    /// as `2*pi*a*sqrt(a/mu)` to stay inside the representation.
    pub open spec fn speriod(a: int) -> int {
        smul(TWO_PI_FX as int, smul(a, ssqrt(sdiv(a, EARTH_MU as int))))
    }

    /// Orbital period in seconds.
    pub fn get_orbital_period(&self) -> (p: i64)
        ensures
            p == Self::speriod(self.elements.semi_major_axis as int),
    {
        let a = self.elements.semi_major_axis;
        fx_mul(TWO_PI_FX, fx_mul(a, fx_sqrt(fx_div(a, EARTH_MU))))
    }

    /// Current velocity magnitude in km/s.
    pub fn get_velocity(&self) -> (s: i64)
        ensures
            s == self.state.v.smag(),
    {
        self.state.v.magnitude()
    }

    /// Apoapsis altitude in km: `a * (1 + e) - Earth radius`.
    pub fn get_apoapsis(&self) -> (alt: i64)
        ensures
            alt == ssub(
                smul(
                    self.elements.semi_major_axis as int,
                    sadd(SCALE as int, self.elements.eccentricity as int),
                ),
                EARTH_RADIUS as int,
            ),
    {
        fx_sub(
            fx_mul(self.elements.semi_major_axis, fx_add(SCALE, self.elements.eccentricity)),
            EARTH_RADIUS,
        )
    }

    /// Periapsis altitude in km: `a * (1 - e) - Earth radius`.
    pub fn get_periapsis(&self) -> (alt: i64)
        ensures
            alt == ssub(
                smul(
                    self.elements.semi_major_axis as int,
                    ssub(SCALE as int, self.elements.eccentricity as int),
                ),
                EARTH_RADIUS as int,
            ),
    {
        fx_sub(
            fx_mul(self.elements.semi_major_axis, fx_sub(SCALE, self.elements.eccentricity)),
            EARTH_RADIUS,
        )
    }
}

} // verus!
