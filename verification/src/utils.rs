//! Physical constants, angle and scalar utilities, and 3-vector algebra.
//!
//! All quantities are fixed-point reals (see [`crate::fixed`]): an `i64`
//! holds the value times [`SCALE`].

use vstd::prelude::*;
use crate::fixed::{
    sat64, sadd, ssub, smul, sdiv, isqrt, isqrt_u128, tmod, fx_add, fx_sub, fx_mul, fx_div,
};

verus! {

/// Earth's gravitational parameter, km^3/s^2 (398600.4418).
pub const EARTH_MU: i64 = 398_600_441_800_000;

/// Earth's mean radius, km (6371).
pub const EARTH_RADIUS: i64 = 6_371_000_000_000;

/// The circle constant pi.
pub const PI_FX: i64 = 3_141_592_653;

/// Two pi, kept exactly twice [`PI_FX`] so that angle folding is exact.
pub const TWO_PI_FX: i64 = 6_283_185_306;

/// Half pi.
pub const HALF_PI_FX: i64 = 1_570_796_327;

/// The scalar 180, for degree/radian conversion.
pub const DEG_180: i64 = 180_000_000_000;

/// What `deg_to_rad` computes: `degrees * pi / 180`.
pub open spec fn sdeg_to_rad(d: int) -> int {
    sdiv(smul(d, PI_FX as int), DEG_180 as int)
}

/// Convert degrees to radians.
pub fn deg_to_rad(degrees: i64) -> (r: i64)
    ensures
        r == sdeg_to_rad(degrees as int),
{
    fx_div(fx_mul(degrees, PI_FX), DEG_180)
}

/// What `rad_to_deg` computes: `radians * 180 / pi`.
pub open spec fn srad_to_deg(r: int) -> int {
    sdiv(smul(r, DEG_180 as int), PI_FX as int)
}

/// Convert radians to degrees.
pub fn rad_to_deg(radians: i64) -> (r: i64)
    ensures
        r == srad_to_deg(radians as int),
{
    fx_div(fx_mul(radians, DEG_180), PI_FX)
}

/// What `clamp` computes: `v` pulled into `[lo, hi]`, the lower bound
/// winning when the bounds cross.
pub open spec fn sclamp(v: int, lo: int, hi: int) -> int {
    if v < lo {
        lo
    } else if v > hi {
        hi
    } else {
        v
    }
}

/// Clamp a value between min and max.
pub fn clamp(value: i64, min: i64, max: i64) -> (r: i64)
    ensures
        r == sclamp(value as int, min as int, max as int),
{
    if value < min {
        min
    } else if value > max {
        max
    } else {
        value
    }
}

/// What `normalize_angle` computes: the angle shifted into `[0, 2*pi)`
/// by whole turns.
pub open spec fn snorm_angle(a: int) -> int {
    let m = tmod(a, TWO_PI_FX as int);
    if m < 0 {
        m + TWO_PI_FX
    } else {
        m
    }
}

/// Normalize an angle into `[0, 2*pi)`.
pub fn normalize_angle(ang: i64) -> (r: i64)
    ensures
        r == snorm_angle(ang as int),
        0 <= r < TWO_PI_FX,
{
    let m = match ang.checked_rem(TWO_PI_FX) {
        Some(m) => m,
        None => 0,
    };
    if m < 0 {
        m + TWO_PI_FX
    } else {
        m
    }
}

/// A square of an `i64` is non-negative and fits comfortably in `i128`.
proof fn lemma_i64_square_range(a: int)
    requires
        i64::MIN <= a <= i64::MAX,
    ensures
        0 <= a * a <= 0x4000_0000_0000_0000_0000_0000_0000_0000,
{
    assert(0 <= a * a <= 0x4000_0000_0000_0000_0000_0000_0000_0000int) by (nonlinear_arith)
        requires
            i64::MIN <= a <= i64::MAX,
    {
    }
}

/// A 3-component fixed-point vector.
#[derive(Clone, Copy, Debug, PartialEq, Eq, Structural)]
pub struct Vec3 {
    pub x: i64,
    pub y: i64,
    pub z: i64,
}

impl Vec3 {
    /// Componentwise sum.
    pub open spec fn splus(self, o: Vec3) -> Vec3 {
        Vec3 {
            x: sadd(self.x as int, o.x as int) as i64,
            y: sadd(self.y as int, o.y as int) as i64,
            z: sadd(self.z as int, o.z as int) as i64,
        }
    }

    /// Componentwise difference.
    pub open spec fn sminus(self, o: Vec3) -> Vec3 {
        Vec3 {
            x: ssub(self.x as int, o.x as int) as i64,
            y: ssub(self.y as int, o.y as int) as i64,
            z: ssub(self.z as int, o.z as int) as i64,
        }
    }

    /// Componentwise scaling.
    pub open spec fn sscale(self, s: int) -> Vec3 {
        Vec3 {
            x: smul(self.x as int, s) as i64,
            y: smul(self.y as int, s) as i64,
            z: smul(self.z as int, s) as i64,
        }
    }

    /// Componentwise division by a scalar.
    pub open spec fn sdiv_by(self, s: int) -> Vec3 {
        Vec3 {
            x: sdiv(self.x as int, s) as i64,
            y: sdiv(self.y as int, s) as i64,
            z: sdiv(self.z as int, s) as i64,
        }
    }

    /// Dot product.
    pub open spec fn sdot(self, o: Vec3) -> int {
        sadd(
            sadd(smul(self.x as int, o.x as int), smul(self.y as int, o.y as int)),
            smul(self.z as int, o.z as int),
        )
    }

    /// Euclidean norm: the floor root of the exact sum of squares
    /// (computed wide, so no intermediate saturates), saturated into
    /// the `i64` range.
    pub open spec fn smag(self) -> int {
        sat64(
            isqrt((self.x * self.x + self.y * self.y + self.z * self.z) as nat) as int,
        )
    }

    /// Cross product.
    pub open spec fn scross(self, o: Vec3) -> Vec3 {
        Vec3 {
            x: ssub(smul(self.y as int, o.z as int), smul(self.z as int, o.y as int)) as i64,
            y: ssub(smul(self.z as int, o.x as int), smul(self.x as int, o.z as int)) as i64,
            z: ssub(smul(self.x as int, o.y as int), smul(self.y as int, o.x as int)) as i64,
        }
    }

    /// Unit vector in this direction; the zero vector stays itself.
    pub open spec fn snormalize(self) -> Vec3 {
        let m = self.smag();
        if m == 0 {
            self
        } else {
            self.sdiv_by(m)
        }
    }

    pub fn new(x: i64, y: i64, z: i64) -> (r: Vec3)
        ensures
            r == (Vec3 { x, y, z }),
    {
        Vec3 { x, y, z }
    }

    /// The zero vector.
    pub fn zero() -> (r: Vec3)
        ensures
            r == (Vec3 { x: 0i64, y: 0i64, z: 0i64 }),
    {
        Vec3 { x: 0, y: 0, z: 0 }
    }

    pub fn dot(&self, other: Vec3) -> (r: i64)
        ensures
            r == self.sdot(other),
    {
        fx_add(
            fx_add(fx_mul(self.x, other.x), fx_mul(self.y, other.y)),
            fx_mul(self.z, other.z),
        )
    }

    pub fn magnitude(&self) -> (r: i64)
        ensures
            r == self.smag(),
            0 <= r,
    {
        proof {
            lemma_i64_square_range(self.x as int);
            lemma_i64_square_range(self.y as int);
            lemma_i64_square_range(self.z as int);
        }
        let xx: u128 = ((self.x as i128) * (self.x as i128)) as u128;
        let yy: u128 = ((self.y as i128) * (self.y as i128)) as u128;
        let zz: u128 = ((self.z as i128) * (self.z as i128)) as u128;
        let q = isqrt_u128(xx + yy + zz);
        if q > 0x7fff_ffff_ffff_ffff {
            i64::MAX
        } else {
            q as i64
        }
    }

    pub fn normalize(&self) -> (r: Vec3)
        ensures
            r == self.snormalize(),
    {
        let mag = self.magnitude();
        if mag == 0 {
            *self
        } else {
            self.div_by(mag)
        }
    }

    pub fn cross(&self, other: Vec3) -> (r: Vec3)
        ensures
            r == self.scross(other),
    {
        Vec3 {
            x: fx_sub(fx_mul(self.y, other.z), fx_mul(self.z, other.y)),
            y: fx_sub(fx_mul(self.z, other.x), fx_mul(self.x, other.z)),
            z: fx_sub(fx_mul(self.x, other.y), fx_mul(self.y, other.x)),
        }
    }

    /// Vector sum.
    pub fn plus(self, other: Vec3) -> (r: Vec3)
        ensures
            r == self.splus(other),
    {
        Vec3 {
            x: fx_add(self.x, other.x),
            y: fx_add(self.y, other.y),
            z: fx_add(self.z, other.z),
        }
    }

    /// Vector difference.
    pub fn minus(self, other: Vec3) -> (r: Vec3)
        ensures
            r == self.sminus(other),
    {
        Vec3 {
            x: fx_sub(self.x, other.x),
            y: fx_sub(self.y, other.y),
            z: fx_sub(self.z, other.z),
        }
    }

    /// Scale by a scalar.
    pub fn scale(self, scalar: i64) -> (r: Vec3)
        ensures
            r == self.sscale(scalar as int),
    {
        Vec3 {
            x: fx_mul(self.x, scalar),
            y: fx_mul(self.y, scalar),
            z: fx_mul(self.z, scalar),
        }
    }

    /// Divide by a scalar; a zero divisor yields the zero vector.
    pub fn div_by(self, scalar: i64) -> (r: Vec3)
        ensures
            r == self.sdiv_by(scalar as int),
    {
        Vec3 {
            x: fx_div(self.x, scalar),
            y: fx_div(self.y, scalar),
            z: fx_div(self.z, scalar),
        }
    }
}

} // verus!
