//! Fixed-point trigonometry: sine, cosine, two-argument arctangent and
//! arccosine.
//!
//! Each function reduces its argument into a small bracket and evaluates
//! a truncated power series there.  The final value is clamped into the
//! mathematical range of the function, so every function is total and
//! its range facts need no analytic argument.

use vstd::prelude::*;
use crate::fixed::{SCALE, sadd, ssub, smul, sdiv, ssqrt, tdiv, sat64, fx_add, fx_sub, fx_mul,
    fx_div, fx_sqrt, fx_neg, int_div};
use crate::utils::{PI_FX, TWO_PI_FX, HALF_PI_FX, snorm_angle, sclamp, normalize_angle, clamp};

verus! {

/// What `sin_poly` computes: the Taylor series of the sine through the
/// eleventh power, in nested form, clamped into `[-1, 1]`.
pub open spec fn ssin_poly(x: int) -> int {
    let x2 = smul(x, x);
    let a5 = ssub(SCALE as int, tdiv(x2, 110));
    let a4 = ssub(SCALE as int, smul(tdiv(x2, 72), a5));
    let a3 = ssub(SCALE as int, smul(tdiv(x2, 42), a4));
    let a2 = ssub(SCALE as int, smul(tdiv(x2, 20), a3));
    let a1 = ssub(SCALE as int, smul(tdiv(x2, 6), a2));
    sclamp(smul(x, a1), -(SCALE as int), SCALE as int)
}

/// What `sin_fixed` computes on `[0, pi]`: the angle folded onto
/// `[0, pi/2]` by the sine's symmetry, then the series.
pub open spec fn ssin_half(b: int) -> int {
    let f = if 2 * b > PI_FX {
        PI_FX - b
    } else {
        b
    };
    ssin_poly(f)
}

/// What `sin_fixed` computes: the angle normalized into `[0, 2*pi)`,
/// the second half turn mapped onto the first with a sign flip.
pub open spec fn ssin(x: int) -> int {
    let a = snorm_angle(x);
    if a < PI_FX {
        ssin_half(a)
    } else {
        -ssin_half(a - PI_FX)
    }
}

/// What `cos_fixed` computes: the sine a quarter turn ahead.
pub open spec fn scos(x: int) -> int {
    ssin(sadd(x, HALF_PI_FX as int))
}

fn sin_poly(x: i64) -> (r: i64)
    requires
        0 <= x <= PI_FX,
    ensures
        r == ssin_poly(x as int),
        -SCALE <= r <= SCALE,
{
    let x2 = fx_mul(x, x);
    let a5 = fx_sub(SCALE, int_div(x2, 110));
    let a4 = fx_sub(SCALE, fx_mul(int_div(x2, 72), a5));
    let a3 = fx_sub(SCALE, fx_mul(int_div(x2, 42), a4));
    let a2 = fx_sub(SCALE, fx_mul(int_div(x2, 20), a3));
    let a1 = fx_sub(SCALE, fx_mul(int_div(x2, 6), a2));
    clamp(fx_mul(x, a1), -SCALE, SCALE)
}

fn sin_half(b: i64) -> (r: i64)
    requires
        0 <= b <= PI_FX,
    ensures
        r == ssin_half(b as int),
        -SCALE <= r <= SCALE,
{
    let f = if 2 * b > PI_FX {
        PI_FX - b
    } else {
        b
    };
    sin_poly(f)
}

/// Sine of a fixed-point angle in radians.
pub fn sin_fixed(x: i64) -> (r: i64)
    ensures
        r == ssin(x as int),
        -SCALE <= r <= SCALE,
{
    let a = normalize_angle(x);
    if a < PI_FX {
        sin_half(a)
    } else {
        let v = sin_half(a - PI_FX);
        -v
    }
}

/// Cosine of a fixed-point angle in radians.
pub fn cos_fixed(x: i64) -> (r: i64)
    ensures
        r == scos(x as int),
        -SCALE <= r <= SCALE,
{
    sin_fixed(fx_add(x, HALF_PI_FX))
}

/// One halving step of the arctangent argument:
/// `atan(t) == 2 * atan(t / (1 + sqrt(1 + t^2)))`.
pub open spec fn satan_half(t: int) -> int {
    sdiv(t, sadd(SCALE as int, ssqrt(sadd(SCALE as int, smul(t, t)))))
}

fn atan_half(t: i64) -> (r: i64)
    ensures
        r == satan_half(t as int),
{
    fx_div(t, fx_add(SCALE, fx_sqrt(fx_add(SCALE, fx_mul(t, t)))))
}

/// What `atan01` computes: two halvings of the argument, the Taylor
/// series of the arctangent through the seventh power, the doublings
/// undone, and the result clamped into `[0, pi/2]`.
pub open spec fn satan01(t: int) -> int {
    let t2 = satan_half(satan_half(t));
    let w = smul(t2, t2);
    let t3 = smul(w, t2);
    let t5 = smul(w, t3);
    let t7 = smul(w, t5);
    let p = ssub(sadd(ssub(t2, tdiv(t3, 3)), tdiv(t5, 5)), tdiv(t7, 7));
    sclamp(sadd(sadd(p, p), sadd(p, p)), 0, HALF_PI_FX as int)
}

/// Arctangent of a ratio in `[0, 1]` (values outside are clamped into
/// `[0, pi/2]` all the same).
fn atan01(t: i64) -> (r: i64)
    ensures
        r == satan01(t as int),
        0 <= r <= HALF_PI_FX,
{
    let t2 = atan_half(atan_half(t));
    let w = fx_mul(t2, t2);
    let t3 = fx_mul(w, t2);
    let t5 = fx_mul(w, t3);
    let t7 = fx_mul(w, t5);
    let p = fx_sub(fx_add(fx_sub(t2, int_div(t3, 3)), int_div(t5, 5)), int_div(t7, 7));
    clamp(fx_add(fx_add(p, p), fx_add(p, p)), 0, HALF_PI_FX)
}

/// What `atan2_fixed` computes: the first-octant arctangent of the
/// absolute ratio, reflected into the quadrant of `(y, x)`.
pub open spec fn satan2(y: int, x: int) -> int {
    if y == 0 && x == 0 {
        0
    } else {
        let ax = if x < 0 {
            sat64(-x)
        } else {
            x
        };
        let ay = if y < 0 {
            sat64(-y)
        } else {
            y
        };
        let phi = if ay <= ax {
            satan01(sdiv(ay, ax))
        } else {
            ssub(HALF_PI_FX as int, satan01(sdiv(ax, ay)))
        };
        if x >= 0 && y >= 0 {
            phi
        } else if x < 0 && y >= 0 {
            ssub(PI_FX as int, phi)
        } else if x < 0 {
            ssub(phi, PI_FX as int)
        } else {
            -phi
        }
    }
}

/// Two-argument arctangent: the angle of the point `(x, y)`, in
/// `[-pi, pi]`; zero at the origin.
pub fn atan2_fixed(y: i64, x: i64) -> (r: i64)
    ensures
        r == satan2(y as int, x as int),
        -PI_FX <= r <= PI_FX,
        y >= 0 ==> 0 <= r <= PI_FX,
{
    if y == 0 && x == 0 {
        return 0;
    }
    let ax = if x < 0 {
        fx_neg(x)
    } else {
        x
    };
    let ay = if y < 0 {
        fx_neg(y)
    } else {
        y
    };
    let phi = if ay <= ax {
        atan01(fx_div(ay, ax))
    } else {
        fx_sub(HALF_PI_FX, atan01(fx_div(ax, ay)))
    };
    if x >= 0 && y >= 0 {
        phi
    } else if x < 0 && y >= 0 {
        fx_sub(PI_FX, phi)
    } else if x < 0 {
        fx_sub(phi, PI_FX)
    } else {
        fx_neg(phi)
    }
}

/// What `acos_fixed` computes: the argument clamped into `[-1, 1]`
/// (absorbing any overshoot), then `atan2(sqrt(1 - c^2), c)`.
pub open spec fn sacos(c: int) -> int {
    let cc = sclamp(c, -(SCALE as int), SCALE as int);
    satan2(ssqrt(ssub(SCALE as int, smul(cc, cc))), cc)
}

/// Arccosine of a fixed-point cosine value, in `[0, pi]`; the argument
/// is clamped into `[-1, 1]` first.
pub fn acos_fixed(c: i64) -> (r: i64)
    ensures
        r == sacos(c as int),
        0 <= r <= PI_FX,
{
    let cc = clamp(c, -SCALE, SCALE);
    atan2_fixed(fx_sqrt(fx_sub(SCALE, fx_mul(cc, cc))), cc)
}

} // verus!
