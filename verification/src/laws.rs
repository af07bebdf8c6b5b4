//! Laws of the library, stated once and proved from the contracts of
//! the modules they relate.

use vstd::prelude::*;
use crate::fixed::{SCALE, TWO_FX, SIX_FX, HALF_FX, sabs, sadd, smul, sdiv, tdiv, isqrt,
    lemma_tdiv_exact, lemma_sdiv_unit, lemma_smul_attenuates, lemma_smul_scaled_abs,
    lemma_isqrt_bounds};
use vstd::arithmetic::div_mod::{lemma_div_pos_is_pos, lemma_multiply_divide_lt,
    lemma_fundamental_div_mod};
use crate::utils::Vec3;
use crate::gnc::{State, Control, PointMassEom, EquationsOfMotion, smdot, snudge, srk4_blend,
    srk4_step};
use crate::orbital::sclamp_thrust;

verus! {

/// Monotonic mass depletion: under a constant control whose thrust and
/// specific impulse make the propellant flow strictly negative, one
/// Runge-Kutta step strictly decreases the mass — for any state, any
/// force model setting, and any step size large enough that the
/// decrement does not truncate to zero (the quantified `tdiv` premise;
/// it holds for every ordinary thrust level and step).
#[verifier::rlimit(60)]
pub proof fn lemma_mass_strictly_decreases(x: State, u: Control, dt: int, j2_on: bool)
    requires
        u.isp > 0,
        -1_000_000_000_000_000_000 <= smdot(u.thrust_eci.smag(), u.isp as int) < 0,
        tdiv(
            6 * smdot(u.thrust_eci.smag(), u.isp as int) * sdiv(dt, SIX_FX as int),
            SCALE as int,
        ) <= -1,
        x.m > i64::MIN,
    ensures
        srk4_step(PointMassEom { j2_on }, x, u, dt).m < x.m,
{
    let md = smdot(u.thrust_eci.smag(), u.isp as int);
    let model = PointMassEom { j2_on };
    let hdt = smul(dt, HALF_FX as int);
    let k1 = model.sderiv(x, u);
    let k2 = model.sderiv(snudge(x, k1, hdt), u);
    let k3 = model.sderiv(snudge(x, k2, hdt), u);
    let k4 = model.sderiv(snudge(x, k3, dt), u);
    assert(k1.m == md as i64 && k2.m == md as i64 && k3.m == md as i64 && k4.m == md as i64);
    assert(md as i64 as int == md);
    assert(md * TWO_FX == (2 * md) * SCALE);
    lemma_tdiv_exact(2 * md, SCALE as int);
    assert(smul(md, TWO_FX as int) == 2 * md);
    let blend = srk4_blend(k1, k2, k3, k4);
    assert(blend.m as int == 6 * md);
    let dt6 = sdiv(dt, SIX_FX as int);
    let dm = smul(6 * md, dt6);
    assert(dm <= -1);
    assert(srk4_step(model, x, u, dt).m == sadd(x.m as int, dm) as i64);
    assert(sadd(x.m as int, dm) < x.m);
}

/// Without commanded thrust there is no propellant flow: a Runge-Kutta
/// step keeps the mass exactly, whatever the state, the step size, the
/// specific impulse and the force model setting.
#[verifier::rlimit(60)]
pub proof fn lemma_coasting_preserves_mass(x: State, u: Control, dt: int, j2_on: bool)
    requires
        u.thrust_eci == (Vec3 { x: 0i64, y: 0i64, z: 0i64 }),
    ensures
        srk4_step(PointMassEom { j2_on }, x, u, dt).m == x.m,
{
    let model = PointMassEom { j2_on };
    let hdt = smul(dt, HALF_FX as int);
    let k1 = model.sderiv(x, u);
    let k2 = model.sderiv(snudge(x, k1, hdt), u);
    let k3 = model.sderiv(snudge(x, k2, hdt), u);
    let k4 = model.sderiv(snudge(x, k3, dt), u);
    assert(u.thrust_eci.smag() == 0);
    assert(smdot(0, u.isp as int) == 0);
    assert(k1.m == 0 && k2.m == 0 && k3.m == 0 && k4.m == 0);
    let blend = srk4_blend(k1, k2, k3, k4);
    assert(blend.m == 0);
    assert(smul(0, sdiv(dt, SIX_FX as int)) == 0);
    assert(srk4_step(model, x, u, dt).m == sadd(x.m as int, 0) as i64);
}

/// One value lies on the segment from zero to another: scaled toward
/// zero, never flipped, never amplified.
pub open spec fn scaled_toward_zero(c: int, o: int) -> bool {
    if o >= 0 {
        0 <= c <= o
    } else {
        o <= c <= 0
    }
}

/// Thrust clamping: a command within the actuator limit is stored
/// unchanged; one beyond it is scaled uniformly by the unit factor
/// `limit / |command|`, so no component flips sign or grows.
pub proof fn lemma_thrust_clamp(t: Vec3, limit: int)
    requires
        0 <= limit,
    ensures
        t.smag() <= limit ==> sclamp_thrust(t, limit) == t,
        t.smag() > limit ==> {
            let q = sdiv(limit, t.smag());
            &&& sclamp_thrust(t, limit) == t.sscale(q)
            &&& 0 <= q <= SCALE
            &&& scaled_toward_zero(sclamp_thrust(t, limit).x as int, t.x as int)
            &&& scaled_toward_zero(sclamp_thrust(t, limit).y as int, t.y as int)
            &&& scaled_toward_zero(sclamp_thrust(t, limit).z as int, t.z as int)
        },
{
    if t.smag() > limit {
        let mag = t.smag();
        lemma_sdiv_unit(limit, mag);
        let q = sdiv(limit, mag);
        lemma_smul_attenuates(t.x as int, q);
        lemma_smul_attenuates(t.y as int, q);
        lemma_smul_attenuates(t.z as int, q);
    }
}

/// Squaring keeps the order of non-negative values.
proof fn lemma_sq_le(a: int, b: int)
    requires
        0 <= a <= b,
    ensures
        a * a <= b * b,
{
    assert(a * a <= b * b) by (nonlinear_arith)
        requires
            0 <= a <= b,
    {
    }
}

/// One clamped component, squared and scaled: under the command's.
proof fn lemma_scaled_component_sq(sv: int, tv: int, q: int)
    requires
        sabs(sv) * SCALE <= sabs(tv) * q,
        q >= 0,
    ensures
        (sv * sv) * (SCALE * SCALE) <= (tv * tv) * (q * q),
{
    let a = sabs(sv) * SCALE;
    let b = sabs(tv) * q;
    assert(a >= 0) by (nonlinear_arith)
        requires
            a == sabs(sv) * SCALE && sabs(sv) >= 0 && SCALE > 0,
    {
    }
    lemma_sq_le(a, b);
    assert(a * a == (sv * sv) * (SCALE * SCALE)) by (nonlinear_arith)
        requires
            a == sabs(sv) * SCALE,
    {
    }
    assert(b * b == (tv * tv) * (q * q)) by (nonlinear_arith)
        requires
            b == sabs(tv) * q,
    {
    }
}

/// Scaling by the zero factor yields zero.
proof fn lemma_scaled_zero(tv: int)
    ensures
        smul(tv, 0) == 0,
{
    assert(tv * 0 == 0) by (nonlinear_arith);
}

/// Thrust clamping never exceeds the actuator: whatever the command,
/// the stored vector's magnitude is at most the limit — the floor root
/// and the truncations all round the magnitude down.  (The premise only
/// rules a command out whose exact magnitude itself overflows the
/// representation.)
#[verifier::rlimit(100)]
pub proof fn lemma_thrust_clamp_magnitude(t: Vec3, limit: int)
    requires
        0 <= limit <= i64::MAX,
        isqrt((t.x * t.x + t.y * t.y + t.z * t.z) as nat) <= i64::MAX,
    ensures
        sclamp_thrust(t, limit).smag() <= limit,
{
    let dd = t.x * t.x + t.y * t.y + t.z * t.z;
    assert(t.x * t.x >= 0 && t.y * t.y >= 0 && t.z * t.z >= 0) by (nonlinear_arith);
    let mag = t.smag();
    assert(mag == isqrt(dd as nat));
    if mag > limit {
        lemma_isqrt_bounds(dd as nat);
        let s = sclamp_thrust(t, limit);
        assert(s == t.sscale(sdiv(limit, mag)));
        let q = sdiv(limit, mag);
        assert(q >= 0 && q < SCALE) by {
            if limit == 0 {
                assert(limit * SCALE == 0);
            } else {
                assert(limit * SCALE > 0 && limit * SCALE < mag * SCALE) by (nonlinear_arith)
                    requires
                        0 < limit < mag && SCALE > 0,
                {
                }
                lemma_div_pos_is_pos(limit * SCALE, mag);
                lemma_multiply_divide_lt(limit * SCALE, mag, SCALE as int);
            }
        }
        if q == 0 {
            lemma_scaled_zero(t.x as int);
            lemma_scaled_zero(t.y as int);
            lemma_scaled_zero(t.z as int);
            assert(s.x == 0 && s.y == 0 && s.z == 0);
            assert(s.x * s.x + s.y * s.y + s.z * s.z == 0) by (nonlinear_arith)
                requires
                    s.x == 0 && s.y == 0 && s.z == 0,
            {
            }
            assert(isqrt(0) == 0);
        } else {
            // q * mag <= limit * SCALE, by the division identity
            lemma_fundamental_div_mod(limit * SCALE, mag);
            assert((limit * SCALE) % mag >= 0);
            assert(mag * q <= limit * SCALE);
            // each stored component, squared and scaled, under the command's
            lemma_smul_scaled_abs(t.x as int, q);
            lemma_smul_scaled_abs(t.y as int, q);
            lemma_smul_scaled_abs(t.z as int, q);
            lemma_scaled_component_sq(s.x as int, t.x as int, q);
            lemma_scaled_component_sq(s.y as int, t.y as int, q);
            lemma_scaled_component_sq(s.z as int, t.z as int, q);
            let ds = s.x * s.x + s.y * s.y + s.z * s.z;
            assert(ds * (SCALE * SCALE) <= dd * (q * q)) by (nonlinear_arith)
                requires
                    (s.x * s.x) * (SCALE * SCALE) <= (t.x * t.x) * (q * q),
                    (s.y * s.y) * (SCALE * SCALE) <= (t.y * t.y) * (q * q),
                    (s.z * s.z) * (SCALE * SCALE) <= (t.z * t.z) * (q * q),
                    ds == s.x * s.x + s.y * s.y + s.z * s.z,
                    dd == t.x * t.x + t.y * t.y + t.z * t.z,
            {
            }
            // chain: dd < (mag+1)^2 and q*(mag+1) < SCALE*(limit+1)
            let c = q * (mag + 1);
            assert(c < SCALE * (limit + 1) && c >= 0) by (nonlinear_arith)
                requires
                    c == q * (mag + 1),
                    mag * q <= limit * SCALE,
                    0 <= q < SCALE,
                    0 <= mag,
            {
            }
            assert(dd * (q * q) < c * c) by (nonlinear_arith)
                requires
                    c == q * (mag + 1),
                    dd < (mag + 1) * (mag + 1),
                    q > 0,
                    dd >= 0,
            {
            }
            lemma_sq_le(c, SCALE * (limit + 1));
            assert((SCALE * (limit + 1)) * (SCALE * (limit + 1)) == ((limit + 1) * (limit + 1))
                * (SCALE * SCALE)) by (nonlinear_arith);
            assert(ds < (limit + 1) * (limit + 1)) by (nonlinear_arith)
                requires
                    ds * (SCALE * SCALE) < ((limit + 1) * (limit + 1)) * (SCALE * SCALE),
                    SCALE > 0,
            {
            }
            assert(ds >= 0) by (nonlinear_arith)
                requires
                    ds == s.x * s.x + s.y * s.y + s.z * s.z,
            {
            }
            lemma_isqrt_bounds(ds as nat);
            assert(isqrt(ds as nat) <= limit) by (nonlinear_arith)
                requires
                    isqrt(ds as nat) * isqrt(ds as nat) <= ds as int,
                    (ds as int) < (limit + 1) * (limit + 1),
                    0 <= limit,
                    ds >= 0,
            {
            }
        }
    }
}

} // verus!
