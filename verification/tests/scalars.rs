use orbitcrab::fixed::{SCALE, fx_add, fx_sub, fx_mul, fx_div, fx_neg, fx_sqrt, int_div};
use orbitcrab::utils::{PI_FX, TWO_PI_FX, HALF_PI_FX, clamp, deg_to_rad, rad_to_deg,
    normalize_angle, Vec3};
use orbitcrab::trig::{sin_fixed, cos_fixed, atan2_fixed, acos_fixed};

/// A real number as a fixed-point value.
fn fx(x: f64) -> i64 {
    (x * 1e9).round() as i64
}

/// A fixed-point value as a real number.
fn tof(x: i64) -> f64 {
    x as f64 / 1e9
}

#[test]
fn fixed_arithmetic_exact() {
    assert_eq!(fx_add(fx(1.5), fx(2.25)), fx(3.75));
    assert_eq!(fx_sub(fx(1.0), fx(2.5)), fx(-1.5));
    assert_eq!(fx_mul(fx(3.5), fx(2.0)), fx(7.0));
    assert_eq!(fx_mul(1, 1), 0);
    assert_eq!(fx_div(fx(1.0), fx(3.0)), 333_333_333);
    assert_eq!(fx_div(fx(5.0), 0), 0);
    assert_eq!(fx_neg(fx(4.0)), fx(-4.0));
    assert_eq!(int_div(fx(1.0), 4), 250_000_000);
    assert_eq!(fx_sqrt(fx(4.0)), fx(2.0));
    assert_eq!(fx_sqrt(fx(2.0)), 1_414_213_562);
    assert_eq!(fx_sqrt(fx(-1.0)), 0);
}

#[test]
fn fixed_arithmetic_saturates() {
    assert_eq!(fx_add(i64::MAX, 1), i64::MAX);
    assert_eq!(fx_sub(i64::MIN, 1), i64::MIN);
    assert_eq!(fx_mul(i64::MAX, i64::MAX), i64::MAX);
    assert_eq!(fx_neg(i64::MIN), i64::MAX);
}

#[test]
fn clamp_orders() {
    assert_eq!(clamp(5, 0, 10), 5);
    assert_eq!(clamp(-5, 0, 10), 0);
    assert_eq!(clamp(15, 0, 10), 10);
}

#[test]
fn angle_conversions() {
    assert_eq!(deg_to_rad(fx(180.0)), PI_FX);
    assert_eq!(rad_to_deg(PI_FX), fx(180.0));
    assert_eq!(deg_to_rad(0), 0);
}

#[test]
fn angle_normalization() {
    assert_eq!(normalize_angle(-1), TWO_PI_FX - 1);
    assert_eq!(normalize_angle(TWO_PI_FX), 0);
    assert_eq!(normalize_angle(TWO_PI_FX + 7), 7);
    assert_eq!(normalize_angle(0), 0);
    let r = normalize_angle(fx(-7.0));
    assert!(0 <= r && r < TWO_PI_FX);
}

#[test]
fn trig_against_reference() {
    let cases = [-3.0f64, -1.5, -0.5, 0.0, 0.3, 0.7853981634, 1.5707963268, 2.5, 3.1, 4.7, 6.2];
    for &x in cases.iter() {
        assert!((tof(sin_fixed(fx(x))) - x.sin()).abs() < 3e-7, "sin({x})");
        assert!((tof(cos_fixed(fx(x))) - x.cos()).abs() < 3e-7, "cos({x})");
    }
    assert_eq!(sin_fixed(0), 0);
    assert_eq!(acos_fixed(SCALE), 0);
    assert_eq!(acos_fixed(-SCALE), PI_FX);
    assert_eq!(acos_fixed(0), HALF_PI_FX);
    // overshoot is absorbed by the clamp
    assert_eq!(acos_fixed(SCALE + 5), 0);
    for &(y, x) in [(1.0f64, 1.0f64), (1.0, -1.0), (-1.0, -1.0), (-1.0, 1.0), (0.0, -2.0),
        (2.0, 0.0), (0.3, 0.9)].iter() {
        assert!((tof(atan2_fixed(fx(y), fx(x))) - y.atan2(x)).abs() < 4e-7, "atan2({y},{x})");
    }
    assert_eq!(atan2_fixed(0, 0), 0);
}

#[test]
fn vector_algebra() {
    let a = Vec3::new(fx(3.0), fx(4.0), 0);
    assert_eq!(a.magnitude(), fx(5.0));
    let b = Vec3::new(fx(1.0), 0, 0).cross(Vec3::new(0, fx(1.0), 0));
    assert_eq!(b, Vec3::new(0, 0, fx(1.0)));
    assert_eq!(a.dot(a), fx(25.0));
    let u = a.normalize();
    assert_eq!(u, Vec3::new(fx(0.6), fx(0.8), 0));
    assert_eq!(Vec3::zero().normalize(), Vec3::zero());
    assert_eq!(a.plus(a), a.scale(fx(2.0)));
    assert_eq!(a.minus(a), Vec3::zero());
    assert_eq!(a.div_by(0), Vec3::zero());
}
