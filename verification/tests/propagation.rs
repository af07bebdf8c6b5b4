use orbitcrab::gnc::{State, Control, PointMassEom, eom, rk4_step};
use orbitcrab::orbital::Satellite;
use orbitcrab::utils::{Vec3, PI_FX, TWO_PI_FX};

fn fx(x: f64) -> i64 {
    (x * 1e9).round() as i64
}

fn tof(x: i64) -> f64 {
    x as f64 / 1e9
}

fn dist(a: Vec3, b: Vec3) -> f64 {
    tof(a.minus(b).magnitude())
}

/// A satellite on the ISS-altitude circular orbit used by several tests.
fn iss_like() -> Satellite {
    Satellite::new(fx(6371.0 + 408.0), 0, fx(51.6), 0, 0, 0, fx(500.0), fx(300.0), fx(10.0))
}

#[test]
fn test_circular_orbit() {
    let sat = iss_like();
    let period = sat.get_orbital_period();
    assert!((period - fx(5550.0)).abs() < fx(100.0));
}

#[test]
fn orbital_period_exact_value() {
    let sat = iss_like();
    assert_eq!(sat.get_orbital_period(), 5_554_684_812_117);
}

#[test]
fn two_body_acceleration_value() {
    // At (7000, 0, 0) km with no thrust the derivative is pure gravity
    // plus J2, both pointing back along x.
    let x = State { r: Vec3::new(fx(7000.0), 0, 0), v: Vec3::zero(), m: fx(500.0) };
    let u = Control { thrust_eci: Vec3::zero(), isp: 0 };
    let d = eom(0, &x, &u);
    assert_eq!(d.r, x.v);
    // mu / r^2 = 398600.4418 / 7000^2 and the J2 term at the equator
    assert_eq!(d.v, Vec3::new(-8_134_702 - 10_942, 0, 0));
    assert_eq!(d.m, 0);
}

#[test]
fn unperturbed_orbit_conserves_state_over_one_period() {
    let mut sat = iss_like();
    sat.j2_on = false;
    let r0 = sat.state.r;
    let v0 = sat.state.v;
    let period = sat.get_orbital_period();
    let dt = fx(5.0);
    let steps = period / dt;
    for _ in 0..steps {
        sat.update(dt);
    }
    sat.update(period - steps * dt);
    assert!(dist(sat.state.r, r0) < 0.1, "position drift {}", dist(sat.state.r, r0));
    assert!(dist(sat.state.v, v0) < 1e-3, "velocity drift {}", dist(sat.state.v, v0));
    assert_eq!(sat.state.m, fx(500.0));
}

#[test]
fn rk4_halving_dt_divides_error_by_sixteen() {
    // Richardson ratio: the gap between the dt and dt/2 solutions over a
    // fixed interval shrinks by about 2^4 per halving.
    let total: i64 = 400;
    let run = |dt_s: i64| -> State {
        let start = iss_like();
        let model = PointMassEom { j2_on: false };
        let u = Control { thrust_eci: Vec3::zero(), isp: 0 };
        let mut st = start.state;
        for _ in 0..(total / dt_s) {
            st = rk4_step(&model, 0, &st, &u, fx(dt_s as f64));
        }
        st
    };
    let s1 = run(400);
    let s2 = run(200);
    let s4 = run(100);
    let s8 = run(50);
    let e1 = dist(s1.r, s2.r);
    let e2 = dist(s2.r, s4.r);
    let e3 = dist(s4.r, s8.r);
    assert!(e1 / e2 > 8.0 && e1 / e2 < 32.0, "ratio {}", e1 / e2);
    assert!(e2 / e3 > 8.0 && e2 / e3 < 32.0, "ratio {}", e2 / e3);
}

#[test]
fn mass_decreases_at_tsiolkovsky_rate() {
    let mut sat = iss_like();
    sat.set_thrust_eci(Vec3::new(fx(1.0), 0, 0));
    let mut last = sat.state.m;
    for _ in 0..100 {
        sat.update(fx(1.0));
        assert!(sat.state.m < last, "mass must strictly decrease");
        last = sat.state.m;
    }
    // analytic: 500 - 100 * 1 / (300 * 9.80665)
    let analytic = 500.0 - 100.0 * 1.0 / (300.0 * 9.80665);
    assert!((tof(sat.state.m) - analytic).abs() < 1e-4, "mass {}", tof(sat.state.m));
    assert_eq!(sat.state.m, 499_966_009_600);
}

#[test]
fn zero_thrust_keeps_mass_constant() {
    let mut sat = iss_like();
    for _ in 0..10 {
        sat.update(fx(10.0));
    }
    assert_eq!(sat.state.m, fx(500.0));
}

#[test]
fn degenerate_orbit_survives_repeated_updates() {
    // Circular equatorial orbit, J2 on: every step must keep all the
    // angles inside their ranges (the fixed representation has no NaN to
    // produce, and the contracts rule saturation nonsense out).
    let mut sat = Satellite::new(fx(7000.0), 0, 0, 0, 0, 0, fx(500.0), 0, 0);
    for _ in 0..50 {
        sat.update(fx(10.0));
        let el = &sat.elements;
        assert!(0 <= el.inclination && el.inclination <= PI_FX);
        assert!(0 <= el.raan && el.raan < TWO_PI_FX);
        assert!(0 <= el.arg_periapsis && el.arg_periapsis < TWO_PI_FX);
        assert!(0 <= el.true_anomaly && el.true_anomaly < TWO_PI_FX);
        assert!((tof(el.semi_major_axis) - 7000.0).abs() < 10.0);
    }
}

#[test]
fn elements_track_state_after_update() {
    let mut sat = iss_like();
    sat.update(fx(10.0));
    let el = Satellite::state_vectors_to_elements(sat.state.r, sat.state.v);
    assert_eq!(sat.elements, el);
    assert_eq!(sat.time, fx(10.0));
}
