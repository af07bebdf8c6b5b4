use orbitcrab::orbital::Satellite;
use orbitcrab::utils::{PI_FX, TWO_PI_FX};

fn fx(x: f64) -> i64 {
    (x * 1e9).round() as i64
}

fn tof(x: i64) -> f64 {
    x as f64 / 1e9
}

/// Distance between two angles, modulo a full turn.
fn ang_err(a: i64, b: i64) -> f64 {
    let mut d = (a - b).rem_euclid(TWO_PI_FX);
    if d > TWO_PI_FX / 2 {
        d = TWO_PI_FX - d;
    }
    tof(d)
}

/// Elements -> state -> elements reproduces the elements within the
/// representation's tolerance.
fn round_trip(a_km: f64, e: f64, i_deg: f64, raan_deg: f64, argp_deg: f64, nu_deg: f64) {
    let sat = Satellite::new(
        fx(a_km), fx(e), fx(i_deg), fx(raan_deg), fx(argp_deg), fx(nu_deg),
        fx(500.0), fx(300.0), fx(10.0),
    );
    let el = Satellite::state_vectors_to_elements(sat.state.r, sat.state.v);
    let rad = std::f64::consts::PI / 180.0;
    assert!((tof(el.semi_major_axis) / a_km - 1.0).abs() < 1e-4, "a: {}", tof(el.semi_major_axis));
    assert!((tof(el.eccentricity) - e).abs() < 1e-5, "e: {}", tof(el.eccentricity));
    assert!(ang_err(el.inclination, fx(i_deg * rad)) < 1e-4, "i");
    assert!(ang_err(el.raan, fx(raan_deg * rad)) < 1e-4, "raan");
    assert!(ang_err(el.arg_periapsis, fx(argp_deg * rad)) < 2e-4, "argp");
    assert!(ang_err(el.true_anomaly, fx(nu_deg * rad)) < 2e-4, "nu");
}

#[test]
fn round_trip_leo() {
    round_trip(7000.0, 0.01, 45.0, 30.0, 60.0, 80.0);
}

#[test]
fn round_trip_eccentric() {
    round_trip(12000.0, 0.3, 100.0, 200.0, 300.0, 250.0);
}

#[test]
fn round_trip_retrograde() {
    round_trip(8000.0, 0.05, 170.0, 10.0, 100.0, 320.0);
}

#[test]
fn round_trip_near_circular() {
    round_trip(6800.0, 0.0, 51.6, 120.0, 0.0, 0.0);
}

#[test]
fn circular_equatorial_conventions() {
    // e = 0, i = 0: node and periapsis undefined, both angles fall back
    // to zero and the anomaly is measured from the x-axis.
    let sat = Satellite::new(fx(7000.0), 0, 0, 0, 0, fx(57.29577951308232),
        fx(500.0), 0, 0);
    let el = Satellite::state_vectors_to_elements(sat.state.r, sat.state.v);
    assert_eq!(el.raan, 0);
    assert_eq!(el.arg_periapsis, 0);
    assert!(ang_err(el.true_anomaly, fx(1.0)) < 1e-4);
    assert!(tof(el.eccentricity) < 1e-5);
}

#[test]
fn circular_inclined_convention() {
    // e = 0, i > 0: the argument of periapsis falls back to zero and the
    // anomaly becomes the argument of latitude, measured from the node.
    let sat = Satellite::new(fx(7000.0), 0, fx(30.0), fx(40.0), 0, fx(25.0),
        fx(500.0), 0, 0);
    let el = Satellite::state_vectors_to_elements(sat.state.r, sat.state.v);
    assert_eq!(el.arg_periapsis, 0);
    let rad = std::f64::consts::PI / 180.0;
    assert!(ang_err(el.true_anomaly, fx(25.0 * rad)) < 1e-4);
    assert!(ang_err(el.raan, fx(40.0 * rad)) < 1e-4);
}

#[test]
fn eccentric_equatorial_convention() {
    // e > 0, i = 0: the node is undefined, RAAN falls back to zero and
    // the periapsis angle is measured from the x-axis.
    let sat = Satellite::new(fx(7000.0), fx(0.2), 0, 0, fx(70.0), fx(20.0),
        fx(500.0), 0, 0);
    let el = Satellite::state_vectors_to_elements(sat.state.r, sat.state.v);
    assert_eq!(el.raan, 0);
    let rad = std::f64::consts::PI / 180.0;
    assert!(ang_err(el.arg_periapsis, fx(70.0 * rad)) < 2e-4);
    assert!(ang_err(el.true_anomaly, fx(20.0 * rad)) < 2e-4);
}

#[test]
fn angles_stay_in_range() {
    let sat = Satellite::new(fx(9000.0), fx(0.4), fx(63.4), fx(270.0), fx(90.0), fx(181.0),
        fx(500.0), 0, 0);
    let el = Satellite::state_vectors_to_elements(sat.state.r, sat.state.v);
    assert!(0 <= el.inclination && el.inclination <= PI_FX);
    assert!(0 <= el.raan && el.raan < TWO_PI_FX);
    assert!(0 <= el.arg_periapsis && el.arg_periapsis < TWO_PI_FX);
    assert!(0 <= el.true_anomaly && el.true_anomaly < TWO_PI_FX);
}

#[test]
fn getters_match_formulas() {
    let sat = Satellite::new(fx(7000.0), fx(0.1), fx(28.5), 0, 0, 0,
        fx(500.0), fx(300.0), fx(10.0));
    // apoapsis: 7000 * 1.1 - 6371, periapsis: 7000 * 0.9 - 6371
    assert_eq!(sat.get_apoapsis(), fx(1329.0));
    assert_eq!(sat.get_periapsis(), fx(-71.0));
    let v = sat.get_velocity();
    // vis-viva at periapsis of this orbit
    let expect = (398600.4418f64 * (2.0 / 6300.0 - 1.0 / 7000.0)).sqrt();
    assert!((tof(v) - expect).abs() < 1e-3);
}
