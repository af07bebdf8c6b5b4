use orbitcrab::orbital::Satellite;
use orbitcrab::utils::Vec3;

fn fx(x: f64) -> i64 {
    (x * 1e9).round() as i64
}

#[test]
fn thrust_within_limit_passes_through() {
    let mut sat = Satellite::new(fx(7000.0), 0, fx(51.6), 0, 0, 0, fx(500.0), fx(300.0), fx(10.0));
    let t = Vec3::new(fx(3.0), fx(4.0), 0);
    sat.set_thrust_eci(t);
    assert_eq!(sat.control.thrust_eci, t);
}

#[test]
fn thrust_over_limit_clamps_to_limit_magnitude() {
    // |(3, 4, 0)| = 5 N against a 2.5 N actuator: the stored vector is
    // the command scaled by exactly one half, so its magnitude is
    // exactly the limit and its direction is the command's.
    let mut sat = Satellite::new(fx(7000.0), 0, fx(51.6), 0, 0, 0, fx(500.0), fx(300.0), fx(2.5));
    sat.set_thrust_eci(Vec3::new(fx(3.0), fx(4.0), 0));
    assert_eq!(sat.control.thrust_eci, Vec3::new(fx(1.5), fx(2.0), 0));
    assert_eq!(sat.control.thrust_eci.magnitude(), fx(2.5));
}

#[test]
fn thrust_at_limit_is_kept() {
    let mut sat = Satellite::new(fx(7000.0), 0, fx(51.6), 0, 0, 0, fx(500.0), fx(300.0), fx(5.0));
    let t = Vec3::new(fx(3.0), fx(4.0), 0);
    sat.set_thrust_eci(t);
    assert_eq!(sat.control.thrust_eci, t);
}

#[test]
fn clamped_magnitude_never_exceeds_limit() {
    // |(1, 1, 1)| = sqrt(3): the scaling truncates, so the stored
    // magnitude lands just under the limit, never over it.
    let mut sat = Satellite::new(fx(7000.0), 0, fx(51.6), 0, 0, 0, fx(500.0), fx(300.0), fx(1.0));
    sat.set_thrust_eci(Vec3::new(fx(1.0), fx(1.0), fx(1.0)));
    let stored = sat.control.thrust_eci;
    assert_eq!(stored, Vec3::new(577_350_269, 577_350_269, 577_350_269));
    assert_eq!(stored.magnitude(), 999_999_999);
    assert!(stored.magnitude() <= fx(1.0));
}

#[test]
fn clamping_touches_nothing_else() {
    let mut sat = Satellite::new(fx(7000.0), 0, fx(51.6), 0, 0, 0, fx(500.0), fx(300.0), fx(1.0));
    let state0 = sat.state;
    let el0 = sat.elements.clone();
    sat.set_thrust_eci(Vec3::new(fx(100.0), 0, 0));
    assert_eq!(sat.state, state0);
    assert_eq!(sat.elements, el0);
    assert_eq!(sat.time, 0);
    assert_eq!(sat.control.isp, fx(300.0));
}
