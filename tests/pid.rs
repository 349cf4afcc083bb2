use psu_control::fixed::ONE;
use psu_control::pid::PID;

fn controller() -> PID {
    PID::new(ONE / 10, 2 * ONE, ONE, ONE / 2, -10 * ONE, 10 * ONE)
}

#[test]
fn step_gives_exact_action() {
    let mut p = controller();
    assert_eq!(p.control_step(5 * ONE, 3 * ONE, ONE), 15891378994);
    assert_eq!(p.get_i(), 858993458);
    assert_eq!(p.control_step(5 * ONE, 3 * ONE, ONE), 16750372452);
    assert_eq!(p.get_i(), 1717986916);
}

#[test]
fn integrator_stays_within_bounds_under_sustained_error() {
    let mut p = controller();
    for _ in 0..1000 {
        p.control_step(1000 * ONE, 0, 0);
        assert!(p.get_i() <= 10 * ONE);
    }
    assert_eq!(p.get_i(), 10 * ONE);
    for _ in 0..1000 {
        p.control_step(-1000 * ONE, 0, 0);
        assert!(p.get_i() >= -10 * ONE);
    }
    assert_eq!(p.get_i(), -10 * ONE);
}

#[test]
fn zero_forgets_history() {
    let mut a = controller();
    for _ in 0..500 {
        a.control_step(1000 * ONE, 0, 0);
    }
    a.zero();
    assert_eq!(a.get_i(), 0);
    let mut b = controller();
    assert_eq!(
        a.control_step(5 * ONE, 3 * ONE, ONE),
        b.control_step(5 * ONE, 3 * ONE, ONE)
    );
    assert_eq!(a.get_i(), b.get_i());
}

#[test]
fn steady_state_gives_no_action() {
    let mut p = PID::new(429496, 20 * ONE, 30 * ONE, 8 * ONE, -544028586, 544028586);
    for _ in 0..10 {
        assert_eq!(p.control_step(370 * ONE, 370 * ONE, 0), 0);
        assert_eq!(p.get_i(), 0);
    }
}

#[test]
fn threshold_gates_integration() {
    let mut p = controller().with_integral_threshold(ONE);
    p.control_step(5 * ONE, 3 * ONE, 0);
    assert_eq!(p.get_i(), 0);
    p.control_step(5 * ONE, 4 * ONE + ONE / 2, 0);
    assert_eq!(p.get_i(), 214748364);
}

#[test]
fn derivative_term_opposes_rising_process() {
    let mut p = PID::new(ONE / 10, 0, 0, 2 * ONE, -ONE, ONE);
    assert_eq!(p.control_step(0, 0, 3 * ONE), -6 * ONE);
}
