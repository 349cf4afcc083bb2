use psu_control::fixed::ONE;
use psu_control::kalman::INITIAL_VARIANCE;
use psu_control::kalman3::Kalman3;

#[test]
fn new_third_order_filter_holds_initial_value() {
    let k = Kalman3::new(ONE, ONE / 1000, ONE / 1000, -4 * ONE);
    assert_eq!(k.get(), (-4 * ONE, 0, 0));
    assert_eq!(k.variance(), INITIAL_VARIANCE);
}

#[test]
fn third_order_cycle_gives_exact_values() {
    let mut k = Kalman3::new(0, ONE, ONE, 0);
    k.predict();
    // P00 + dt^2 P11 + (dt^2/2)^2 P22
    assert_eq!(k.prior_variance(), 9663675);
    k.update(ONE);
    assert_eq!(k.get(), (9641980, 6427987, 2142662));
    assert_eq!(k.variance(), 9641981);
}

#[test]
fn third_order_estimate_converges_on_a_constant() {
    let mut k = Kalman3::new(ONE / 100, ONE / 1000, ONE / 1000, 0);
    let v = 5 * ONE;
    for n in 0..3000 {
        let noise = if n % 2 == 0 { -ONE / 100 } else { ONE / 100 };
        k.predict();
        k.update(v + noise);
    }
    let (x, dx, _) = k.get();
    assert!((x - v).abs() < ONE / 100);
    assert!(dx.abs() < ONE / 20);
}

#[test]
fn third_order_filter_tracks_a_ramp() {
    let mut k = Kalman3::new(ONE, ONE / 1000, ONE / 100, 0);
    for n in 0..2000i64 {
        k.predict();
        k.update(2 * n * ONE / 100);
    }
    let (x, dx, ddx) = k.get();
    assert!((x - 2 * 1999 * ONE / 100).abs() < ONE / 100);
    assert!((dx - 2 * ONE).abs() < ONE / 100);
    assert!(ddx.abs() < ONE / 100);
}

#[test]
fn third_order_settled_estimate_stays_put() {
    let mut k = Kalman3::new(ONE, ONE / 1000, ONE / 1000, 3 * ONE);
    for _ in 0..10 {
        k.predict();
        k.update(3 * ONE);
        assert_eq!(k.get(), (3 * ONE, 0, 0));
    }
}

#[test]
fn third_order_update_never_raises_variance() {
    let mut k = Kalman3::new(0, ONE / 500, ONE / 1000, 0);
    let readings = [ONE, -ONE, 40 * ONE, 0, 7 * ONE, -300 * ONE, ONE / 3];
    for z in readings {
        k.predict();
        let prior = k.prior_variance();
        k.update(z);
        assert!(k.variance() <= prior);
        assert!(k.variance() >= 0);
    }
}
