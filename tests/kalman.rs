use psu_control::fixed::ONE;
use psu_control::kalman::{Kalman, INITIAL_VARIANCE};

#[test]
fn new_filter_holds_initial_value_and_zero_derivative() {
    let k = Kalman::new(80 * ONE, ONE / 1000, 4761, 12 * ONE);
    assert_eq!(k.get(), (12 * ONE, 0));
    assert_eq!(k.variance(), INITIAL_VARIANCE);
}

#[test]
fn one_cycle_gives_exact_values() {
    let mut k = Kalman::new(0, ONE, ONE, 0);
    k.predict();
    assert_eq!(k.prior_variance(), 2 * INITIAL_VARIANCE);
    k.update(ONE);
    assert_eq!(k.get(), (8572788, 4286394));
    assert_eq!(k.variance(), 8572789);
}

#[test]
fn estimate_converges_on_a_constant_reading_in_noise() {
    let mut k = Kalman::new(ONE / 100, ONE / 1000, ONE / 1000, 0);
    let v = 5 * ONE;
    for n in 0..3000 {
        let noise = if n % 2 == 0 { -ONE / 100 } else { ONE / 100 };
        k.predict();
        k.update(v + noise);
    }
    let (x, dx) = k.get();
    assert!((x - v).abs() < ONE / 100);
    assert!(dx.abs() < ONE / 100);
}

#[test]
fn settled_estimate_stays_put() {
    let mut k = Kalman::new(ONE, ONE / 1000, ONE / 1000, 3 * ONE);
    for _ in 0..10 {
        k.predict();
        k.update(3 * ONE);
        assert_eq!(k.get(), (3 * ONE, 0));
    }
}

#[test]
fn update_never_raises_variance_without_process_noise() {
    let mut k = Kalman::new(0, ONE / 500, ONE / 1000, 0);
    let readings = [ONE, -ONE, 40 * ONE, 0, 7 * ONE, -300 * ONE, ONE / 3];
    for z in readings {
        k.predict();
        let prior = k.prior_variance();
        k.update(z);
        assert!(k.variance() <= prior);
        assert!(k.variance() >= 0);
    }
}

#[test]
fn update_without_weight_keeps_prior() {
    // A negative sensor variance leaves no positive innovation variance.
    let mut k = Kalman::new(0, -ONE, 0, 2 * ONE);
    k.predict();
    k.update(9 * ONE);
    assert_eq!(k.get(), (2 * ONE, 0));
    assert_eq!(k.variance(), INITIAL_VARIANCE);
}
