use psu_control::fixed::{fadd, fdiv, fmul, fneg, from_int, fsub, ONE};

#[test]
fn product_of_one_and_a_half_and_two_is_three() {
    assert_eq!(fmul(3 * ONE / 2, 2 * ONE), 3 * ONE);
}

#[test]
fn product_rounds_down() {
    assert_eq!(fmul(-1, 1), -1);
    assert_eq!(fmul(1, 1), 0);
    assert_eq!(fmul(-3 * ONE / 2, ONE / 2), -3 * ONE / 4);
}

#[test]
fn quotient_of_one_by_four_is_a_quarter() {
    assert_eq!(fdiv(ONE, 4 * ONE), ONE / 4);
    assert_eq!(fdiv(-ONE, 4 * ONE), -ONE / 4);
}

#[test]
fn sums_saturate_at_the_ends() {
    assert_eq!(fadd(i64::MAX, 1), i64::MAX);
    assert_eq!(fsub(i64::MIN, 1), i64::MIN);
    assert_eq!(fneg(i64::MIN), i64::MAX);
    assert_eq!(fmul(i64::MAX, i64::MAX), i64::MAX);
    assert_eq!(fmul(i64::MIN, i64::MAX), i64::MIN);
    assert_eq!(fadd(2 * ONE, -3 * ONE), -ONE);
}

#[test]
fn whole_numbers_convert() {
    assert_eq!(from_int(7), 7 * ONE);
    assert_eq!(from_int(-2), -2 * ONE);
    assert_eq!(from_int(i64::MAX), i64::MAX);
}
