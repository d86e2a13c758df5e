//! The fixed-point scalar: exact arithmetic, non-finite propagation, square
//! root, and the trigonometric kernels.

use euler3d::trig::{atan2, cos, sin, sin_cos};
use euler3d::{EIGHTH_TURN, Fixed, HALF_TURN, IsFinite, QUARTER_TURN};

#[test]
fn scalar_arithmetic_is_exact() {
    let two = Fixed::from_int(2);
    let three = Fixed::from_int(3);
    assert_eq!(two.add(three), Fixed::from_int(5));
    assert_eq!(two.sub(three), Fixed::from_int(-1));
    assert_eq!(two.mul(three), Fixed::from_int(6));
    assert_eq!(Fixed::from_int(1).div(three), Fixed::from_micros(333_333));
    assert_eq!(three.neg(), Fixed::from_int(-3));
}

#[test]
fn scalar_overflow_and_zero_division_are_non_finite() {
    let huge = Fixed::from_micros(i64::MAX);
    assert!(!huge.add(huge).is_finite());
    assert!(!huge.mul(huge).is_finite());
    assert!(!Fixed::from_int(1).div(Fixed::zero()).is_finite());
    assert!(!Fixed::from_int(1).add(Fixed::non_finite()).is_finite());
    assert!(!Fixed::non_finite().mul(Fixed::from_int(2)).is_finite());
}

#[test]
fn scalar_sqrt() {
    assert_eq!(Fixed::from_int(4).sqrt(), Fixed::from_int(2));
    assert_eq!(Fixed::from_int(2).sqrt(), Fixed::from_micros(1_414_213));
    assert_eq!(Fixed::zero().sqrt(), Fixed::zero());
    assert!(!Fixed::from_int(-1).sqrt().is_finite());
    assert!(!Fixed::non_finite().sqrt().is_finite());
}

#[test]
fn sine_and_cosine_special_angles() {
    assert_eq!(sin(Fixed::zero()), Fixed::zero());
    assert_eq!(sin(Fixed::from_int(90)), Fixed::from_int(1));
    assert_eq!(sin(Fixed::from_int(-90)), Fixed::from_int(-1));
    assert_eq!(sin(Fixed::from_int(180)), Fixed::zero());
    assert_eq!(sin(Fixed::from_int(30)), Fixed::from_micros(500_000));
    assert_eq!(cos(Fixed::zero()), Fixed::from_int(1));
    assert_eq!(cos(Fixed::from_int(90)), Fixed::zero());
    assert_eq!(cos(Fixed::from_int(180)), Fixed::from_int(-1));
    assert_eq!(cos(Fixed::from_int(60)), Fixed::from_micros(500_000));
    assert_eq!(cos(Fixed::from_int(-60)), Fixed::from_micros(500_000));
}

#[test]
fn sine_wraps_whole_turns() {
    assert_eq!(sin(Fixed::from_int(450)), Fixed::from_int(1));
    assert_eq!(sin(Fixed::from_int(-270)), Fixed::from_int(1));
}

#[test]
fn sine_of_non_finite_is_non_finite() {
    assert!(!sin(Fixed::non_finite()).is_finite());
    assert!(!cos(Fixed::non_finite()).is_finite());
    let pair = sin_cos(Fixed::non_finite());
    assert!(!pair.0.is_finite());
    assert!(!pair.1.is_finite());
}

#[test]
fn atan2_axes_and_diagonals() {
    let one = Fixed::from_int(1);
    let zero = Fixed::zero();
    assert_eq!(atan2(zero, one).m, 0);
    assert_eq!(atan2(one, zero).m, QUARTER_TURN);
    assert_eq!(atan2(zero, one.neg()).m, HALF_TURN);
    assert_eq!(atan2(one.neg(), zero).m, -QUARTER_TURN);
    assert_eq!(atan2(one, one).m, EIGHTH_TURN);
    assert_eq!(atan2(one.neg(), one).m, -EIGHTH_TURN);
    assert_eq!(atan2(one, one.neg()).m, HALF_TURN - EIGHTH_TURN);
    assert_eq!(atan2(one.neg(), one.neg()).m, -(HALF_TURN - EIGHTH_TURN));
}

#[test]
fn atan2_general_ratio() {
    // atan(1/2) through the polynomial kernel, exact at the fixed-point
    // resolution; the true angle is 26.565 degrees.
    let r = atan2(Fixed::from_int(1), Fixed::from_int(2));
    assert_eq!(r, Fixed::from_micros(26_479_875));
    assert!(!atan2(Fixed::non_finite(), Fixed::from_int(1)).is_finite());
}
