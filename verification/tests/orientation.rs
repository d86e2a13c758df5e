//! The basis vectors an orientation induces, the batched accessor, the
//! angle/vector round trip, and the interpolation with its snap policy.

use euler3d::{AngleVectors, Euler, Fixed, IsFinite, Vec3, VectorAngles};

fn euler_int(p: i64, y: i64, r: i64) -> Euler {
    Euler::new(Fixed::from_int(p), Fixed::from_int(y), Fixed::from_int(r))
}

/// Each component of `a` is within `tol` millionths of the matching
/// component of `b`.
fn close(a: Vec3, b: Vec3, tol: i64) -> bool {
    a.is_finite() && b.is_finite() && (a.x.m - b.x.m).abs() <= tol
        && (a.y.m - b.y.m).abs() <= tol && (a.z.m - b.z.m).abs() <= tol
}

#[test]
fn forward_at_cardinal_angles() {
    assert_eq!(euler_int(0, 0, 0).forward(), Vec3::from_int(1, 0, 0));
    assert_eq!(euler_int(0, 90, 0).forward(), Vec3::from_int(0, 0, 1));
    assert_eq!(euler_int(0, 180, 0).forward(), Vec3::from_int(-1, 0, 0));
    assert_eq!(euler_int(0, -90, 0).forward(), Vec3::from_int(0, 0, -1));
    // Positive pitch tilts the view downward.
    assert_eq!(euler_int(90, 0, 0).forward(), Vec3::from_int(0, -1, 0));
    assert_eq!(euler_int(-90, 0, 0).forward(), Vec3::from_int(0, 1, 0));
}

#[test]
fn forward_ignores_roll() {
    let plain = euler_int(30, 60, 0).forward();
    let rolled = euler_int(30, 60, 45).forward();
    assert_eq!(plain, rolled);
}

#[test]
fn right_and_up_at_zero() {
    let e = euler_int(0, 0, 0);
    assert_eq!(e.right(), Vec3::from_int(0, 0, -1));
    assert_eq!(e.up(), Vec3::from_int(0, 1, 0));
}

#[test]
fn vectors_matches_single_accessors() {
    let es = vec![
        euler_int(0, 0, 0),
        euler_int(30, 60, 45),
        euler_int(-45, 170, -10),
        euler_int(89, -90, 180),
    ];
    for e in es {
        let (f, r, u) = e.vectors();
        assert_eq!(f, e.forward());
        assert_eq!(r, e.right());
        assert_eq!(u, e.up());
    }
}

#[test]
fn round_trip_forward_of_recovered_angles() {
    // Recovering angles from a direction and deriving the forward vector
    // again reproduces the normalized direction, within the tolerance of the
    // trigonometric kernels. Roll is lost by design; only the forward
    // direction is compared.
    let vs = vec![
        Vec3::from_int(1, 2, 3),
        Vec3::from_int(5, 0, 0),
        Vec3::from_int(-2, 1, 4),
        Vec3::from_int(3, -3, 1),
    ];
    for v in vs {
        let recovered = v.euler_angles().forward();
        assert!(close(recovered, v.normalize(), 10_000));
    }
}

#[test]
fn lerp_takes_half_step_with_amount_two() {
    let from = euler_int(0, 0, 0);
    let to = euler_int(0, 90, 0);
    let out = from.lerp(&to, Fixed::from_int(2));
    assert_eq!(out, euler_int(0, 45, 0));
}

#[test]
fn lerp_snaps_to_target_on_overshoot() {
    let from = euler_int(0, 0, 0);
    let to = euler_int(0, 90, 0);
    // An amount below one scales the step beyond the remaining distance.
    let out = from.lerp(&to, Fixed::from_micros(500_000));
    assert_eq!(out, to);
}

#[test]
fn lerp_snaps_to_target_on_degenerate_step() {
    let from = euler_int(0, 0, 0);
    let to = euler_int(0, 90, 0);
    // A huge amount shrinks the step below the fixed-point resolution.
    let out = from.lerp(&to, Fixed::from_int(10_000_000));
    assert_eq!(out, to);
    // Equal endpoints leave no distance at all.
    assert_eq!(to.lerp(&to, Fixed::from_int(2)), to);
}

#[test]
fn lerp_snaps_to_target_on_non_finite_step() {
    let from = euler_int(0, 0, 0);
    let to = euler_int(0, 90, 0);
    assert_eq!(from.lerp(&to, Fixed::zero()), to);
    assert_eq!(from.lerp(&to, Fixed::non_finite()), to);
}

#[test]
fn lerp_stays_finite_for_finite_inputs() {
    let pairs = vec![
        (euler_int(0, 0, 0), euler_int(0, 90, 0), Fixed::from_int(2)),
        (euler_int(10, 20, 30), euler_int(-40, 100, 0), Fixed::from_int(3)),
        (euler_int(0, 0, 0), euler_int(180, 0, 0), Fixed::from_micros(1_500_000)),
        (euler_int(5, 5, 5), euler_int(5, 5, 5), Fixed::from_int(2)),
    ];
    for (from, to, amount) in pairs {
        assert!(from.lerp(&to, amount).is_finite());
    }
}

#[test]
fn euler_component_arithmetic() {
    let a = euler_int(10, 20, 30);
    let b = euler_int(1, 2, 3);
    assert_eq!(a.add(b), euler_int(11, 22, 33));
    assert_eq!(a.sub(b), euler_int(9, 18, 27));
    assert_eq!(a.mul(b), euler_int(10, 40, 90));
    assert_eq!(a.div(b), euler_int(10, 10, 10));
    let s = Fixed::from_int(2);
    assert_eq!(a.add_scalar(s), euler_int(12, 22, 32));
    assert_eq!(a.sub_scalar(s), euler_int(8, 18, 28));
    assert_eq!(a.mul_scalar(s), euler_int(20, 40, 60));
    assert_eq!(a.div_scalar(s), euler_int(5, 10, 15));
    // Division by a zero component is non-finite, never a panic.
    assert!(!a.div_scalar(Fixed::zero()).is_finite());
}

#[test]
fn euler_from_tuple_and_normalize_in_place() {
    let mut e = Euler::from((
        Fixed::from_int(480),
        Fixed::from_int(-960),
        Fixed::non_finite(),
    ));
    e.normalize();
    assert_eq!(e, euler_int(120, 120, 0));
}
