//! Vector operations: the axis swap, the horizontal magnitude, and the
//! recovery of angles from a direction vector.

use euler3d::{Euler, Fixed, IsFinite, Magnitude2D, SwapYZ, Vec3, VectorAngles};

#[test]
fn test_swap() {
    let a = Vec3::from_int(0, 1, 2);
    assert_eq!(a.swap_yz(), Vec3::from_int(0, 2, 1));
    assert_eq!(a.swap_yz(), Vec3::from_int(0, 2, 1));
    assert_eq!(a.swap_yz().swap_yz(), a);
}

#[test]
fn test_magnitude2d() {
    let a = Vec3::from_int(1, 0, 0);
    assert_eq!(a.norm_xz(), Fixed::from_int(1));
    let b = Vec3::from_int(1, 2, 3);
    assert_eq!(b.norm_xz_squared(), Fixed::from_int(10));
}

#[test]
fn magnitude_2d_variants_agree() {
    let b = Vec3::from_int(1, 2, 3);
    assert_eq!(b.magnitude_xz_squared(), b.norm_xz_squared());
    assert_eq!(b.magnitude_xz(), b.norm_xz());
    // The squared horizontal magnitude of (1, 2, 3) is 10; its root at
    // fixed-point resolution is the floor of sqrt(10).
    assert_eq!(b.magnitude_xz(), Fixed::from_micros(3_162_277));
}

#[test]
fn magnitude_and_normalize() {
    let v = Vec3::from_int(2, 3, 6);
    assert_eq!(v.magnitude(), Fixed::from_int(7));
    let u = Vec3::from_int(0, 0, 5).normalize();
    assert_eq!(u, Vec3::from_int(0, 0, 1));
    // A zero vector has no direction: normalizing it is non-finite.
    assert!(!Vec3::from_int(0, 0, 0).normalize().is_finite());
}

#[test]
fn cross_product() {
    let x = Vec3::from_int(1, 0, 0);
    let y = Vec3::from_int(0, 1, 0);
    assert_eq!(x.cross(y), Vec3::from_int(0, 0, 1));
    assert_eq!(y.cross(x), Vec3::from_int(0, 0, -1));
}

#[test]
fn test_vector_angles() {
    let a = Vec3::from_int(0, 5, 5);
    assert_eq!(
        a.euler_angles(),
        Euler::new(Fixed::from_int(-45), Fixed::from_int(90), Fixed::from_int(0)),
    );
    let b = Vec3::from_int(0, 10, 10);
    assert_eq!(
        b.euler_angles(),
        Euler::new(Fixed::from_int(-45), Fixed::from_int(90), Fixed::from_int(0)),
    );
    let c = Vec3::from_int(1, 1, 0);
    assert_eq!(
        c.euler_angles(),
        Euler::new(Fixed::from_int(-45), Fixed::from_int(0), Fixed::from_int(0)),
    );
}

#[test]
fn vector_angles_degenerate_vertical() {
    // Straight up or down: the yaw would be atan2(0, 0), so a fixed pitch is
    // used, then normalized (270 wraps to -90).
    let up = Vec3::from_int(0, 5, 0);
    assert_eq!(
        up.euler_angles(),
        Euler::new(Fixed::from_int(-90), Fixed::from_int(0), Fixed::from_int(0)),
    );
    let down = Vec3::from_int(0, -5, 0);
    assert_eq!(
        down.euler_angles(),
        Euler::new(Fixed::from_int(90), Fixed::from_int(0), Fixed::from_int(0)),
    );
}

#[test]
fn vector_angles_roll_is_always_zero() {
    let vs = vec![
        Vec3::from_int(1, 2, 3),
        Vec3::from_int(-4, 1, 2),
        Vec3::from_int(0, 7, 0),
        Vec3::from_int(3, 0, -4),
    ];
    for v in vs {
        assert_eq!(v.euler_angles().r, Fixed::zero());
    }
}

#[test]
fn vector_angles_with_up_degenerate() {
    // The direction points straight up, so the yaw is recovered from the
    // left vector and the roll is zero.
    let v = Vec3::from_int(0, 1, 0);
    let up = Vec3::from_int(0, 0, 1);
    assert_eq!(
        v.euler_angles_with_up(&up),
        Euler::new(Fixed::from_int(-90), Fixed::from_int(90), Fixed::from_int(0)),
    );
}

#[test]
fn vector_angles_with_up_general() {
    // A level forward direction with the vertical axis as the up reference.
    let v = Vec3::from_int(1, 0, 0);
    let up = Vec3::from_int(0, 1, 0);
    assert_eq!(
        v.euler_angles_with_up(&up),
        Euler::new(Fixed::from_int(0), Fixed::from_int(0), Fixed::from_int(180)),
    );
}
