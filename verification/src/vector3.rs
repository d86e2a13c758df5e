//! A three-component vector of fixed-point scalars, with the handful of
//! vector operations the orientation algorithms need, and the recovery of an
//! Euler angle triple from a direction vector.

use vstd::math::abs;
use vstd::prelude::*;

use vstd::arithmetic::div_mod::lemma_div_pos_is_pos;

use crate::IsFinite;
use crate::euler::Euler;
use crate::fixed::{FULL_TURN, Fixed, SCALE, abs_u64, isqrt_u128, sqrt_floor};
use crate::trig::{atan2, spec_atan2};

verus! {

/// A vector of three fixed-point components. Unit length is a property some
/// operations ensure, never an invariant of the type itself.
#[derive(Clone, Copy, Debug, PartialEq, Eq, Structural)]
pub struct Vec3 {
    pub x: Fixed,
    pub y: Fixed,
    pub z: Fixed,
}

/// Exchanges the second and third components, converting between the
/// computation frame and the delivery frame.
pub trait SwapYZ: Sized {
    fn swap_yz(&self) -> Self;
}

/// The horizontal magnitude of a vector: the length of its projection onto
/// the plane spanned by the first and third components.
pub trait Magnitude2D {
    fn norm_xz_squared(&self) -> Fixed;

    fn norm_xz(&self) -> Fixed;

    fn magnitude_xz_squared(&self) -> Fixed;

    fn magnitude_xz(&self) -> Fixed;
}

/// Recovers an Euler angle triple from a direction vector, with or without a
/// reference up vector.
pub trait VectorAngles {
    fn euler_angles(&self) -> Euler;

    fn euler_angles_with_up(&self, up: &Vec3) -> Euler;
}

impl Vec3 {
    /// All three components are finite.
    pub open spec fn spec_all_finite(self) -> bool {
        self.x.finite && self.y.finite && self.z.finite
    }

    /// The vector with the second and third components exchanged.
    pub open spec fn spec_swap_yz(self) -> Vec3 {
        Vec3 { x: self.x, y: self.z, z: self.y }
    }

    /// The component-wise sum.
    pub open spec fn spec_add(self, o: Vec3) -> Vec3 {
        Vec3 { x: self.x.spec_add(o.x), y: self.y.spec_add(o.y), z: self.z.spec_add(o.z) }
    }

    /// The component-wise difference.
    pub open spec fn spec_sub(self, o: Vec3) -> Vec3 {
        Vec3 { x: self.x.spec_sub(o.x), y: self.y.spec_sub(o.y), z: self.z.spec_sub(o.z) }
    }

    /// Each component divided by the scalar `s`.
    pub open spec fn spec_div_scalar(self, s: Fixed) -> Vec3 {
        Vec3 { x: self.x.spec_div(s), y: self.y.spec_div(s), z: self.z.spec_div(s) }
    }

    /// The cross product, each term truncated at the fixed-point resolution.
    pub open spec fn spec_cross(self, o: Vec3) -> Vec3 {
        Vec3 {
            x: self.y.spec_mul(o.z).spec_sub(self.z.spec_mul(o.y)),
            y: self.z.spec_mul(o.x).spec_sub(self.x.spec_mul(o.z)),
            z: self.x.spec_mul(o.y).spec_sub(self.y.spec_mul(o.x)),
        }
    }

    /// The Euclidean length: the integer square root of the exact sum of the
    /// squared mantissas, non-finite if any component is non-finite or the
    /// length does not fit the mantissa.
    pub open spec fn spec_magnitude(self) -> Fixed {
        if self.spec_all_finite() {
            Fixed::spec_from_exact(
                sqrt_floor(
                    (self.x.m * self.x.m + self.y.m * self.y.m + self.z.m * self.z.m) as nat,
                ) as int,
            )
        } else {
            Fixed::spec_non_finite()
        }
    }

    /// The vector scaled to unit length: each component divided by the
    /// length. A zero or non-finite length makes every component non-finite,
    /// as dividing by a zero or NaN norm would for machine floats.
    pub open spec fn spec_normalize(self) -> Vec3 {
        self.spec_div_scalar(self.spec_magnitude())
    }

    pub fn new(x: Fixed, y: Fixed, z: Fixed) -> (v: Vec3)
        ensures
            v == (Vec3 { x, y, z }),
    {
        Vec3 { x, y, z }
    }

    /// The vector of three whole-unit components.
    pub fn from_int(x: i64, y: i64, z: i64) -> (v: Vec3)
        ensures
            v.x == Fixed::spec_from_exact(x * SCALE),
            v.y == Fixed::spec_from_exact(y * SCALE),
            v.z == Fixed::spec_from_exact(z * SCALE),
    {
        Vec3 { x: Fixed::from_int(x), y: Fixed::from_int(y), z: Fixed::from_int(z) }
    }

    pub fn add(self, o: Vec3) -> (v: Vec3)
        ensures
            v == self.spec_add(o),
    {
        Vec3 { x: self.x.add(o.x), y: self.y.add(o.y), z: self.z.add(o.z) }
    }

    pub fn sub(self, o: Vec3) -> (v: Vec3)
        ensures
            v == self.spec_sub(o),
    {
        Vec3 { x: self.x.sub(o.x), y: self.y.sub(o.y), z: self.z.sub(o.z) }
    }

    pub fn div_scalar(self, s: Fixed) -> (v: Vec3)
        ensures
            v == self.spec_div_scalar(s),
    {
        Vec3 { x: self.x.div(s), y: self.y.div(s), z: self.z.div(s) }
    }

    pub fn cross(self, o: Vec3) -> (v: Vec3)
        ensures
            v == self.spec_cross(o),
    {
        Vec3 {
            x: self.y.mul(o.z).sub(self.z.mul(o.y)),
            y: self.z.mul(o.x).sub(self.x.mul(o.z)),
            z: self.x.mul(o.y).sub(self.y.mul(o.x)),
        }
    }

    pub fn magnitude(&self) -> (r: Fixed)
        ensures
            r == self.spec_magnitude(),
    {
        if self.x.finite && self.y.finite && self.z.finite {
            let ax = abs_u64(self.x.m) as u128;
            let ay = abs_u64(self.y.m) as u128;
            let az = abs_u64(self.z.m) as u128;
            proof {
                lemma_square_abs(self.x.m as int, ax as int);
                lemma_square_abs(self.y.m as int, ay as int);
                lemma_square_abs(self.z.m as int, az as int);
            }
            let sum: u128 = ax * ax + ay * ay + az * az;
            let s: u64 = isqrt_u128(sum);
            if s <= i64::MAX as u64 {
                Fixed { finite: true, m: s as i64 }
            } else {
                Fixed::non_finite()
            }
        } else {
            Fixed::non_finite()
        }
    }

    pub fn normalize(&self) -> (v: Vec3)
        ensures
            v == self.spec_normalize(),
    {
        let m = self.magnitude();
        self.div_scalar(m)
    }
}

/// The square of a signed value equals the square of its magnitude, and a
/// 63-bit magnitude squares to less than a third of the 128-bit range.
proof fn lemma_square_abs(m: int, a: int) by (nonlinear_arith)
    requires
        a == abs(m),
        a <= 0x8000_0000_0000_0000,
    ensures
        m * m == a * a,
        0 <= a * a <= 0x4000_0000_0000_0000_0000_0000_0000_0000,
{
}

impl SwapYZ for Vec3 {
    #[inline]
    fn swap_yz(&self) -> (v: Vec3)
        ensures
            v == self.spec_swap_yz(),
    {
        Vec3 { x: self.x, y: self.z, z: self.y }
    }
}

/// Exchanging the second and third components twice restores the original
/// vector: the swap is its own inverse.
pub proof fn lemma_swap_yz_involutive(v: Vec3)
    ensures
        v.spec_swap_yz().spec_swap_yz() == v,
{
}

impl IsFinite for Vec3 {
    #[inline]
    fn is_finite(&self) -> (b: bool)
        ensures
            b == self.spec_all_finite(),
    {
        self.x.finite && self.y.finite && self.z.finite
    }
}

/// The squared horizontal magnitude: the sum of the squares of the first and
/// third components, at fixed-point resolution.
pub open spec fn spec_norm_xz_squared(v: Vec3) -> Fixed {
    v.x.spec_mul(v.x).spec_add(v.z.spec_mul(v.z))
}

/// The horizontal magnitude: the square root of the squared form.
pub open spec fn spec_norm_xz(v: Vec3) -> Fixed {
    spec_norm_xz_squared(v).spec_sqrt()
}

impl Magnitude2D for Vec3 {
    #[inline]
    fn norm_xz_squared(&self) -> (r: Fixed)
        ensures
            r == spec_norm_xz_squared(*self),
    {
        self.x.mul(self.x).add(self.z.mul(self.z))
    }

    #[inline]
    fn norm_xz(&self) -> (r: Fixed)
        ensures
            r == spec_norm_xz(*self),
    {
        self.norm_xz_squared().sqrt()
    }

    #[inline]
    fn magnitude_xz_squared(&self) -> (r: Fixed)
        ensures
            r == spec_norm_xz_squared(*self),
    {
        self.norm_xz_squared()
    }

    #[inline]
    fn magnitude_xz(&self) -> (r: Fixed)
        ensures
            r == spec_norm_xz(*self),
    {
        self.norm_xz()
    }
}

/// The horizontal magnitude matches the square root of the squared form:
/// whenever the squared horizontal magnitude is finite, the magnitude is the
/// finite scalar whose mantissa is the integer square root of the squared
/// form at fixed-point resolution.
pub proof fn lemma_magnitude_xz_matches_sqrt(v: Vec3)
    requires
        spec_norm_xz_squared(v).finite,
    ensures
        spec_norm_xz_squared(v).m >= 0,
        spec_norm_xz(v).finite,
        spec_norm_xz(v).m * spec_norm_xz(v).m <= spec_norm_xz_squared(v).m * 1_000_000,
        spec_norm_xz_squared(v).m * 1_000_000 < (spec_norm_xz(v).m + 1) * (spec_norm_xz(v).m
            + 1),
{
    let s = spec_norm_xz_squared(v);
    lemma_div_pos_is_pos((abs(v.x.m as int) * abs(v.x.m as int)) as int, 1_000_000);
    lemma_div_pos_is_pos((abs(v.z.m as int) * abs(v.z.m as int)) as int, 1_000_000);
    s.lemma_sqrt_characterization();
}

/// The angle triple recovered from the direction vector `v` alone.
///
/// When the first and third components are exactly zero the vector points
/// straight up or down in the delivery frame and the yaw would be the
/// arctangent of two zeros; a fixed pitch of 270 or 90 degrees is used
/// instead, by the sign of the vertical component. Otherwise the pitch is
/// the arctangent of the lowered vertical component over the horizontal
/// magnitude and the yaw the arctangent of the third component over the
/// first, each shifted by a full turn when negative. The roll is always
/// zero: a direction alone cannot determine roll. Every branch normalizes
/// the triple before returning it.
pub open spec fn spec_euler_angles(v: Vec3) -> Euler {
    if v.x.finite && v.x.m == 0 && v.z.finite && v.z.m == 0 {
        let pitch = if v.y.finite && v.y.m > 0 {
            Fixed { finite: true, m: 270_000_000 }
        } else {
            Fixed { finite: true, m: 90_000_000 }
        };
        (Euler { p: pitch, y: Fixed::spec_zero(), r: Fixed::spec_zero() }).spec_normalized()
    } else {
        let p0 = spec_atan2(v.y.spec_neg(), spec_norm_xz(v));
        let pitch = if p0.finite && p0.m < 0 {
            p0.spec_add(Fixed { finite: true, m: FULL_TURN })
        } else {
            p0
        };
        let y0 = spec_atan2(v.z, v.x);
        let yaw = if y0.finite && y0.m < 0 {
            y0.spec_add(Fixed { finite: true, m: FULL_TURN })
        } else {
            y0
        };
        (Euler { p: pitch, y: yaw, r: Fixed::spec_zero() }).spec_normalized()
    }
}

/// The angle triple recovered from the direction vector `v` and a reference
/// up vector.
///
/// The left vector is the normalized cross product of the up reference with
/// the direction. With a non-negligible horizontal extent — more than a
/// thousandth of a unit — the yaw comes from the direction itself and the
/// roll from the left vector against the implied up component, derived
/// algebraically rather than by a second cross product. Otherwise the yaw is
/// recovered from the left vector and the roll is zero.
pub open spec fn spec_euler_angles_with_up(v: Vec3, up: Vec3) -> Euler {
    let left = up.spec_cross(v).spec_normalize();
    let distxz = spec_norm_xz(v);
    let pitch = spec_atan2(v.y.spec_neg(), distxz);
    if distxz.finite && distxz.m > 1000 {
        let up_y = v.x.spec_mul(left.z).spec_sub(v.z.spec_mul(left.x));
        (Euler {
            p: pitch,
            y: spec_atan2(v.z, v.x),
            r: spec_atan2(left.y, up_y),
        }).spec_normalized()
    } else {
        (Euler {
            p: pitch,
            y: spec_atan2(left.x.spec_neg(), left.z),
            r: Fixed::spec_zero(),
        }).spec_normalized()
    }
}

impl VectorAngles for Vec3 {
    fn euler_angles(&self) -> (e: Euler)
        ensures
            e == spec_euler_angles(*self),
            e.spec_all_finite(),
            e.r == Fixed::spec_zero(),
    {
        if self.x.finite && self.x.m == 0 && self.z.finite && self.z.m == 0 {
            let pitch = if self.y.finite && self.y.m > 0 {
                Fixed::from_micros(270_000_000)
            } else {
                Fixed::from_micros(90_000_000)
            };
            Euler::new(pitch, Fixed::zero(), Fixed::zero()).normalized()
        } else {
            let mut pitch = atan2(self.y.neg(), self.magnitude_xz());
            if pitch.finite && pitch.m < 0 {
                pitch = pitch.add(Fixed::from_micros(FULL_TURN));
            }
            let mut yaw = atan2(self.z, self.x);
            if yaw.finite && yaw.m < 0 {
                yaw = yaw.add(Fixed::from_micros(FULL_TURN));
            }
            Euler::new(pitch, yaw, Fixed::zero()).normalized()
        }
    }

    fn euler_angles_with_up(&self, up: &Vec3) -> (e: Euler)
        ensures
            e == spec_euler_angles_with_up(*self, *up),
            e.spec_all_finite(),
    {
        let left = up.cross(*self).normalize();
        let distxz = self.magnitude_xz();
        let pitch = atan2(self.y.neg(), distxz);
        if distxz.finite && distxz.m > 1000 {
            let up_y = self.x.mul(left.z).sub(self.z.mul(left.x));
            Euler::new(pitch, atan2(self.z, self.x), atan2(left.y, up_y)).normalized()
        } else {
            Euler::new(pitch, atan2(left.x.neg(), left.z), Fixed::zero()).normalized()
        }
    }
}

} // verus!
