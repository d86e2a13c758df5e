//! The Euler angle triple — pitch, yaw and roll, in degrees — together with
//! the orthonormal basis it induces and the overshoot-free orientation
//! interpolation.

use vstd::prelude::*;

use crate::IsFinite;
use crate::fixed::{Fixed, HALF_TURN, NormalizeAngle, spec_normalize_angle};
use crate::trig::{sin_cos, spec_cos, spec_sin};
use crate::vector3::{SwapYZ, Vec3, VectorAngles, spec_euler_angles};

verus! {

/// The orthonormal basis an orientation induces: its forward, right and up
/// unit vectors.
pub trait AngleVectors {
    /// Returns the forward vector for this angle
    fn forward(&self) -> Vec3;

    /// Returns the right vector for this angle
    fn right(&self) -> Vec3;

    /// Returns the up vector for this angle
    fn up(&self) -> Vec3;

    /// Returns forward, right and up vector (in this order) for this angle
    fn vectors(&self) -> (Vec3, Vec3, Vec3);
}

/// An orientation as pitch `p`, yaw `y` and roll `r`, each in degrees. No
/// range invariant is enforced at construction; [`Euler::normalized`] maps
/// each component into canonical range explicitly.
#[derive(Clone, Copy, Debug, PartialEq, Eq, Structural)]
pub struct Euler {
    pub p: Fixed,
    pub y: Fixed,
    pub r: Fixed,
}

impl Euler {
    /// All three components are finite.
    pub open spec fn spec_all_finite(self) -> bool {
        self.p.finite && self.y.finite && self.r.finite
    }

    /// The triple with each component in canonical angle range.
    pub open spec fn spec_normalized(self) -> Euler {
        Euler {
            p: spec_normalize_angle(self.p),
            y: spec_normalize_angle(self.y),
            r: spec_normalize_angle(self.r),
        }
    }

    #[inline]
    pub fn new(p: Fixed, y: Fixed, r: Fixed) -> (e: Euler)
        ensures
            e == (Euler { p, y, r }),
    {
        Euler { p, y, r }
    }

    /// Maps each component into canonical range, in place.
    pub fn normalize(&mut self)
        ensures
            *final(self) == old(self).spec_normalized(),
    {
        self.p = self.p.normalize_angle();
        self.y = self.y.normalize_angle();
        self.r = self.r.normalize_angle();
    }

    /// A copy of this triple with each component in canonical range. The
    /// result is always finite, component-wise within half a turn of zero.
    pub fn normalized(&self) -> (e: Euler)
        ensures
            e == self.spec_normalized(),
            e.spec_all_finite(),
            -HALF_TURN <= e.p.m <= HALF_TURN,
            -HALF_TURN <= e.y.m <= HALF_TURN,
            -HALF_TURN <= e.r.m <= HALF_TURN,
    {
        Euler {
            p: self.p.normalize_angle(),
            y: self.y.normalize_angle(),
            r: self.r.normalize_angle(),
        }
    }
}

impl Euler {
    /// The component-wise sum of two triples.
    pub open spec fn spec_add(self, o: Euler) -> Euler {
        Euler { p: self.p.spec_add(o.p), y: self.y.spec_add(o.y), r: self.r.spec_add(o.r) }
    }

    /// The component-wise difference of two triples.
    pub open spec fn spec_sub(self, o: Euler) -> Euler {
        Euler { p: self.p.spec_sub(o.p), y: self.y.spec_sub(o.y), r: self.r.spec_sub(o.r) }
    }

    /// The component-wise product of two triples.
    pub open spec fn spec_mul(self, o: Euler) -> Euler {
        Euler { p: self.p.spec_mul(o.p), y: self.y.spec_mul(o.y), r: self.r.spec_mul(o.r) }
    }

    /// The component-wise quotient of two triples.
    pub open spec fn spec_div(self, o: Euler) -> Euler {
        Euler { p: self.p.spec_div(o.p), y: self.y.spec_div(o.y), r: self.r.spec_div(o.r) }
    }

    /// The triple shifted by the scalar `s` on every component.
    pub open spec fn spec_add_scalar(self, s: Fixed) -> Euler {
        Euler { p: self.p.spec_add(s), y: self.y.spec_add(s), r: self.r.spec_add(s) }
    }

    /// The triple lowered by the scalar `s` on every component.
    pub open spec fn spec_sub_scalar(self, s: Fixed) -> Euler {
        Euler { p: self.p.spec_sub(s), y: self.y.spec_sub(s), r: self.r.spec_sub(s) }
    }

    /// The triple scaled by the scalar `s` on every component.
    pub open spec fn spec_mul_scalar(self, s: Fixed) -> Euler {
        Euler { p: self.p.spec_mul(s), y: self.y.spec_mul(s), r: self.r.spec_mul(s) }
    }

    /// The triple divided by the scalar `s` on every component.
    pub open spec fn spec_div_scalar(self, s: Fixed) -> Euler {
        Euler { p: self.p.spec_div(s), y: self.y.spec_div(s), r: self.r.spec_div(s) }
    }

    pub fn add(self, o: Euler) -> (e: Euler)
        ensures
            e == self.spec_add(o),
    {
        Euler { p: self.p.add(o.p), y: self.y.add(o.y), r: self.r.add(o.r) }
    }

    pub fn sub(self, o: Euler) -> (e: Euler)
        ensures
            e == self.spec_sub(o),
    {
        Euler { p: self.p.sub(o.p), y: self.y.sub(o.y), r: self.r.sub(o.r) }
    }

    pub fn mul(self, o: Euler) -> (e: Euler)
        ensures
            e == self.spec_mul(o),
    {
        Euler { p: self.p.mul(o.p), y: self.y.mul(o.y), r: self.r.mul(o.r) }
    }

    pub fn div(self, o: Euler) -> (e: Euler)
        ensures
            e == self.spec_div(o),
    {
        Euler { p: self.p.div(o.p), y: self.y.div(o.y), r: self.r.div(o.r) }
    }

    pub fn add_scalar(self, s: Fixed) -> (e: Euler)
        ensures
            e == self.spec_add_scalar(s),
    {
        Euler { p: self.p.add(s), y: self.y.add(s), r: self.r.add(s) }
    }

    pub fn sub_scalar(self, s: Fixed) -> (e: Euler)
        ensures
            e == self.spec_sub_scalar(s),
    {
        Euler { p: self.p.sub(s), y: self.y.sub(s), r: self.r.sub(s) }
    }

    pub fn mul_scalar(self, s: Fixed) -> (e: Euler)
        ensures
            e == self.spec_mul_scalar(s),
    {
        Euler { p: self.p.mul(s), y: self.y.mul(s), r: self.r.mul(s) }
    }

    pub fn div_scalar(self, s: Fixed) -> (e: Euler)
        ensures
            e == self.spec_div_scalar(s),
    {
        Euler { p: self.p.div(s), y: self.y.div(s), r: self.r.div(s) }
    }
}

/// Normalizing an angle triple twice gives the same triple as normalizing it
/// once.
pub proof fn lemma_normalized_idempotent(e: Euler)
    ensures
        e.spec_normalized().spec_normalized() == e.spec_normalized(),
{
    crate::fixed::lemma_normalize_angle_idempotent(e.p);
    crate::fixed::lemma_normalize_angle_idempotent(e.y);
    crate::fixed::lemma_normalize_angle_idempotent(e.r);
}

impl From<(Fixed, Fixed, Fixed)> for Euler {
    #[inline]
    fn from(value: (Fixed, Fixed, Fixed)) -> (e: Euler) {
        Euler { p: value.0, y: value.1, r: value.2 }
    }
}

impl vstd::std_specs::convert::FromSpecImpl<(Fixed, Fixed, Fixed)> for Euler {
    open spec fn obeys_from_spec() -> bool {
        true
    }

    open spec fn from_spec(value: (Fixed, Fixed, Fixed)) -> Euler {
        Euler { p: value.0, y: value.1, r: value.2 }
    }
}

impl IsFinite for Euler {
    fn is_finite(&self) -> (b: bool)
        ensures
            b == self.spec_all_finite(),
    {
        self.p.finite && self.y.finite && self.r.finite
    }
}

/// The forward vector of the orientation `e`, before normalization to unit
/// length: roll plays no part, and positive pitch tilts the view downward,
/// hence the negated pitch sine in the vertical slot. Components are in the
/// computation frame; the delivery frame swaps the second and third axes.
pub open spec fn spec_forward(e: Euler) -> Vec3 {
    let sp = spec_sin(e.p);
    let cp = spec_cos(e.p);
    let sy = spec_sin(e.y);
    let cy = spec_cos(e.y);
    (Vec3 { x: cp.spec_mul(cy), y: cp.spec_mul(sy), z: sp.spec_neg() })
        .spec_swap_yz().spec_normalize()
}

/// The right vector of the orientation `e`: the second row of the
/// pitch-yaw-roll rotation matrix, negated, with the axis swap applied.
pub open spec fn spec_right(e: Euler) -> Vec3 {
    let sp = spec_sin(e.p);
    let cp = spec_cos(e.p);
    let sy = spec_sin(e.y);
    let cy = spec_cos(e.y);
    let sr = spec_sin(e.r);
    let cr = spec_cos(e.r);
    (Vec3 {
        x: sr.spec_neg().spec_mul(sp).spec_mul(cy).spec_add(cr.spec_neg().spec_mul(sy.spec_neg())),
        y: sr.spec_neg().spec_mul(sp).spec_mul(sy).spec_add(cr.spec_neg().spec_mul(cy)),
        z: sr.spec_neg().spec_mul(cp),
    }).spec_swap_yz().spec_normalize()
}

/// The up vector of the orientation `e`: the third row of the
/// pitch-yaw-roll rotation matrix, with the axis swap applied.
pub open spec fn spec_up(e: Euler) -> Vec3 {
    let sp = spec_sin(e.p);
    let cp = spec_cos(e.p);
    let sy = spec_sin(e.y);
    let cy = spec_cos(e.y);
    let sr = spec_sin(e.r);
    let cr = spec_cos(e.r);
    (Vec3 {
        x: cr.spec_mul(sp).spec_mul(cy).spec_add(sr.spec_neg().spec_mul(sy.spec_neg())),
        y: cr.spec_mul(sp).spec_mul(sy).spec_add(sr.spec_neg().spec_mul(cy)),
        z: cr.spec_mul(cp),
    }).spec_swap_yz().spec_normalize()
}

impl AngleVectors for Euler {
    fn forward(&self) -> (v: Vec3)
        ensures
            v == spec_forward(*self),
    {
        let p = sin_cos(self.p);
        let y = sin_cos(self.y);
        Vec3::new(p.1.mul(y.1), p.1.mul(y.0), p.0.neg()).swap_yz().normalize()
    }

    fn right(&self) -> (v: Vec3)
        ensures
            v == spec_right(*self),
    {
        let p = sin_cos(self.p);
        let y = sin_cos(self.y);
        let r = sin_cos(self.r);
        Vec3::new(
            r.0.neg().mul(p.0).mul(y.1).add(r.1.neg().mul(y.0.neg())),
            r.0.neg().mul(p.0).mul(y.0).add(r.1.neg().mul(y.1)),
            r.0.neg().mul(p.1),
        ).swap_yz().normalize()
    }

    fn up(&self) -> (v: Vec3)
        ensures
            v == spec_up(*self),
    {
        let p = sin_cos(self.p);
        let y = sin_cos(self.y);
        let r = sin_cos(self.r);
        Vec3::new(
            r.1.mul(p.0).mul(y.1).add(r.0.neg().mul(y.0.neg())),
            r.1.mul(p.0).mul(y.0).add(r.0.neg().mul(y.1)),
            r.1.mul(p.1),
        ).swap_yz().normalize()
    }

    fn vectors(&self) -> (v: (Vec3, Vec3, Vec3))
        ensures
            v.0 == spec_forward(*self),
            v.1 == spec_right(*self),
            v.2 == spec_up(*self),
    {
        (self.forward(), self.right(), self.up())
    }
}

/// The interpolation guard: holds when the step from `from` toward `to`
/// degenerates below the fixed-point resolution, overshoots the remaining
/// distance, or is not finite. In every such case the interpolation snaps to
/// the target.
pub open spec fn spec_lerp_snaps(from: Euler, to: Euler, amount: Fixed) -> bool {
    let v1 = spec_forward(from).spec_normalize();
    let v2 = spec_forward(to).spec_normalize();
    let delta0 = v2.spec_sub(v1);
    let mag = delta0.spec_magnitude();
    let new_mag = delta0.spec_div_scalar(amount).spec_magnitude();
    !new_mag.finite || !mag.finite || new_mag.m < 1 || new_mag.m > mag.m
}

/// The interpolated orientation: the forward direction of `from` stepped
/// toward the forward direction of `to` by the chord divided by `amount`,
/// recovered back into angles and normalized; or `to` itself whenever the
/// guard snaps.
pub open spec fn spec_lerp(from: Euler, to: Euler, amount: Fixed) -> Euler {
    if spec_lerp_snaps(from, to, amount) {
        to
    } else {
        let v1 = spec_forward(from).spec_normalize();
        let v2 = spec_forward(to).spec_normalize();
        let delta = v2.spec_sub(v1).spec_div_scalar(amount);
        let out = spec_euler_angles(v1.spec_add(delta)).spec_normalized();
        if !out.spec_all_finite() {
            to
        } else {
            out
        }
    }
}

impl Euler {
    /// Interpolates from this orientation toward `other` by moving along the
    /// forward-direction sphere rather than the raw angle values, avoiding
    /// wrap-around artifacts. `amount` divides the step: larger values take
    /// smaller steps, and callers typically pass values above one. When the
    /// step degenerates, overshoots the remaining distance or is not finite,
    /// and when the recovered triple is not finite, the result is `other`
    /// itself, so the interpolation never yields a malformed orientation.
    pub fn lerp(&self, other: &Euler, amount: Fixed) -> (out: Euler)
        ensures
            out == spec_lerp(*self, *other, amount),
            spec_lerp_snaps(*self, *other, amount) ==> out == *other,
            other.spec_all_finite() ==> out.spec_all_finite(),
    {
        let v1 = self.forward().normalize();
        let v2 = other.forward().normalize();
        let delta0 = v2.sub(v1);
        let mag = delta0.magnitude();
        let delta = delta0.div_scalar(amount);
        let new_mag = delta.magnitude();
        if !new_mag.finite || !mag.finite || new_mag.m < 1 || new_mag.m > mag.m {
            *other
        } else {
            let t = v1.add(delta);
            let out = t.euler_angles().normalized();
            if !out.is_finite() {
                *other
            } else {
                out
            }
        }
    }
}

} // verus!
