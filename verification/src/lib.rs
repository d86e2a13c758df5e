//! A small 3D-orientation math library: Euler angle triples (pitch/yaw/roll,
//! in degrees), the forward/right/up basis vectors they induce, recovery of
//! angles from a direction vector, and overshoot-free interpolation between
//! two orientations.
//!
//! All quantities are carried by [`fixed::Fixed`], an exact fixed-point
//! scalar with one millionth of a unit of resolution and an explicit
//! non-finite state, so that every algorithm here is verified down to the
//! arithmetic it performs.

use vstd::prelude::*;

pub mod euler;
pub mod fixed;
pub mod trig;
pub mod vector3;

pub use crate::euler::{AngleVectors, Euler};
pub use crate::fixed::{FULL_TURN, Fixed, HALF_TURN, NormalizeAngle, SCALE};
pub use crate::trig::{EIGHTH_TURN, QUARTER_TURN};
pub use crate::vector3::{Magnitude2D, SwapYZ, Vec3, VectorAngles};

verus! {

/// A value that can report whether it is finite: the non-finite state plays
/// the role that NaN and the infinities play for machine floating point.
pub trait IsFinite {
    fn is_finite(&self) -> bool;
}

} // verus!
