//! The fixed-point scalar that carries every quantity in this library.
//!
//! A [`Fixed`] counts millionths of a unit in a signed 64-bit mantissa and
//! carries an explicit finiteness flag. Arithmetic is exact: each operation
//! states, as its contract, precisely which integer its result holds. An
//! operation whose exact result would not fit the mantissa yields the
//! non-finite value, the role NaN and the infinities play for machine floats,
//! and every operation propagates non-finiteness.

use vstd::arithmetic::div_mod::lemma_fundamental_div_mod;
use vstd::math::abs;
use vstd::prelude::*;

use crate::IsFinite;

verus! {

/// Fixed-point steps per unit: values are counted in millionths.
pub const SCALE: i64 = 1_000_000;

/// Half a turn (180 degrees), in fixed-point degrees.
pub const HALF_TURN: i64 = 180_000_000;

/// A full turn (360 degrees), in fixed-point degrees.
pub const FULL_TURN: i64 = 360_000_000;

/// An exact fixed-point scalar. When `finite` holds the value is `m`
/// millionths of a unit; otherwise the scalar is non-finite and `m` is zero
/// by convention.
#[derive(Clone, Copy, Debug, PartialEq, Eq, Structural)]
pub struct Fixed {
    pub finite: bool,
    pub m: i64,
}

impl Fixed {
    /// The non-finite scalar.
    pub open spec fn spec_non_finite() -> Fixed {
        Fixed { finite: false, m: 0 }
    }

    /// The finite scalar of value zero.
    pub open spec fn spec_zero() -> Fixed {
        Fixed { finite: true, m: 0 }
    }

    /// The finite scalar holding exactly `v` millionths when `v` is
    /// representable, and the non-finite scalar otherwise. The representable
    /// mantissas are kept symmetric about zero.
    pub open spec fn spec_from_exact(v: int) -> Fixed {
        if -i64::MAX <= v <= i64::MAX {
            Fixed { finite: true, m: v as i64 }
        } else {
            Fixed { finite: false, m: 0 }
        }
    }

    pub fn non_finite() -> (r: Fixed)
        ensures
            r == Fixed::spec_non_finite(),
    {
        Fixed { finite: false, m: 0 }
    }

    pub fn zero() -> (r: Fixed)
        ensures
            r == Fixed::spec_zero(),
    {
        Fixed { finite: true, m: 0 }
    }

    /// The finite scalar of `m` millionths of a unit.
    pub fn from_micros(m: i64) -> (r: Fixed)
        ensures
            r == (Fixed { finite: true, m }),
    {
        Fixed { finite: true, m }
    }

    /// The finite scalar of `d` whole units, when representable.
    pub fn from_int(d: i64) -> (r: Fixed)
        ensures
            r == Fixed::spec_from_exact(d * SCALE),
    {
        let wide: i128 = (d as i128) * 1_000_000;
        if -(i64::MAX as i128) <= wide && wide <= i64::MAX as i128 {
            Fixed { finite: true, m: wide as i64 }
        } else {
            Fixed { finite: false, m: 0 }
        }
    }
}

/// The magnitude of `m` as an unsigned 64-bit integer; total, also at the
/// extreme negative mantissa.
pub(crate) fn abs_u64(m: i64) -> (r: u64)
    ensures
        r as int == abs(m as int),
{
    if m >= 0 {
        m as u64
    } else {
        (-(m as i128)) as u64
    }
}

impl Fixed {
    /// The additive inverse.
    pub open spec fn spec_neg(self) -> Fixed {
        if self.finite {
            Fixed::spec_from_exact(-self.m)
        } else {
            Fixed::spec_non_finite()
        }
    }

    /// The exact sum, non-finite on overflow.
    pub open spec fn spec_add(self, o: Fixed) -> Fixed {
        if self.finite && o.finite {
            Fixed::spec_from_exact(self.m + o.m)
        } else {
            Fixed::spec_non_finite()
        }
    }

    /// The exact difference, non-finite on overflow.
    pub open spec fn spec_sub(self, o: Fixed) -> Fixed {
        if self.finite && o.finite {
            Fixed::spec_from_exact(self.m - o.m)
        } else {
            Fixed::spec_non_finite()
        }
    }

    /// The product, truncated toward zero at the fixed-point resolution.
    pub open spec fn spec_mul(self, o: Fixed) -> Fixed {
        if self.finite && o.finite {
            let p = ((abs(self.m as int) * abs(o.m as int)) as int) / 1_000_000;
            if (self.m < 0) != (o.m < 0) {
                Fixed::spec_from_exact(-p)
            } else {
                Fixed::spec_from_exact(p)
            }
        } else {
            Fixed::spec_non_finite()
        }
    }

    /// The quotient, truncated toward zero at the fixed-point resolution.
    /// Division by zero or by a non-finite scalar is non-finite, the role
    /// division by zero plays for machine floats.
    pub open spec fn spec_div(self, o: Fixed) -> Fixed {
        if self.finite && o.finite && o.m != 0 {
            let q = ((abs(self.m as int) * 1_000_000) as int) / (abs(o.m as int) as int);
            if (self.m < 0) != (o.m < 0) {
                Fixed::spec_from_exact(-q)
            } else {
                Fixed::spec_from_exact(q)
            }
        } else {
            Fixed::spec_non_finite()
        }
    }

    pub fn neg(self) -> (r: Fixed)
        ensures
            r == self.spec_neg(),
    {
        if self.finite {
            if self.m == i64::MIN {
                Fixed::non_finite()
            } else {
                Fixed { finite: true, m: -self.m }
            }
        } else {
            Fixed::non_finite()
        }
    }

    pub fn add(self, o: Fixed) -> (r: Fixed)
        ensures
            r == self.spec_add(o),
    {
        if self.finite && o.finite {
            let s: i128 = self.m as i128 + o.m as i128;
            if -(i64::MAX as i128) <= s && s <= i64::MAX as i128 {
                Fixed { finite: true, m: s as i64 }
            } else {
                Fixed::non_finite()
            }
        } else {
            Fixed::non_finite()
        }
    }

    pub fn sub(self, o: Fixed) -> (r: Fixed)
        ensures
            r == self.spec_sub(o),
    {
        if self.finite && o.finite {
            let s: i128 = self.m as i128 - o.m as i128;
            if -(i64::MAX as i128) <= s && s <= i64::MAX as i128 {
                Fixed { finite: true, m: s as i64 }
            } else {
                Fixed::non_finite()
            }
        } else {
            Fixed::non_finite()
        }
    }

    pub fn mul(self, o: Fixed) -> (r: Fixed)
        ensures
            r == self.spec_mul(o),
    {
        if self.finite && o.finite {
            let am = abs_u64(self.m);
            let bm = abs_u64(o.m);
            proof {
                assert((am as int) * (bm as int) <= u128::MAX) by (nonlinear_arith)
                    requires
                        am as int <= 0x8000_0000_0000_0000,
                        bm as int <= 0x8000_0000_0000_0000,
                ;
            }
            let p: u128 = (am as u128) * (bm as u128);
            let q: u128 = p / 1_000_000;
            let neg = (self.m < 0) != (o.m < 0);
            if q <= i64::MAX as u128 {
                let qi = q as i64;
                Fixed { finite: true, m: if neg { -qi } else { qi } }
            } else {
                Fixed::non_finite()
            }
        } else {
            Fixed::non_finite()
        }
    }

    pub fn div(self, o: Fixed) -> (r: Fixed)
        ensures
            r == self.spec_div(o),
    {
        if self.finite && o.finite && o.m != 0 {
            let am = abs_u64(self.m);
            let bm = abs_u64(o.m);
            let p: u128 = (am as u128) * 1_000_000;
            let q: u128 = p / (bm as u128);
            let neg = (self.m < 0) != (o.m < 0);
            if q <= i64::MAX as u128 {
                let qi = q as i64;
                Fixed { finite: true, m: if neg { -qi } else { qi } }
            } else {
                Fixed::non_finite()
            }
        } else {
            Fixed::non_finite()
        }
    }
}

/// The integer square root of `n`: the greatest integer whose square does
/// not exceed `n`.
pub open spec fn sqrt_floor(n: nat) -> nat
    decreases n,
{
    if n == 0 {
        0
    } else {
        let r = sqrt_floor((n - 1) as nat);
        if (r + 1) * (r + 1) <= n {
            r + 1
        } else {
            r
        }
    }
}

/// The integer square root is characterized by the two bounds
/// `r * r <= n < (r + 1) * (r + 1)`.
pub proof fn lemma_sqrt_floor_bounds(n: nat)
    ensures
        sqrt_floor(n) * sqrt_floor(n) <= n,
        n < (sqrt_floor(n) + 1) * (sqrt_floor(n) + 1),
    decreases n,
{
    if n > 0 {
        lemma_sqrt_floor_bounds((n - 1) as nat);
        let r = sqrt_floor((n - 1) as nat);
        assert(r * r <= n - 1 && n - 1 < (r + 1) * (r + 1));
        if (r + 1) * (r + 1) <= n {
            let s = sqrt_floor(n);
            assert(s == r + 1);
            assert(n == (r + 1) * (r + 1));
            assert(n < (s + 1) * (s + 1)) by (nonlinear_arith)
                requires
                    n == (r + 1) * (r + 1),
                    s == r + 1,
            ;
            assert(sqrt_floor(n) * sqrt_floor(n) <= n);
        } else {
            let s = sqrt_floor(n);
            assert(s == r);
            assert(n < (s + 1) * (s + 1)) by (nonlinear_arith)
                requires
                    n < (r + 1) * (r + 1),
                    s == r,
            ;
            assert(s * s <= n) by (nonlinear_arith)
                requires
                    r * r <= n - 1,
                    n >= 1,
                    s == r,
            ;
        }
    } else {
        let s = sqrt_floor(n);
        assert(s == 0);
        assert(s * s <= n && n < (s + 1) * (s + 1)) by (nonlinear_arith)
            requires
                n == 0,
                s == 0,
        ;
    }
}

/// Any integer satisfying the square-root bounds is the integer square root.
pub proof fn lemma_sqrt_floor_unique(n: nat, r: nat)
    requires
        r * r <= n,
        n < (r + 1) * (r + 1),
    ensures
        r == sqrt_floor(n),
{
    lemma_sqrt_floor_bounds(n);
    let s = sqrt_floor(n);
    if r < s {
        assert((r + 1) * (r + 1) <= s * s) by (nonlinear_arith)
            requires
                r + 1 <= s,
        ;
    } else if s < r {
        assert((s + 1) * (s + 1) <= r * r) by (nonlinear_arith)
            requires
                s + 1 <= r,
        ;
    }
}

/// The integer square root of a 128-bit integer, by bisection.
pub fn isqrt_u128(n: u128) -> (r: u64)
    requires
        n < (u64::MAX as int) * (u64::MAX as int),
    ensures
        r as nat == sqrt_floor(n as nat),
{
    let mut lo: u64 = 0;
    let mut hi: u64 = u64::MAX;
    while lo + 1 < hi
        invariant
            lo < hi,
            (lo as int) * (lo as int) <= n as int,
            (n as int) < (hi as int) * (hi as int),
        decreases hi - lo,
    {
        let mid: u64 = lo + (hi - lo) / 2;
        proof {
            assert((mid as int) * (mid as int) <= u128::MAX) by (nonlinear_arith)
                requires
                    mid as int <= u64::MAX,
            ;
        }
        let sq: u128 = (mid as u128) * (mid as u128);
        if sq <= n {
            lo = mid;
        } else {
            hi = mid;
        }
    }
    proof {
        lemma_sqrt_floor_unique(n as nat, lo as nat);
    }
    lo
}

impl Fixed {
    /// The square root, truncated at the fixed-point resolution. Non-finite
    /// for a negative scalar, the role the square root of a negative number
    /// plays for machine floats.
    pub open spec fn spec_sqrt(self) -> Fixed {
        if !self.finite || self.m < 0 {
            Fixed::spec_non_finite()
        } else {
            Fixed::spec_from_exact(sqrt_floor((self.m * 1_000_000) as nat) as int)
        }
    }

    /// The square root of a nonnegative finite scalar is finite, and its
    /// mantissa is the greatest whose square does not exceed the radicand
    /// brought to the squared fixed-point resolution.
    pub proof fn lemma_sqrt_characterization(self)
        requires
            self.finite,
            self.m >= 0,
        ensures
            self.spec_sqrt().finite,
            self.spec_sqrt().m * self.spec_sqrt().m <= self.m * 1_000_000,
            self.m * 1_000_000 < (self.spec_sqrt().m + 1) * (self.spec_sqrt().m + 1),
    {
        let n = (self.m * 1_000_000) as nat;
        assert(0 <= self.m * 1_000_000 <= 9_223_372_036_854_775_807_000_000);
        lemma_sqrt_floor_bounds(n);
        let s = sqrt_floor(n);
        assert(s <= i64::MAX) by (nonlinear_arith)
            requires
                s * s <= n,
                n <= 9_223_372_036_854_775_807_000_000,
        ;
    }

    pub fn sqrt(self) -> (r: Fixed)
        ensures
            r == self.spec_sqrt(),
    {
        if !self.finite || self.m < 0 {
            Fixed::non_finite()
        } else {
            let n: u128 = (self.m as u128) * 1_000_000;
            let s: u64 = isqrt_u128(n);
            proof {
                lemma_sqrt_floor_bounds(n as nat);
                assert(s as int <= i64::MAX) by (nonlinear_arith)
                    requires
                        (s as int) * (s as int) <= n as int,
                        n as int <= 9_223_372_036_854_775_807_000_000,
                ;
            }
            Fixed { finite: true, m: s as i64 }
        }
    }
}

impl IsFinite for Fixed {
    fn is_finite(&self) -> (r: bool)
        ensures
            r == self.finite,
    {
        self.finite
    }
}

/// Maps an angle in degrees into the canonical range of minus half a turn to
/// half a turn.
pub trait NormalizeAngle {
    fn normalize_angle(self) -> Self;
}

/// The canonical form of the angle `a`, in fixed-point degrees.
///
/// A non-finite angle yields zero, a deliberate defensive policy rather than
/// an error path. An angle already within half a turn of zero is returned
/// unchanged, so that exact boundary values such as half a turn keep their
/// sign. Any other angle is shifted by the whole number of turns nearest to
/// its magnitude: the quotient below rounds to nearest, ties away from zero.
pub open spec fn spec_normalize_angle(a: Fixed) -> Fixed {
    if !a.finite {
        Fixed::spec_zero()
    } else if -HALF_TURN <= a.m <= HALF_TURN {
        a
    } else {
        let rots = (abs(a.m as int) + 180_000_000) / 360_000_000;
        if a.m < 0 {
            Fixed { finite: true, m: (a.m + 360_000_000 * rots) as i64 }
        } else {
            Fixed { finite: true, m: (a.m - 360_000_000 * rots) as i64 }
        }
    }
}

/// The canonical form of an angle is always finite and within half a turn of
/// zero, and a non-finite angle canonicalizes to zero.
pub proof fn lemma_normalize_angle_in_range(a: Fixed)
    ensures
        spec_normalize_angle(a).finite,
        -HALF_TURN <= spec_normalize_angle(a).m <= HALF_TURN,
        !a.finite ==> spec_normalize_angle(a).m == 0,
{
    if a.finite && !(-HALF_TURN <= a.m <= HALF_TURN) {
        let av = abs(a.m as int) as int;
        let rots = (av + 180_000_000) / 360_000_000;
        lemma_fundamental_div_mod(av + 180_000_000, 360_000_000);
        assert(0 <= (av + 180_000_000) % 360_000_000 < 360_000_000);
        assert(-180_000_000 <= av - 360_000_000 * rots <= 180_000_000);
    }
}

/// Canonicalizing an angle twice gives the same result as canonicalizing it
/// once: normalization is idempotent.
pub proof fn lemma_normalize_angle_idempotent(a: Fixed)
    ensures
        spec_normalize_angle(spec_normalize_angle(a)) == spec_normalize_angle(a),
{
    lemma_normalize_angle_in_range(a);
}

impl NormalizeAngle for Fixed {
    fn normalize_angle(self) -> (r: Fixed)
        ensures
            r == spec_normalize_angle(self),
            r.finite,
            -HALF_TURN <= r.m <= HALF_TURN,
            !self.finite ==> r.m == 0,
    {
        proof {
            lemma_normalize_angle_in_range(self);
        }
        if !self.finite {
            Fixed { finite: true, m: 0 }
        } else if -HALF_TURN <= self.m && self.m <= HALF_TURN {
            self
        } else {
            let av: u64 = if self.m >= 0 {
                self.m as u64
            } else {
                (-(self.m as i128)) as u64
            };
            let rots: u64 = (av + 180_000_000) / 360_000_000;
            proof {
                lemma_fundamental_div_mod(av as int + 180_000_000, 360_000_000);
            }
            let shift: u64 = rots * 360_000_000;
            let wide: i128 = if self.m < 0 {
                self.m as i128 + shift as i128
            } else {
                self.m as i128 - shift as i128
            };
            Fixed { finite: true, m: wide as i64 }
        }
    }
}

} // verus!
