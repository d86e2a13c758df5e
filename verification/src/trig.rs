//! Fixed-point trigonometric kernels: sine, cosine and the two-argument
//! arctangent, in degrees.
//!
//! The kernels are rational approximations evaluated in exact integer
//! arithmetic, so each function's contract states the exact integer it
//! returns. The sine kernel is the classical rational approximation
//! `sin x ~= 4x(180 - x) / (40500 - x(180 - x))` for `x` between 0 and 180
//! degrees, which is exact at 0, 90 and 180 degrees and within two
//! thousandths elsewhere. The arctangent kernel is the polynomial
//! approximation `atan t ~= 45t + t(1 - t)(c1 + c2 t)` degrees for the ratio
//! `t` between 0 and 1, exact at 0 and 1 and within a tenth of a degree
//! elsewhere.

use vstd::arithmetic::div_mod::{lemma_div_multiples_vanish, lemma_div_of0, lemma_div_pos_is_pos};
use vstd::math::abs;
use vstd::prelude::*;

use crate::fixed::{abs_u64, Fixed, HALF_TURN, NormalizeAngle, SCALE, spec_normalize_angle};

verus! {

/// A quarter turn (90 degrees), in fixed-point degrees.
pub const QUARTER_TURN: i64 = 90_000_000;

/// An eighth of a turn (45 degrees), in fixed-point degrees.
pub const EIGHTH_TURN: i64 = 45_000_000;

/// The sine denominator constant 40500 (square degrees), at fixed-point
/// resolution on both factors.
pub const SIN_DEN: u128 = 40_500_000_000_000_000;

/// The quotient is at most `c` when the dividend is at most `c` times the
/// divisor.
proof fn lemma_div_at_most(a: int, b: int, c: int) by (nonlinear_arith)
    requires
        b > 0,
        0 <= a,
        a <= c * b,
    ensures
        a / b <= c,
{
}

/// The sine of `x` fixed-point degrees, for `x` between zero and half a
/// turn, in fixed-point steps.
pub open spec fn spec_sin_half_turn(x: int) -> int {
    let p = x * (HALF_TURN - x);
    (4_000_000 * p) / (40_500_000_000_000_000 - p)
}

/// The sine kernel stays between 0 and 1 and is exact at 0, 90 and 180
/// degrees.
pub proof fn lemma_sin_half_turn_range(x: int)
    requires
        0 <= x <= HALF_TURN,
    ensures
        0 <= spec_sin_half_turn(x) <= SCALE,
        x == 0 ==> spec_sin_half_turn(x) == 0,
        x == HALF_TURN ==> spec_sin_half_turn(x) == 0,
        x == QUARTER_TURN ==> spec_sin_half_turn(x) == SCALE,
{
    let p = x * (HALF_TURN - x);
    assert(0 <= p && p <= 8_100_000_000_000_000) by (nonlinear_arith)
        requires
            0 <= x <= HALF_TURN,
            p == x * (HALF_TURN - x),
    ;
    let num = 4_000_000 * p;
    let den = 40_500_000_000_000_000 - p;
    lemma_div_pos_is_pos(num, den);
    lemma_div_at_most(num, den, 1_000_000);
    if x == 0 || x == HALF_TURN {
        assert(p == 0) by (nonlinear_arith)
            requires
                p == x * (HALF_TURN - x),
                x == 0 || x == HALF_TURN,
        ;
        lemma_div_of0(den);
    }
    if x == QUARTER_TURN {
        assert(p == 8_100_000_000_000_000) by (nonlinear_arith)
            requires
                p == x * (HALF_TURN - x),
                x == QUARTER_TURN as int,
        ;
        assert(num == den * 1_000_000);
        lemma_div_multiples_vanish(1_000_000, den);
    }
}

/// The sine of `x` fixed-point degrees, for `x` between zero and half a
/// turn.
fn sin_kernel(x: i64) -> (r: i64)
    requires
        0 <= x <= HALF_TURN,
    ensures
        r as int == spec_sin_half_turn(x as int),
        0 <= r <= SCALE,
{
    proof {
        lemma_sin_half_turn_range(x as int);
        assert(0 <= (x as int) * ((HALF_TURN - x) as int) <= 8_100_000_000_000_000)
            by (nonlinear_arith)
            requires
                0 <= x as int <= HALF_TURN as int,
        ;
    }
    let p: u128 = (x as u128) * ((HALF_TURN - x) as u128);
    let num: u128 = 4_000_000 * p;
    let den: u128 = SIN_DEN - p;
    let q: u128 = num / den;
    q as i64
}

/// The sine of the angle `a`, in degrees: the angle is first brought into
/// canonical range, then folded onto the non-negative half turn by oddness.
pub open spec fn spec_sin(a: Fixed) -> Fixed {
    if !a.finite {
        Fixed::spec_non_finite()
    } else {
        let n = spec_normalize_angle(a).m as int;
        if n >= 0 {
            Fixed { finite: true, m: spec_sin_half_turn(n) as i64 }
        } else {
            Fixed { finite: true, m: (-spec_sin_half_turn(-n)) as i64 }
        }
    }
}

/// The cosine of the angle `a`, in degrees: the cosine is the sine of the
/// complement of the angle's magnitude.
pub open spec fn spec_cos(a: Fixed) -> Fixed {
    if !a.finite {
        Fixed::spec_non_finite()
    } else {
        let n = spec_normalize_angle(a).m as int;
        let c = if n >= 0 {
            QUARTER_TURN - n
        } else {
            QUARTER_TURN + n
        };
        if c >= 0 {
            Fixed { finite: true, m: spec_sin_half_turn(c) as i64 }
        } else {
            Fixed { finite: true, m: (-spec_sin_half_turn(-c)) as i64 }
        }
    }
}

/// The sine of the angle `a` in degrees; non-finite for a non-finite angle.
pub fn sin(a: Fixed) -> (r: Fixed)
    ensures
        r == spec_sin(a),
        r.finite == a.finite,
        r.finite ==> -SCALE <= r.m <= SCALE,
{
    if !a.finite {
        return Fixed::non_finite();
    }
    let n = a.normalize_angle();
    if n.m >= 0 {
        let s = sin_kernel(n.m);
        Fixed { finite: true, m: s }
    } else {
        proof {
            lemma_sin_half_turn_range(-n.m as int);
        }
        let s = sin_kernel(-n.m);
        Fixed { finite: true, m: -s }
    }
}

/// The cosine of the angle `a` in degrees; non-finite for a non-finite
/// angle.
pub fn cos(a: Fixed) -> (r: Fixed)
    ensures
        r == spec_cos(a),
        r.finite == a.finite,
        r.finite ==> -SCALE <= r.m <= SCALE,
{
    if !a.finite {
        return Fixed::non_finite();
    }
    let n = a.normalize_angle();
    let c = if n.m >= 0 {
        QUARTER_TURN - n.m
    } else {
        QUARTER_TURN + n.m
    };
    if c >= 0 {
        let s = sin_kernel(c);
        Fixed { finite: true, m: s }
    } else {
        proof {
            lemma_sin_half_turn_range(-c as int);
        }
        let s = sin_kernel(-c);
        Fixed { finite: true, m: -s }
    }
}

/// The sine and the cosine of the angle `a`, in that order.
pub fn sin_cos(a: Fixed) -> (r: (Fixed, Fixed))
    ensures
        r.0 == spec_sin(a),
        r.1 == spec_cos(a),
{
    (sin(a), cos(a))
}

/// The arctangent of the ratio `t`, given in fixed-point steps of one unit,
/// in fixed-point degrees.
pub open spec fn spec_atan_unit(t: int) -> int {
    let c = 14_020_000 + (3_799_000 * t) / 1_000_000;
    45 * t + (t * (1_000_000 - t) * c) / 1_000_000_000_000
}

/// The arctangent kernel stays between 0 and 45 degrees over ratios between
/// 0 and 1, and is exact at both ends.
pub proof fn lemma_atan_unit_range(t: int)
    requires
        0 <= t <= 1_000_000,
    ensures
        0 <= spec_atan_unit(t) <= EIGHTH_TURN,
        t == 0 ==> spec_atan_unit(t) == 0,
        t == 1_000_000 ==> spec_atan_unit(t) == EIGHTH_TURN,
{
    let c = 14_020_000 + (3_799_000 * t) / 1_000_000;
    lemma_div_pos_is_pos(3_799_000 * t, 1_000_000);
    lemma_div_at_most(3_799_000 * t, 1_000_000, 3_799_000);
    let w = t * (1_000_000 - t) * c;
    assert(0 <= w && w <= (1_000_000 - t) * 45_000_000_000_000) by (nonlinear_arith)
        requires
            0 <= t <= 1_000_000,
            14_020_000 <= c <= 17_819_000,
            w == t * (1_000_000 - t) * c,
    ;
    lemma_div_pos_is_pos(w, 1_000_000_000_000);
    lemma_div_at_most(w, 1_000_000_000_000, 45 * (1_000_000 - t));
    if t == 0 || t == 1_000_000 {
        assert(w == 0) by (nonlinear_arith)
            requires
                w == t * (1_000_000 - t) * c,
                t == 0 || t == 1_000_000,
        ;
        lemma_div_of0(1_000_000_000_000);
    }
}

/// The arctangent of the ratio `t`, for `t` between zero and one unit.
fn atan_unit(t: i64) -> (r: i64)
    requires
        0 <= t <= SCALE,
    ensures
        r as int == spec_atan_unit(t as int),
        0 <= r <= EIGHTH_TURN,
{
    proof {
        lemma_atan_unit_range(t as int);
        let ti = t as int;
        let ui = (SCALE - t) as int;
        let ci = 14_020_000 + (3_799_000 * ti) / 1_000_000;
        lemma_div_pos_is_pos(3_799_000 * ti, 1_000_000);
        lemma_div_at_most(3_799_000 * ti, 1_000_000, 3_799_000);
        assert(0 <= ti * ui <= 1_000_000_000_000) by (nonlinear_arith)
            requires
                0 <= ti <= 1_000_000,
                0 <= ui <= 1_000_000,
        ;
        assert(0 <= ti * ui * ci <= 17_819_000_000_000_000_000) by (nonlinear_arith)
            requires
                0 <= ti * ui <= 1_000_000_000_000,
                0 <= ci <= 17_819_000,
        ;
    }
    let c: u128 = 14_020_000 + (3_799_000 * (t as u128)) / 1_000_000;
    let w: u128 = (t as u128) * ((SCALE - t) as u128) * c;
    let bump: u128 = w / 1_000_000_000_000;
    45 * t + (bump as i64)
}

/// The two-argument arctangent of the point `(x, y)` given by its raw
/// fixed-point mantissas, in fixed-point degrees: the angle from the
/// positive `x` axis, counted counter-clockwise in the upper half plane and
/// clockwise (negative) in the lower. The origin itself maps to zero.
pub open spec fn spec_atan2_m(y: int, x: int) -> int {
    if x == 0 && y == 0 {
        0
    } else {
        let ay = abs(y) as int;
        let ax = abs(x) as int;
        let a1 = if ay <= ax {
            spec_atan_unit((ay * 1_000_000) / ax)
        } else {
            QUARTER_TURN - spec_atan_unit((ax * 1_000_000) / ay)
        };
        let a2 = if x >= 0 {
            a1
        } else {
            HALF_TURN - a1
        };
        if y >= 0 {
            a2
        } else {
            -a2
        }
    }
}

/// The two-argument arctangent stays within half a turn of zero, keeps the
/// sign of `y`, and is exact on the axes and on the diagonals.
pub proof fn lemma_atan2_m_props(y: int, x: int)
    ensures
        -HALF_TURN <= spec_atan2_m(y, x) <= HALF_TURN,
        y > 0 ==> 0 <= spec_atan2_m(y, x),
        y < 0 ==> spec_atan2_m(y, x) <= 0,
        y == 0 && x >= 0 ==> spec_atan2_m(y, x) == 0,
        y == 0 && x < 0 ==> spec_atan2_m(y, x) == HALF_TURN,
        x == 0 && y > 0 ==> spec_atan2_m(y, x) == QUARTER_TURN,
        x == 0 && y < 0 ==> spec_atan2_m(y, x) == -QUARTER_TURN,
        y == x && x > 0 ==> spec_atan2_m(y, x) == EIGHTH_TURN,
        y == -x && x > 0 ==> spec_atan2_m(y, x) == -EIGHTH_TURN,
        y == x && x < 0 ==> spec_atan2_m(y, x) == -(HALF_TURN - EIGHTH_TURN),
        y == -x && x < 0 ==> spec_atan2_m(y, x) == HALF_TURN - EIGHTH_TURN,
{
    if !(x == 0 && y == 0) {
        let ay = abs(y) as int;
        let ax = abs(x) as int;
        if ay <= ax {
            let t = (ay * 1_000_000) / ax;
            lemma_div_pos_is_pos(ay * 1_000_000, ax);
            lemma_div_at_most(ay * 1_000_000, ax, 1_000_000);
            lemma_atan_unit_range(t);
            if ay == 0 {
                lemma_div_of0(ax);
            }
            if ay == ax {
                lemma_div_multiples_vanish(1_000_000, ax);
                assert(ax * 1_000_000 == ay * 1_000_000);
                assert(t == 1_000_000);
            }
        } else {
            let t = (ax * 1_000_000) / ay;
            lemma_div_pos_is_pos(ax * 1_000_000, ay);
            lemma_div_at_most(ax * 1_000_000, ay, 1_000_000);
            lemma_atan_unit_range(t);
            if ax == 0 {
                lemma_div_of0(ay);
            }
        }
    }
}

/// The two-argument arctangent over raw fixed-point mantissas.
pub(crate) fn atan2_m(y: i64, x: i64) -> (r: i64)
    ensures
        r as int == spec_atan2_m(y as int, x as int),
        -HALF_TURN <= r <= HALF_TURN,
{
    proof {
        lemma_atan2_m_props(y as int, x as int);
    }
    if x == 0 && y == 0 {
        return 0;
    }
    let ay: u64 = abs_u64(y);
    let ax: u64 = abs_u64(x);
    let a1: i64 = if ay <= ax {
        proof {
            lemma_div_pos_is_pos(ay as int * 1_000_000, ax as int);
            lemma_div_at_most(ay as int * 1_000_000, ax as int, 1_000_000);
        }
        let t = ((ay as u128 * 1_000_000) / (ax as u128)) as i64;
        atan_unit(t)
    } else {
        proof {
            lemma_div_pos_is_pos(ax as int * 1_000_000, ay as int);
            lemma_div_at_most(ax as int * 1_000_000, ay as int, 1_000_000);
        }
        let t = ((ax as u128 * 1_000_000) / (ay as u128)) as i64;
        QUARTER_TURN - atan_unit(t)
    };
    let a2: i64 = if x >= 0 {
        a1
    } else {
        HALF_TURN - a1
    };
    if y >= 0 {
        a2
    } else {
        -a2
    }
}

/// The two-argument arctangent of finite scalars, in degrees; non-finite if
/// either argument is non-finite, as machine floats would propagate NaN.
pub open spec fn spec_atan2(y: Fixed, x: Fixed) -> Fixed {
    if !y.finite || !x.finite {
        Fixed::spec_non_finite()
    } else {
        Fixed { finite: true, m: spec_atan2_m(y.m as int, x.m as int) as i64 }
    }
}

/// The angle, in degrees, from the positive `x` axis to the point `(x, y)`.
pub fn atan2(y: Fixed, x: Fixed) -> (r: Fixed)
    ensures
        r == spec_atan2(y, x),
        r.finite == (y.finite && x.finite),
        r.finite ==> -HALF_TURN <= r.m <= HALF_TURN,
{
    if !y.finite || !x.finite {
        return Fixed::non_finite();
    }
    let m = atan2_m(y.m, x.m);
    Fixed { finite: true, m }
}

} // verus!
