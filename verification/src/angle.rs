//! Angles in micro-radians, with normalization and a small-angle
//! arctangent.
//!
//! The orbit camera stores its orientation as micro-radian integers so
//! that every update is exact and provable.  Drag handling maps a
//! normalized pointer delta through an arctangent so that large drags
//! cannot produce runaway rotation; the approximation used here is the
//! classic one-term rational fit `atan(z) ~ z / (1 + 0.28 z^2)` on the
//! unit interval, extended by `atan(z) = pi/2 - atan(1/z)` beyond it and
//! by odd symmetry to negative deltas.

use vstd::prelude::*;
use vstd::arithmetic::div_mod::lemma_div_is_ordered_by_denominator;
use vstd::arithmetic::div_mod::lemma_div_nonincreasing;
use vstd::arithmetic::div_mod::lemma_div_pos_is_pos;
use crate::numeric::euclid_mod_i64;
use crate::numeric::SCALE;

verus! {

/// Pi in micro-radians, rounded to the nearest integer.
pub const PI_MICRO: i64 = 3_141_593;

/// A full turn in micro-radians.
pub const TWO_PI_MICRO: i64 = 6_283_186;

/// A quarter turn in micro-radians.
pub const HALF_PI_MICRO: i64 = 1_570_796;

/// An angle is kept normalized to the half-open turn `[-pi, pi)`.
pub open spec fn angle_normalized(a: int) -> bool {
    -PI_MICRO <= a < PI_MICRO
}

/// One normalization step: fold an angle that strayed less than one
/// turn outside `[-pi, pi)` back into it.
pub open spec fn wrap_angle(a: int) -> int {
    if a < -PI_MICRO {
        a + TWO_PI_MICRO
    } else if a >= PI_MICRO {
        a - TWO_PI_MICRO
    } else {
        a
    }
}

/// Full angle normalization: any micro-radian count reduced into the
/// turn `[-pi, pi)`, however many turns it strayed.
pub open spec fn reduce_angle(a: int) -> int {
    (a + PI_MICRO) % (TWO_PI_MICRO as int) - PI_MICRO
}

/// Executable full reduction.  The one bound keeps the pre-shift by
/// half a turn inside `i64`.
pub fn reduce_angle_i64(a: i64) -> (r: i64)
    requires
        a <= i64::MAX - PI_MICRO,
    ensures
        r == reduce_angle(a as int),
        angle_normalized(r as int),
{
    let shifted: i64 = a + PI_MICRO;
    let m = euclid_mod_i64(shifted, TWO_PI_MICRO);
    m - PI_MICRO
}

/// Executable angle normalization.
pub fn wrap_angle_i64(a: i64) -> (r: i64)
    requires
        -TWO_PI_MICRO <= a <= TWO_PI_MICRO,
    ensures
        r == wrap_angle(a as int),
        angle_normalized(r as int),
{
    if a < -PI_MICRO {
        a + TWO_PI_MICRO
    } else if a >= PI_MICRO {
        a - TWO_PI_MICRO
    } else {
        a
    }
}

/// Rational arctangent fit on the unit interval, in micro units:
/// `z * SCALE / (SCALE + 0.28 * z^2)` with every quotient truncated.
/// Intended for `0 <= z <= SCALE`.
pub open spec fn atan_unit(z: int) -> int {
    (z * SCALE) / (SCALE + (28 * ((z * z) / (SCALE as int))) / 100)
}

/// Arctangent of a nonnegative micro-unit ratio, in micro-radians:
/// the unit-interval fit directly, or folded through the reciprocal
/// identity for ratios above one.
pub open spec fn atan_micro_nonneg(z: int) -> int {
    if z <= SCALE {
        atan_unit(z)
    } else {
        HALF_PI_MICRO - atan_unit((SCALE * SCALE) / z)
    }
}

/// Arctangent of a micro-unit ratio, extended to negative ratios by odd
/// symmetry.  This is the exact definition the drag contracts use.
pub open spec fn atan_micro(z: int) -> int {
    if z >= 0 {
        atan_micro_nonneg(z)
    } else {
        -atan_micro_nonneg(-z)
    }
}

/// On the unit interval the fit is between zero and its argument.
proof fn lemma_atan_unit_bounds(z: int)
    requires
        0 <= z <= SCALE,
    ensures
        0 <= atan_unit(z) <= z,
{
    let z2: int = (z * z) / (SCALE as int);
    assert(z * z >= 0) by (nonlinear_arith)
        requires
            z >= 0,
    ;
    lemma_div_pos_is_pos(z * z, SCALE as int);
    lemma_div_pos_is_pos(28 * z2, 100);
    let denom: int = SCALE + (28 * z2) / 100;
    lemma_div_pos_is_pos(z * SCALE, denom);
    lemma_div_is_ordered_by_denominator(z * SCALE, SCALE as int, denom);
    vstd::arithmetic::div_mod::lemma_div_multiples_vanish(z, SCALE as int);
}

/// A zero ratio maps to a zero angle.
pub proof fn lemma_atan_micro_zero()
    ensures
        atan_micro(0) == 0,
{
    lemma_atan_unit_bounds(0);
}

/// The arctangent never exceeds a quarter turn in magnitude.
pub proof fn lemma_atan_micro_bounded(z: int)
    ensures
        -HALF_PI_MICRO <= atan_micro(z) <= HALF_PI_MICRO,
{
    if z >= 0 {
        lemma_atan_micro_nonneg_bounded(z);
    } else {
        lemma_atan_micro_nonneg_bounded(-z);
    }
}

/// Bound for the nonnegative branch.
proof fn lemma_atan_micro_nonneg_bounded(z: int)
    requires
        z >= 0,
    ensures
        0 <= atan_micro_nonneg(z) <= HALF_PI_MICRO,
{
    if z <= SCALE {
        lemma_atan_unit_bounds(z);
    } else {
        let recip: int = (SCALE * SCALE) / z;
        lemma_div_pos_is_pos(SCALE * SCALE, z);
        lemma_div_is_ordered_by_denominator(SCALE * SCALE, SCALE as int, z);
        vstd::arithmetic::div_mod::lemma_div_multiples_vanish(SCALE as int, SCALE as int);
        lemma_atan_unit_bounds(recip);
    }
}

/// Executable unit-interval arctangent fit.
fn atan_unit_u64(m: u64) -> (r: u64)
    requires
        m <= SCALE,
    ensures
        r as int == atan_unit(m as int),
        r <= m,
{
    proof {
        lemma_atan_unit_bounds(m as int);
        assert(m * m <= 1_000_000_000_000) by (nonlinear_arith)
            requires
                m <= 1_000_000,
        ;
        assert(m * 1_000_000 <= 1_000_000_000_000) by (nonlinear_arith)
            requires
                m <= 1_000_000,
        ;
    }
    let z2: u64 = (m * m) / 1_000_000;
    proof {
        lemma_div_nonincreasing(m as int * m as int, SCALE as int);
        lemma_div_pos_is_pos(m as int * m as int, SCALE as int);
    }
    let denom: u64 = 1_000_000 + (28 * z2) / 100;
    (m * 1_000_000) / denom
}

/// Executable arctangent of a micro-unit ratio, in micro-radians.
pub fn atan_micro_i64(z: i64) -> (r: i64)
    requires
        z > i64::MIN,
    ensures
        r == atan_micro(z as int),
        -HALF_PI_MICRO <= r <= HALF_PI_MICRO,
{
    proof {
        lemma_atan_micro_bounded(z as int);
    }
    let neg = z < 0;
    let m: u64 = if neg {
        (-z) as u64
    } else {
        z as u64
    };
    let mag: u64 = if m <= 1_000_000 {
        atan_unit_u64(m)
    } else {
        proof {
            lemma_div_pos_is_pos(SCALE as int * SCALE as int, m as int);
            lemma_div_is_ordered_by_denominator(
                SCALE as int * SCALE as int,
                SCALE as int,
                m as int,
            );
            vstd::arithmetic::div_mod::lemma_div_multiples_vanish(SCALE as int, SCALE as int);
        }
        let recip: u64 = 1_000_000_000_000u64 / m;
        let inner = atan_unit_u64(recip);
        1_570_796 - inner
    };
    if neg {
        -(mag as i64)
    } else {
        mag as i64
    }
}

} // verus!
