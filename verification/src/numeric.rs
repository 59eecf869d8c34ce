//! Exact scalar arithmetic for the plotting core.
//!
//! Every scalar the pipeline reasons about is an integer in micro units:
//! a value of `SCALE` stands for one whole unit.  Division follows the
//! usual machine convention of truncation toward zero, pinned down here
//! by [`div_trunc`] so that contracts can speak about quotients of
//! possibly negative dividends exactly.

use vstd::prelude::*;
use vstd::arithmetic::div_mod::lemma_div_nonincreasing;
use vstd::arithmetic::div_mod::lemma_fundamental_div_mod_converse;
use vstd::arithmetic::div_mod::lemma_mod_pos_bound;
use vstd::arithmetic::div_mod::lemma_div_pos_is_pos;

verus! {

/// Number of micro units in one whole unit.
pub const SCALE: i64 = 1_000_000;

/// Quotient of `a` by `b`, truncated toward zero.
///
/// For a nonnegative dividend this agrees with mathematical floor
/// division; for a negative dividend the magnitude is divided and the
/// sign reapplied.  Only positive divisors are ever used.
pub open spec fn div_trunc(a: int, b: int) -> int {
    if a >= 0 {
        a / b
    } else {
        -((-a) / b)
    }
}

/// Truncated division never grows the magnitude of the dividend.
pub proof fn lemma_div_trunc_bounds(a: int, b: int)
    requires
        b >= 1,
    ensures
        a >= 0 ==> 0 <= div_trunc(a, b) <= a,
        a < 0 ==> a <= div_trunc(a, b) <= 0,
{
    if a >= 0 {
        lemma_div_pos_is_pos(a, b);
        lemma_div_nonincreasing(a, b);
    } else {
        lemma_div_pos_is_pos(-a, b);
        lemma_div_nonincreasing(-a, b);
    }
}

/// Dividing zero gives zero, whatever the positive divisor.
pub proof fn lemma_div_trunc_zero(b: int)
    requires
        b >= 1,
    ensures
        div_trunc(0, b) == 0,
{
    lemma_div_pos_is_pos(0, b);
    lemma_div_nonincreasing(0, b);
}

/// A dividend within `c` divisor-multiples of zero has its quotient
/// within `c` of zero.
pub proof fn lemma_div_trunc_scaled(p: int, q: int, c: int)
    requires
        q >= 1,
        c >= 0,
        -c * q <= p <= c * q,
    ensures
        -c <= div_trunc(p, q) <= c,
{
    vstd::arithmetic::div_mod::lemma_div_multiples_vanish(c, q);
    assert(c * q == q * c) by (nonlinear_arith);
    if p >= 0 {
        lemma_div_pos_is_pos(p, q);
        vstd::arithmetic::div_mod::lemma_div_is_ordered(p, c * q, q);
    } else {
        lemma_div_pos_is_pos(-p, q);
        assert(-p <= c * q) by (nonlinear_arith)
            requires
                -c * q <= p,
        ;
        vstd::arithmetic::div_mod::lemma_div_is_ordered(-p, c * q, q);
    }
}

/// Executable Euclidean remainder of a signed value by a positive
/// modulus: always in `[0, m)`, whatever the sign of `a`.
pub fn euclid_mod_i64(a: i64, m: i64) -> (r: i64)
    requires
        m >= 1,
        a > i64::MIN,
    ensures
        r == a as int % m as int,
        0 <= r < m,
{
    if a >= 0 {
        let r: u64 = (a as u64) % (m as u64);
        r as i64
    } else {
        let k: u64 = ((-a) as u64) / (m as u64);
        let mr: u64 = ((-a) as u64) % (m as u64);
        proof {
            vstd::arithmetic::div_mod::lemma_fundamental_div_mod((-a) as int, m as int);
            lemma_mod_pos_bound((-a) as int, m as int);
            if mr == 0 {
                assert((-(k as int)) * (m as int) == -((m as int) * (k as int)))
                    by (nonlinear_arith);
                lemma_fundamental_div_mod_converse(a as int, m as int, -(k as int), 0);
            } else {
                assert((-(k as int) - 1) * (m as int) == -((m as int) * (k as int)) - m)
                    by (nonlinear_arith);
                lemma_fundamental_div_mod_converse(
                    a as int,
                    m as int,
                    -(k as int) - 1,
                    m as int - mr as int,
                );
            }
        }
        if mr == 0 {
            0
        } else {
            m - (mr as i64)
        }
    }
}

/// Executable truncating division of a signed dividend by a positive
/// divisor, carried out on unsigned magnitudes.
pub fn div_trunc_i64(a: i64, b: i64) -> (q: i64)
    requires
        b >= 1,
        a > i64::MIN,
    ensures
        q == div_trunc(a as int, b as int),
{
    proof {
        lemma_div_trunc_bounds(a as int, b as int);
    }
    if a >= 0 {
        let q: u64 = (a as u64) / (b as u64);
        q as i64
    } else {
        let m: u64 = ((-a) as u64) / (b as u64);
        -(m as i64)
    }
}

} // verus!
