//! Fixed-point scalars.
//!
//! A physical quantity is an `i64` holding millionths of a unit
//! (`FX_ONE` is 1.0). Products and quotients are rescaled with
//! division rounded toward negative infinity, so every operation is a
//! pure function of its integer arguments. Operations whose exact
//! result does not fit in an `i64` return `None`; the integrator treats
//! that as a degenerate state and freezes the pendulum for the tick.

use vstd::prelude::*;

verus! {

/// One unit: fixed-point values count millionths.
pub const FX_ONE: i64 = 1_000_000;

/// What `fx_add` returns: the exact sum when it fits in an `i64`.
pub open spec fn s_add(a: i64, b: i64) -> Option<i64> {
    if i64::MIN <= a + b <= i64::MAX {
        Some((a + b) as i64)
    } else {
        None
    }
}

/// What `fx_sub` returns: the exact difference when it fits in an `i64`.
pub open spec fn s_sub(a: i64, b: i64) -> Option<i64> {
    if i64::MIN <= a - b <= i64::MAX {
        Some((a - b) as i64)
    } else {
        None
    }
}

/// What `fx_mul` returns: `a * b / FX_ONE`, rounded toward negative
/// infinity, when it fits in an `i64`.
pub open spec fn s_mul(a: i64, b: i64) -> Option<i64> {
    let q = (a * b) / (FX_ONE as int);
    if i64::MIN <= q <= i64::MAX {
        Some(q as i64)
    } else {
        None
    }
}

/// What `fx_div` returns: `a * FX_ONE / b`, rounded toward negative
/// infinity, when it fits in an `i64`.
pub open spec fn s_div(a: i64, b: i64) -> Option<i64>
    recommends
        b > 0,
{
    let q = (a * FX_ONE) / (b as int);
    if i64::MIN <= q <= i64::MAX {
        Some(q as i64)
    } else {
        None
    }
}

/// Bounds the product of two bounded factors; the nonlinear fact every
/// overflow check in this crate reduces to.
pub proof fn lemma_mul_abs_bound(a: int, b: int, ab: int, bb: int)
    by (nonlinear_arith)
    requires
        -ab <= a <= ab,
        -bb <= b <= bb,
        0 <= ab,
        0 <= bb,
    ensures
        -(ab * bb) <= a * b <= ab * bb,
{
}

/// Euclidean division bounds its quotient by its dividend when the
/// divisor is positive.
proof fn lemma_div_pos_range(p: int, d: int)
    by (nonlinear_arith)
    requires
        d > 0,
    ensures
        d * (p / d) <= p < d * (p / d) + d,
        p >= 0 ==> 0 <= p / d <= p,
        p < 0 ==> p <= p / d <= 0,
{
}

/// Euclidean division by a positive divisor, exact and total.
pub(crate) fn div_pos(p: i128, d: i128) -> (q: i128)
    requires
        d > 0,
    ensures
        q == (p as int) / (d as int),
        (d as int) * q <= p < (d as int) * q + d,
{
    proof {
        lemma_div_pos_range(p as int, d as int);
    }
    match p.checked_div_euclid(d) {
        Some(q) => q,
        None => 0,
    }
}

/// Euclidean remainder bounds for a positive divisor.
proof fn lemma_mod_pos_range(p: int, d: int)
    by (nonlinear_arith)
    requires
        d > 0,
    ensures
        0 <= p % d < d,
{
}

/// Euclidean remainder for a positive divisor, exact and total.
pub(crate) fn mod_pos(p: i128, d: i128) -> (r: i128)
    requires
        d > 0,
    ensures
        r == (p as int) % (d as int),
        0 <= r < d,
{
    proof {
        lemma_mod_pos_range(p as int, d as int);
    }
    match p.checked_rem_euclid(d) {
        Some(r) => r,
        None => 0,
    }
}

/// Checked fixed-point sum.
pub fn fx_add(a: i64, b: i64) -> (r: Option<i64>)
    ensures
        r == s_add(a, b),
{
    a.checked_add(b)
}

/// Checked fixed-point difference.
pub fn fx_sub(a: i64, b: i64) -> (r: Option<i64>)
    ensures
        r == s_sub(a, b),
{
    a.checked_sub(b)
}

/// Checked fixed-point product: `a * b / FX_ONE`, rounded toward
/// negative infinity.
pub fn fx_mul(a: i64, b: i64) -> (r: Option<i64>)
    ensures
        r == s_mul(a, b),
{
    proof {
        lemma_mul_abs_bound(a as int, b as int, i64::MAX as int + 1, i64::MAX as int + 1);
    }
    let p: i128 = (a as i128) * (b as i128);
    let q: i128 = div_pos(p, FX_ONE as i128);
    if i64::MIN as i128 <= q && q <= i64::MAX as i128 {
        Some(q as i64)
    } else {
        None
    }
}

/// Checked fixed-point quotient by a positive divisor:
/// `a * FX_ONE / b`, rounded toward negative infinity.
pub fn fx_div(a: i64, b: i64) -> (r: Option<i64>)
    requires
        b > 0,
    ensures
        r == s_div(a, b),
{
    proof {
        lemma_mul_abs_bound(a as int, FX_ONE as int, i64::MAX as int + 1, FX_ONE as int);
    }
    let p: i128 = (a as i128) * (FX_ONE as i128);
    let q: i128 = div_pos(p, b as i128);
    if i64::MIN as i128 <= q && q <= i64::MAX as i128 {
        Some(q as i64)
    } else {
        None
    }
}

} // verus!
