//! Fixed-point sine and cosine.
//!
//! Angles are fixed-point radians, unbounded in magnitude: an angle is
//! first reduced into one period, centred on zero, and folded into
//! `[-FX_HALF_PI, FX_HALF_PI]` with the sine reflection identities.
//! There a degree-seven odd polynomial (the leading terms of the sine
//! series) evaluates it, and the result is clamped into
//! `[-FX_ONE, FX_ONE]`. Every step is exact integer arithmetic, so
//! `sin_math` pins the result down completely.

use vstd::prelude::*;
use crate::fixed::{FX_ONE, div_pos, mod_pos, lemma_mul_abs_bound};

verus! {

/// One full turn (two pi) in fixed-point radians.
pub const FX_TWO_PI: i64 = 6_283_185;

/// Half a turn (pi) in fixed-point radians.
pub const FX_PI: i64 = 3_141_592;

/// A quarter turn (pi over two) in fixed-point radians.
pub const FX_HALF_PI: i64 = 1_570_796;

/// The angle reduced into `[0, FX_TWO_PI)`.
pub open spec fn wrap_angle(a: int) -> int {
    a % (FX_TWO_PI as int)
}

/// The angle reduced into `(-FX_PI, FX_PI]`, same point on the circle.
pub open spec fn center_angle(a: int) -> int {
    let w = wrap_angle(a);
    if w > FX_PI {
        w - FX_TWO_PI
    } else {
        w
    }
}

/// The centred angle reflected into `[-FX_HALF_PI, FX_HALF_PI]` using
/// `sin(x) == sin(pi - x)` and `sin(x) == sin(-pi - x)`.
pub open spec fn fold_angle(a: int) -> int {
    let c = center_angle(a);
    if c > FX_HALF_PI {
        FX_PI - c
    } else if c < -(FX_HALF_PI as int) {
        -(FX_PI as int) - c
    } else {
        c
    }
}

/// The sine series truncated after the seventh power, in fixed point.
pub open spec fn sin_poly(x: int) -> int {
    let x2 = (x * x) / (FX_ONE as int);
    let x3 = (x2 * x) / (FX_ONE as int);
    let x5 = (x3 * x2) / (FX_ONE as int);
    let x7 = (x5 * x2) / (FX_ONE as int);
    x - x3 / 6 + x5 / 120 - x7 / 5040
}

/// The value clamped into `[-FX_ONE, FX_ONE]`.
pub open spec fn clamp_unit(v: int) -> i64 {
    if v > FX_ONE {
        FX_ONE
    } else if v < -(FX_ONE as int) {
        (-FX_ONE) as i64
    } else {
        v as i64
    }
}

/// What `sin_fx` returns for a fixed-point angle.
pub open spec fn sin_math(a: int) -> i64 {
    clamp_unit(sin_poly(fold_angle(a)))
}

/// What `cos_fx` returns: the sine a quarter turn ahead.
pub open spec fn cos_math(a: int) -> i64 {
    sin_math(a + FX_HALF_PI)
}

/// The sine of the zero angle is exactly zero: reduction keeps zero
/// at zero and every term of the odd polynomial vanishes.
pub proof fn lemma_sin_zero()
    ensures
        sin_math(0) == 0,
{
    assert(0int % 6283185 == 0) by (nonlinear_arith);
    assert(0int / 1000000 == 0) by (nonlinear_arith);
    assert(0int / 6 == 0) by (nonlinear_arith);
    assert(0int / 120 == 0) by (nonlinear_arith);
    assert(0int / 5040 == 0) by (nonlinear_arith);
    assert(fold_angle(0) == 0);
    assert(sin_poly(0) == 0);
    assert(clamp_unit(0) == 0);
}

/// Sine of a fixed-point angle given as a widened intermediate, so that
/// shifted angles near the `i64` bounds are still exact.
pub(crate) fn sin_wide(a0: i128) -> (r: i64)
    ensures
        r == sin_math(a0 as int),
        -FX_ONE <= r <= FX_ONE,
{
    let w128: i128 = mod_pos(a0, FX_TWO_PI as i128);
    let w: i64 = w128 as i64;
    let c: i64 = if w > FX_PI {
        w - FX_TWO_PI
    } else {
        w
    };
    let x: i64 = if c > FX_HALF_PI {
        FX_PI - c
    } else if c < -FX_HALF_PI {
        -FX_PI - c
    } else {
        c
    };
    let xi: i128 = x as i128;
    proof {
        lemma_mul_abs_bound(xi as int, xi as int, FX_HALF_PI as int, FX_HALF_PI as int);
    }
    let x2: i128 = div_pos(xi * xi, FX_ONE as i128);
    proof {
        lemma_mul_abs_bound(x2 as int, xi as int, 2_467_401, FX_HALF_PI as int);
    }
    let x3: i128 = div_pos(x2 * xi, FX_ONE as i128);
    proof {
        lemma_mul_abs_bound(x3 as int, x2 as int, 3_875_785, 2_467_401);
    }
    let x5: i128 = div_pos(x3 * x2, FX_ONE as i128);
    proof {
        lemma_mul_abs_bound(x5 as int, x2 as int, 9_563_116, 2_467_401);
    }
    let x7: i128 = div_pos(x5 * x2, FX_ONE as i128);
    let t: i128 = xi - div_pos(x3, 6) + div_pos(x5, 120) - div_pos(x7, 5040);
    let r128: i128 = if t > FX_ONE as i128 {
        FX_ONE as i128
    } else if t < -(FX_ONE as i128) {
        -(FX_ONE as i128)
    } else {
        t
    };
    r128 as i64
}

/// Fixed-point sine; the result is `sin_math` of the angle exactly.
pub fn sin_fx(a: i64) -> (r: i64)
    ensures
        r == sin_math(a as int),
        -FX_ONE <= r <= FX_ONE,
{
    sin_wide(a as i128)
}

/// Fixed-point cosine; the result is `cos_math` of the angle exactly.
pub fn cos_fx(a: i64) -> (r: i64)
    ensures
        r == cos_math(a as int),
        -FX_ONE <= r <= FX_ONE,
{
    sin_wide(a as i128 + FX_HALF_PI as i128)
}

} // verus!
