//! The fixed-timestep integrator.
//!
//! One tick computes both angular accelerations from the coupled
//! double-pendulum equations of motion, then advances the inner
//! segment and after it the outer segment with explicit Euler steps,
//! recomputing the Cartesian positions so the outer segment starts
//! exactly where the inner one ends.
//!
//! The whole computation is exact fixed-point arithmetic in a fixed
//! evaluation order, so `step_spec` determines the next state from the
//! current one completely. A near-zero denominator or an intermediate
//! value that cannot be represented is a degenerate state: the tick
//! leaves the pendulum exactly as it was instead of storing a bad
//! value.
//!
//! Two deliberate quirks of the model are kept as they are because
//! changing either would change every trajectory: the equations of
//! motion use the fixed rod length `FX_ROD_EQ` (10 units) while the
//! Cartesian positions use each segment's own stored length, and the
//! damping torque subtracts a term proportional to the *inner*
//! velocity from both accelerations.

use vstd::prelude::*;
use crate::fixed::{FX_ONE, s_add, s_sub, s_mul, fx_add, fx_sub, fx_mul, div_pos};
use crate::trig::{FX_HALF_PI, sin_math, cos_math, sin_wide, sin_fx, cos_fx};
use crate::model::{Vec2Fx, Segment, DoublePendulum};

verus! {

/// Gravitational acceleration, 9.8 units.
pub const FX_GRAV: i64 = 9_800_000;

/// Rod length used inside the equations of motion, 10 units.
pub const FX_ROD_EQ: i64 = 10_000_000;

/// Damping coefficient, 0.1.
pub const FX_DAMP: i64 = 100_000;

/// Threshold under which the shared denominator counts as degenerate.
pub const FX_DEN_EPS: i64 = 1_000;

/// Checked product of unbounded terms kept within `i128`.
pub open spec fn cmul(x: Option<int>, y: Option<int>) -> Option<int> {
    match (x, y) {
        (Some(a), Some(b)) => if i128::MIN <= a * b <= i128::MAX {
            Some(a * b)
        } else {
            None
        },
        _ => None,
    }
}

/// Checked sum of unbounded terms kept within `i128`.
pub open spec fn cadd(x: Option<int>, y: Option<int>) -> Option<int> {
    match (x, y) {
        (Some(a), Some(b)) => if i128::MIN <= a + b <= i128::MAX {
            Some(a + b)
        } else {
            None
        },
        _ => None,
    }
}

/// Checked difference of unbounded terms kept within `i128`.
pub open spec fn csub(x: Option<int>, y: Option<int>) -> Option<int> {
    match (x, y) {
        (Some(a), Some(b)) => if i128::MIN <= a - b <= i128::MAX {
            Some(a - b)
        } else {
            None
        },
        _ => None,
    }
}

/// Rescaling after a fixed-point product: floor division by `FX_ONE`.
pub open spec fn cdesc(x: Option<int>) -> Option<int> {
    match x {
        Some(a) => Some(a / (FX_ONE as int)),
        None => None,
    }
}

/// Floor division by a positive denominator.
pub open spec fn cdiv(x: Option<int>, d: int) -> Option<int>
    recommends
        d > 0,
{
    match x {
        Some(a) => Some(a / d),
        None => None,
    }
}

/// The view of an `i128` intermediate as an unbounded term.
pub open spec fn widen(x: Option<i128>) -> Option<int> {
    match x {
        Some(v) => Some(v as int),
        None => None,
    }
}

fn xmul(a: i128, b: i128) -> (r: Option<i128>)
    ensures
        widen(r) == cmul(Some(a as int), Some(b as int)),
{
    a.checked_mul(b)
}

fn xadd(a: i128, b: i128) -> (r: Option<i128>)
    ensures
        widen(r) == cadd(Some(a as int), Some(b as int)),
{
    a.checked_add(b)
}

fn xsub(a: i128, b: i128) -> (r: Option<i128>)
    ensures
        widen(r) == csub(Some(a as int), Some(b as int)),
{
    a.checked_sub(b)
}

fn xdesc(a: i128) -> (r: i128)
    ensures
        Some(r as int) == cdesc(Some(a as int)),
{
    div_pos(a, FX_ONE as i128)
}

fn xdiv(a: i128, d: i128) -> (r: i128)
    requires
        d > 0,
    ensures
        Some(r as int) == cdiv(Some(a as int), d as int),
{
    div_pos(a, d)
}

/// Both angular accelerations for the current state, or `None` in a
/// degenerate state (near-zero denominator, or a value out of range).
///
/// Written in the exact evaluation order of `accel_pair`, so it names
/// the result of that computation term for term.
pub open spec fn accel_pair_spec(a1: i64, v1: i64, a2: i64, v2: i64, mass: i64, damping: bool) -> Option<(i64, i64)> {
    let m: Option<int> = Some(mass as int);
    let g: Option<int> = Some(FX_GRAV as int);
    let l: Option<int> = Some(FX_ROD_EQ as int);
    let sv1: Option<int> = Some(v1 as int);
    let sv2: Option<int> = Some(v2 as int);
    let s1: Option<int> = Some(sin_math(a1 as int) as int);
    let s12: Option<int> = Some(sin_math(a1 - a2) as int);
    let s1m22: Option<int> = Some(sin_math(a1 - 2 * a2) as int);
    let c1: Option<int> = Some(cos_math(a1 as int) as int);
    let c12: Option<int> = Some(cos_math(a1 - a2) as int);
    let c2d: Option<int> = Some(cos_math(2 * (a1 - a2)) as int);
    let m3 = cadd(cadd(m, m), m);
    let den = cdesc(cmul(l, csub(m3, cdesc(cmul(m, c2d)))));
    match den {
        None => None,
        Some(d) => if d < FX_DEN_EPS as int {
            None
        } else {
            let g3m = cdesc(cmul(g, m3));
            let t1 = cdesc(cmul(g3m, s1));
            let t2 = cdesc(cmul(cdesc(cmul(m, g)), s1m22));
            let vv2 = cdesc(cmul(sv2, sv2));
            let p2 = cdesc(cmul(vv2, l));
            let vv1 = cdesc(cmul(sv1, sv1));
            let p1 = cdesc(cmul(vv1, l));
            let p1c = cdesc(cmul(p1, c12));
            let sumv = cadd(p2, p1c);
            let two_s12 = cmul(Some(2int), s12);
            let f3 = cdesc(cmul(two_s12, m));
            let t3 = cdesc(cmul(f3, sumv));
            let num1 = csub(csub(csub(Some(0int), t1), t2), t3);
            let al1 = cdiv(cmul(num1, Some(FX_ONE as int)), d);
            let m2s = cadd(m, m);
            let q1 = cdesc(cmul(p1, m2s));
            let gq = cdesc(cmul(g, m2s));
            let q2 = cdesc(cmul(gq, c1));
            let p2m = cdesc(cmul(p2, m));
            let q3 = cdesc(cmul(p2m, c12));
            let sumq = cadd(cadd(q1, q2), q3);
            let t4 = cdesc(cmul(two_s12, sumq));
            let al2 = cdiv(cmul(t4, Some(FX_ONE as int)), d);
            let dterm = cdesc(cmul(Some(FX_DAMP as int), sv1));
            let al1f = if damping {
                csub(al1, dterm)
            } else {
                al1
            };
            let al2f = if damping {
                csub(al2, dterm)
            } else {
                al2
            };
            match (al1f, al2f) {
                (Some(x), Some(y)) => if i64::MIN <= x <= i64::MAX && i64::MIN <= y <= i64::MAX {
                    Some((x as i64, y as i64))
                } else {
                    None
                },
                _ => None,
            }
        },
    }
}

/// Computes both angular accelerations; exactly `accel_pair_spec`.
#[verifier::rlimit(100)]
fn accel_pair(a1: i64, v1: i64, a2: i64, v2: i64, mass: i64, damping: bool) -> (r: Option<(i64, i64)>)
    ensures
        r == accel_pair_spec(a1, v1, a2, v2, mass, damping),
{
    let d12: i128 = a1 as i128 - a2 as i128;
    let s1: i128 = sin_wide(a1 as i128) as i128;
    let s12: i128 = sin_wide(d12) as i128;
    let s1m22: i128 = sin_wide(a1 as i128 - 2 * (a2 as i128)) as i128;
    let c1: i128 = sin_wide(a1 as i128 + FX_HALF_PI as i128) as i128;
    let c12: i128 = sin_wide(d12 + FX_HALF_PI as i128) as i128;
    let c2d: i128 = sin_wide(2 * d12 + FX_HALF_PI as i128) as i128;
    let m: i128 = mass as i128;
    let m3: i128 = xadd(xadd(m, m)?, m)?;
    let mc: i128 = xdesc(xmul(m, c2d)?);
    let den: i128 = xdesc(xmul(FX_ROD_EQ as i128, xsub(m3, mc)?)?);
    if den < FX_DEN_EPS as i128 {
        return None;
    }
    let g3m: i128 = xdesc(xmul(FX_GRAV as i128, m3)?);
    let t1: i128 = xdesc(xmul(g3m, s1)?);
    let mg: i128 = xdesc(xmul(m, FX_GRAV as i128)?);
    let t2: i128 = xdesc(xmul(mg, s1m22)?);
    let vv2: i128 = xdesc(xmul(v2 as i128, v2 as i128)?);
    let p2: i128 = xdesc(xmul(vv2, FX_ROD_EQ as i128)?);
    let vv1: i128 = xdesc(xmul(v1 as i128, v1 as i128)?);
    let p1: i128 = xdesc(xmul(vv1, FX_ROD_EQ as i128)?);
    let p1c: i128 = xdesc(xmul(p1, c12)?);
    let sumv: i128 = xadd(p2, p1c)?;
    let two_s12: i128 = xmul(2, s12)?;
    let f3: i128 = xdesc(xmul(two_s12, m)?);
    let t3: i128 = xdesc(xmul(f3, sumv)?);
    let num1: i128 = xsub(xsub(xsub(0, t1)?, t2)?, t3)?;
    let al1: i128 = xdiv(xmul(num1, FX_ONE as i128)?, den);
    let m2s: i128 = xadd(m, m)?;
    let q1: i128 = xdesc(xmul(p1, m2s)?);
    let gq: i128 = xdesc(xmul(FX_GRAV as i128, m2s)?);
    let q2: i128 = xdesc(xmul(gq, c1)?);
    let p2m: i128 = xdesc(xmul(p2, m)?);
    let q3: i128 = xdesc(xmul(p2m, c12)?);
    let sumq: i128 = xadd(xadd(q1, q2)?, q3)?;
    let t4: i128 = xdesc(xmul(two_s12, sumq)?);
    let al2: i128 = xdiv(xmul(t4, FX_ONE as i128)?, den);
    let al1f: i128;
    let al2f: i128;
    if damping {
        let dterm: i128 = xdesc(xmul(FX_DAMP as i128, v1 as i128)?);
        al1f = xsub(al1, dterm)?;
        al2f = xsub(al2, dterm)?;
    } else {
        al1f = al1;
        al2f = al2;
    }
    if i64::MIN as i128 <= al1f && al1f <= i64::MAX as i128 && i64::MIN as i128 <= al2f
        && al2f <= i64::MAX as i128 {
        Some((al1f as i64, al2f as i64))
    } else {
        None
    }
}

/// Option-lifted `s_add`.
pub open spec fn ladd(x: Option<i64>, y: Option<i64>) -> Option<i64> {
    match (x, y) {
        (Some(a), Some(b)) => s_add(a, b),
        _ => None,
    }
}

/// Option-lifted `s_mul`.
pub open spec fn lmul(x: Option<i64>, y: Option<i64>) -> Option<i64> {
    match (x, y) {
        (Some(a), Some(b)) => s_mul(a, b),
        _ => None,
    }
}

/// The two segments after one Euler step under the given
/// accelerations, or `None` when some value cannot be represented.
///
/// The inner segment is advanced first and re-rooted at the origin;
/// the outer segment is then advanced and rooted at the inner
/// segment's fresh endpoint, which is the chain constraint.
pub open spec fn advance_spec(inner: Segment, outer: Segment, al1: i64, al2: i64, dt: i64) -> Option<(Segment, Segment)> {
    let dv1 = s_mul(al1, dt);
    let v1n = ladd(Some(inner.velocity), dv1);
    let da1 = lmul(v1n, Some(dt));
    let a1n = ladd(Some(inner.angle), da1);
    match (v1n, a1n) {
        (Some(v1x), Some(a1x)) => {
            let exo = s_mul(inner.length, sin_math(a1x as int));
            let negc1 = s_sub(0, cos_math(a1x as int));
            let eyo = lmul(Some(inner.length), negc1);
            let dv2 = s_mul(al2, dt);
            let v2n = ladd(Some(outer.velocity), dv2);
            let da2 = lmul(v2n, Some(dt));
            let a2n = ladd(Some(outer.angle), da2);
            match (exo, eyo, v2n, a2n) {
                (Some(ex), Some(ey), Some(v2x), Some(a2x)) => {
                    let sxo = s_mul(outer.length, sin_math(a2x as int));
                    let negc2 = s_sub(0, cos_math(a2x as int));
                    let syo = lmul(Some(outer.length), negc2);
                    let ox = ladd(Some(ex), sxo);
                    let oy = ladd(Some(ey), syo);
                    match (ox, oy) {
                        (Some(oxv), Some(oyv)) => Some((
                            Segment {
                                length: inner.length,
                                angle: a1x,
                                velocity: v1x,
                                acceleration: al1,
                                start_pos: Vec2Fx { x: 0, y: 0 },
                                end_pos: Vec2Fx { x: ex, y: ey },
                            },
                            Segment {
                                length: outer.length,
                                angle: a2x,
                                velocity: v2x,
                                acceleration: al2,
                                start_pos: Vec2Fx { x: ex, y: ey },
                                end_pos: Vec2Fx { x: oxv, y: oyv },
                            },
                        )),
                        _ => None,
                    }
                },
                _ => None,
            }
        },
        _ => None,
    }
}

/// Advances both segments; exactly `advance_spec`.
fn advance_segments(inner: &Segment, outer: &Segment, al1: i64, al2: i64, dt: i64) -> (r: Option<(Segment, Segment)>)
    ensures
        r == advance_spec(*inner, *outer, al1, al2, dt),
{
    let dv1: i64 = fx_mul(al1, dt)?;
    let v1x: i64 = fx_add(inner.velocity, dv1)?;
    let da1: i64 = fx_mul(v1x, dt)?;
    let a1x: i64 = fx_add(inner.angle, da1)?;
    let sn1: i64 = sin_fx(a1x);
    let cs1: i64 = cos_fx(a1x);
    let ex: i64 = fx_mul(inner.length, sn1)?;
    let negc1: i64 = fx_sub(0, cs1)?;
    let ey: i64 = fx_mul(inner.length, negc1)?;
    let dv2: i64 = fx_mul(al2, dt)?;
    let v2x: i64 = fx_add(outer.velocity, dv2)?;
    let da2: i64 = fx_mul(v2x, dt)?;
    let a2x: i64 = fx_add(outer.angle, da2)?;
    let sn2: i64 = sin_fx(a2x);
    let cs2: i64 = cos_fx(a2x);
    let sx2: i64 = fx_mul(outer.length, sn2)?;
    let negc2: i64 = fx_sub(0, cs2)?;
    let sy2: i64 = fx_mul(outer.length, negc2)?;
    let ox: i64 = fx_add(ex, sx2)?;
    let oy: i64 = fx_add(ey, sy2)?;
    Some((
        Segment {
            length: inner.length,
            angle: a1x,
            velocity: v1x,
            acceleration: al1,
            start_pos: Vec2Fx { x: 0, y: 0 },
            end_pos: Vec2Fx { x: ex, y: ey },
        },
        Segment {
            length: outer.length,
            angle: a2x,
            velocity: v2x,
            acceleration: al2,
            start_pos: Vec2Fx { x: ex, y: ey },
            end_pos: Vec2Fx { x: ox, y: oy },
        },
    ))
}

/// The physics state after one tick: the integrated state, or the old
/// one unchanged when the tick hit a degenerate state.
pub open spec fn step_spec(inner: Segment, outer: Segment, mass: i64, dt: i64, damping: bool) -> (Segment, Segment) {
    match accel_pair_spec(inner.angle, inner.velocity, outer.angle, outer.velocity, mass, damping) {
        None => (inner, outer),
        Some((al1, al2)) => match advance_spec(inner, outer, al1, al2, dt) {
            None => (inner, outer),
            Some(pair) => pair,
        },
    }
}

/// Advances one pendulum by one fixed timestep `dt` (fixed-point
/// seconds). The new physics state is exactly `step_spec` of the old
/// one; traits and trail are untouched, and well-formedness (the chain
/// constraint included) is preserved.
pub fn tick_pendulum(p: &mut DoublePendulum, dt: i64, damping: bool)
    ensures
        final(p).traits == old(p).traits,
        final(p).trail == old(p).trail,
        (final(p).inner, final(p).outer) == step_spec(
            old(p).inner,
            old(p).outer,
            old(p).traits.mass,
            dt,
            damping,
        ),
        old(p).wf() ==> final(p).wf(),
{
    let acc: Option<(i64, i64)> = accel_pair(
        p.inner.angle,
        p.inner.velocity,
        p.outer.angle,
        p.outer.velocity,
        p.traits.mass,
        damping,
    );
    match acc {
        None => {},
        Some((al1, al2)) => {
            let adv: Option<(Segment, Segment)> = advance_segments(&p.inner, &p.outer, al1, al2, dt);
            match adv {
                None => {},
                Some((ni, no)) => {
                    p.inner = ni;
                    p.outer = no;
                },
            }
        },
    }
}

} // verus!
