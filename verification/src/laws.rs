//! The library's general laws, stated and proved once.
//!
//! Each proof function here states a property of the simulation core
//! for every input its `requires` admits; the scenario-sized checks
//! live in the test suite instead.

use vstd::prelude::*;
use crate::fixed::{FX_ONE, s_mul, lemma_mul_abs_bound};
use crate::model::Segment;
use crate::integrator::{step_spec, accel_pair_spec, advance_spec, ladd, lmul, cadd, cmul, csub, cdesc, cdiv, FX_DEN_EPS, FX_GRAV, FX_ROD_EQ, FX_DAMP};
use crate::trig::{sin_math, cos_math, lemma_sin_zero};
use crate::trail::{TrailBuffer, TRAIL_CAP};

verus! {

/// Chaining invariant: if the outer segment starts where the inner
/// one ends, that still holds after any integration step, whatever
/// the mass, timestep, or damping setting.
pub proof fn lemma_step_preserves_chaining(
    inner: Segment,
    outer: Segment,
    mass: i64,
    dt: i64,
    damping: bool,
)
    requires
        outer.start_pos == inner.end_pos,
    ensures
        step_spec(inner, outer, mass, dt, damping).1.start_pos == step_spec(
            inner,
            outer,
            mass,
            dt,
            damping,
        ).0.end_pos,
{
}

/// Determinism: the state after a tick is a function of the state
/// before it, the timestep, and the damping flag, and of nothing
/// else.
pub proof fn lemma_step_deterministic(
    i1: Segment,
    o1: Segment,
    m1: i64,
    i2: Segment,
    o2: Segment,
    m2: i64,
    dt: i64,
    damping: bool,
)
    requires
        i1 == i2,
        o1 == o2,
        m1 == m2,
    ensures
        step_spec(i1, o1, m1, dt, damping) == step_spec(i2, o2, m2, dt, damping),
{
}

/// Trail bound: a well-formed trail never holds more than `TRAIL_CAP`
/// positions, and what it holds is exactly the most recent samples of
/// its history, in insertion order.
pub proof fn lemma_trail_bound(t: TrailBuffer)
    requires
        t.wf(),
    ensures
        t.snapshot().len() <= TRAIL_CAP,
        t.history().len() <= TRAIL_CAP ==> t.snapshot() == t.history(),
        t.history().len() > TRAIL_CAP ==> t.snapshot() == t.history().skip(
            t.history().len() - TRAIL_CAP,
        ),
{
}

/// A quotient by a positive denominator of a product that stayed in
/// range is itself in range, so subtracting zero from it is the
/// identity.
proof fn lemma_sub_zero_of_div(x: Option<int>, d: int)
    requires
        d > 0,
    ensures
        csub(cdiv(cmul(x, Some(FX_ONE as int)), d), Some(0int)) == cdiv(
            cmul(x, Some(FX_ONE as int)),
            d,
        ),
{
    match cmul(x, Some(FX_ONE as int)) {
        None => {},
        Some(y) => {
            assert(i128::MIN <= y / d <= i128::MAX) by (nonlinear_arith)
                requires
                    d > 0,
                    i128::MIN <= y <= i128::MAX,
            ;
        },
    }
}

/// Multiplying by zero gives zero; stated for terms the equations
/// build from symbolic factors.
proof fn lemma_zero_times(b: int)
    ensures
        0int * b == 0,
        b * 0int == 0,
{
    assert(0int * b == 0 && b * 0int == 0) by (nonlinear_arith);
}

/// At rest straight down, the acceleration computation yields zero
/// for both segments, or reports a degenerate state.
#[verifier::rlimit(100)]
proof fn lemma_accel_at_rest(mass: i64, damping: bool)
    ensures
        ({
            let r = accel_pair_spec(0, 0, 0, 0, mass, damping);
            r is None || r == Some((0i64, 0i64))
        }),
{
    lemma_sin_zero();
    assert(0int / 1000000 == 0) by (nonlinear_arith);
    let m: Option<int> = Some(mass as int);
    let g: Option<int> = Some(FX_GRAV as int);
    let l: Option<int> = Some(FX_ROD_EQ as int);
    let sv1: Option<int> = Some(0int);
    let sv2: Option<int> = Some(0int);
    let s1: Option<int> = Some(sin_math(0) as int);
    let s12: Option<int> = Some(sin_math(0) as int);
    let c1: Option<int> = Some(cos_math(0) as int);
    let c12: Option<int> = Some(cos_math(0) as int);
    let c2d: Option<int> = Some(cos_math(0) as int);
    let m3 = cadd(cadd(m, m), m);
    let den = cdesc(cmul(l, csub(m3, cdesc(cmul(m, c2d)))));
    let r = accel_pair_spec(0, 0, 0, 0, mass, damping);
    match den {
        None => {
            assert(r is None);
        },
        Some(d) => {
            if d < FX_DEN_EPS as int {
                assert(r is None);
            } else {
                assert(0int / d == 0) by (nonlinear_arith)
                    requires
                        d > 0,
                ;
                lemma_mul_abs_bound(
                    FX_GRAV as int,
                    (mass as int) + (mass as int) + (mass as int),
                    FX_GRAV as int,
                    3 * (i64::MAX as int) + 3,
                );
                lemma_mul_abs_bound(
                    mass as int,
                    FX_GRAV as int,
                    i64::MAX as int + 1,
                    FX_GRAV as int,
                );
                lemma_zero_times(2int);
                lemma_zero_times(mass as int);
                lemma_zero_times((mass as int) + (mass as int));
                lemma_zero_times(FX_ONE as int);
                lemma_zero_times(FX_ROD_EQ as int);
                lemma_zero_times(FX_DAMP as int);
                lemma_zero_times(cos_math(0) as int);
                let g3m = cdesc(cmul(g, m3));
                assert(cmul(g3m, s1) == Some(0int));
                let t1 = cdesc(cmul(g3m, s1));
                let mg = cdesc(cmul(m, g));
                assert(cmul(mg, s1) == Some(0int));
                let t2 = cdesc(cmul(mg, s1));
                let vv2 = cdesc(cmul(sv2, sv2));
                let p2 = cdesc(cmul(vv2, l));
                let vv1 = cdesc(cmul(sv1, sv1));
                let p1 = cdesc(cmul(vv1, l));
                let p1c = cdesc(cmul(p1, c12));
                let sumv = cadd(p2, p1c);
                let two_s12 = cmul(Some(2int), s12);
                assert(two_s12 == Some(0int));
                let f3 = cdesc(cmul(two_s12, m));
                assert(f3 == Some(0int));
                let t3 = cdesc(cmul(f3, sumv));
                assert(t1 == Some(0int));
                assert(t2 == Some(0int));
                match sumv {
                    None => {
                        assert(t3 is None);
                    },
                    Some(sv) => {
                        lemma_zero_times(sv);
                        assert(t3 == Some(0int));
                    },
                }
                let num1 = csub(csub(csub(Some(0int), t1), t2), t3);
                let al1 = cdiv(cmul(num1, Some(FX_ONE as int)), d);
                assert(al1 == Some(0int));
                let m2s = cadd(m, m);
                let q1 = cdesc(cmul(p1, m2s));
                let gq = cdesc(cmul(g, m2s));
                let q2 = cdesc(cmul(gq, c1));
                let p2m = cdesc(cmul(p2, m));
                let q3 = cdesc(cmul(p2m, c12));
                let sumq = cadd(cadd(q1, q2), q3);
                let t4 = cdesc(cmul(two_s12, sumq));
                let al2 = cdiv(cmul(t4, Some(FX_ONE as int)), d);
                match sumq {
                    None => {
                        assert(al2 is None);
                        assert(r is None);
                    },
                    Some(sq) => {
                        lemma_zero_times(sq);
                        assert(t4 == Some(0int));
                        assert(al2 == Some(0int));
                        let dterm = cdesc(cmul(Some(FX_DAMP as int), sv1));
                        assert(csub(al1, dterm) == Some(0int));
                        assert(csub(al2, dterm) == Some(0int));
                        assert(r == Some((0i64, 0i64)));
                    },
                }
            }
        },
    }
}

/// At rest straight down, an Euler step under zero accelerations
/// leaves angles, velocities, and accelerations at zero, or reports a
/// degenerate state.
proof fn lemma_advance_at_rest(inner: Segment, outer: Segment, dt: i64)
    requires
        inner.angle == 0,
        outer.angle == 0,
        inner.velocity == 0,
        outer.velocity == 0,
    ensures
        ({
            let a = advance_spec(inner, outer, 0, 0, dt);
            a is None || {
                let (ni, no) = a->0;
                ni.angle == 0 && ni.velocity == 0 && ni.acceleration == 0 && no.angle == 0
                    && no.velocity == 0 && no.acceleration == 0
            }
        }),
{
    lemma_sin_zero();
    assert(0int / 1000000 == 0) by (nonlinear_arith);
    assert(s_mul(0i64, dt) == Some(0i64));
    assert(ladd(Some(0i64), Some(0i64)) == Some(0i64));
    assert(lmul(Some(0i64), Some(dt)) == Some(0i64));
    assert(s_mul(inner.length, sin_math(0)) == Some(0i64));
    assert(s_mul(outer.length, sin_math(0)) == Some(0i64));
}

/// Zero-velocity symmetry: hanging straight down at rest is an
/// equilibrium. One tick leaves both angles, both velocities, and
/// both accelerations at zero, for any mass, timestep, and damping
/// setting.
pub proof fn lemma_rest_equilibrium(
    inner: Segment,
    outer: Segment,
    mass: i64,
    dt: i64,
    damping: bool,
)
    requires
        inner.angle == 0,
        outer.angle == 0,
        inner.velocity == 0,
        outer.velocity == 0,
        inner.acceleration == 0,
        outer.acceleration == 0,
    ensures
        ({
            let (ni, no) = step_spec(inner, outer, mass, dt, damping);
            ni.angle == 0 && ni.velocity == 0 && ni.acceleration == 0 && no.angle == 0
                && no.velocity == 0 && no.acceleration == 0
        }),
{
    lemma_accel_at_rest(mass, damping);
    lemma_advance_at_rest(inner, outer, dt);
}

/// Damping from rest changes nothing: with both angular velocities
/// zero the damping torque vanishes, so the damped tick and the
/// undamped tick agree exactly. In particular the damped velocity
/// growth cannot exceed the undamped one on the first tick out of
/// rest.
pub proof fn lemma_damping_from_rest(inner: Segment, outer: Segment, mass: i64, dt: i64)
    requires
        inner.velocity == 0,
        outer.velocity == 0,
    ensures
        step_spec(inner, outer, mass, dt, true) == step_spec(inner, outer, mass, dt, false),
{
    assert forall|x: Option<int>, d: int| d > 0 implies #[trigger] csub(
        cdiv(cmul(x, Some(FX_ONE as int)), d),
        Some(0int),
    ) == cdiv(cmul(x, Some(FX_ONE as int)), d) by {
        lemma_sub_zero_of_div(x, d);
    };
}

/// Damping subtracts exactly the fixed coefficient times the inner
/// angular velocity from both accelerations: whenever the damped and
/// the undamped computation both succeed on the same state, their
/// results differ by that term and nothing else.
pub proof fn lemma_damping_term(a1: i64, v1: i64, a2: i64, v2: i64, mass: i64)
    ensures
        ({
            let und = accel_pair_spec(a1, v1, a2, v2, mass, false);
            let dmp = accel_pair_spec(a1, v1, a2, v2, mass, true);
            (und is Some && dmp is Some) ==> {
                let e = (FX_DAMP * v1) / (FX_ONE as int);
                (dmp->0).0 == (und->0).0 - e && (dmp->0).1 == (und->0).1 - e
            }
        }),
{
    lemma_mul_abs_bound(FX_DAMP as int, v1 as int, FX_DAMP as int, i64::MAX as int + 1);
}

} // verus!
