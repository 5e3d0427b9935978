//! The simulation registry: the authoritative set of live pendulums.
//!
//! The registry owns the pendulums in insertion order, spawns one or
//! many, clears them all on reset, runs the physics tick over every
//! pendulum, and samples each trail when the shared sampling timer
//! completes a period. Spawning draws the initial angles and the
//! colour tag from a random source; everything after the draw is
//! verified for every possible drawn value.

use vstd::prelude::*;
use crate::fixed::FX_ONE;
use crate::model::{DoublePendulum, Vec2Fx, FX_SEG_LEN};
use crate::trail::{TrailTimer, FX_TRAIL_PERIOD};
use crate::trig::FX_TWO_PI;
use crate::integrator::step_spec;
use crate::integrator::tick_pendulum;

verus! {

/// Relies on `rand::random`: one uniform `u64` from the thread-local
/// generator. The value depends on the generator's state, so nothing
/// is promised of it; every caller handles every possible value.
#[verifier::external_body]
fn random_u64() -> u64 {
    rand::random::<u64>()
}

/// How one pendulum relates to its state one physics tick earlier.
pub open spec fn ticked(o: DoublePendulum, q: DoublePendulum, dt: i64, damping: bool) -> bool {
    &&& q.traits == o.traits
    &&& q.trail == o.trail
    &&& (q.inner, q.outer) == step_spec(o.inner, o.outer, o.traits.mass, dt, damping)
}

/// How one pendulum relates to its state before a trail-sampling
/// frame: untouched unless the timer fired, in which case exactly the
/// tip position was appended to its history.
pub open spec fn sampled(o: DoublePendulum, q: DoublePendulum, fired: bool) -> bool {
    if fired {
        &&& q.inner == o.inner
        &&& q.outer == o.outer
        &&& q.traits == o.traits
        &&& q.trail.history() == o.trail.history().push(o.outer.end_pos)
    } else {
        q == o
    }
}

/// The freshly spawned pendulum at the end of the registry: at rest,
/// well formed, empty trail, unit mass, spawn-length rods.
pub open spec fn fresh_spawn(p: DoublePendulum) -> bool {
    &&& p.wf()
    &&& p.at_rest()
    &&& p.traits.mass == FX_ONE
    &&& p.inner.length == FX_SEG_LEN
    &&& p.outer.length == FX_SEG_LEN
    &&& p.trail.history() == Seq::<Vec2Fx>::empty()
}

/// Owns every live pendulum, in insertion order, and the trail
/// sampling timer.
pub struct SimulationRegistry {
    pends: Vec<DoublePendulum>,
    timer: TrailTimer,
}

impl SimulationRegistry {
    /// The live pendulums, oldest spawn first.
    pub closed spec fn pendulums(self) -> Seq<DoublePendulum> {
        self.pends@
    }

    /// The trail sampling timer.
    pub closed spec fn timer_state(self) -> TrailTimer {
        self.timer
    }

    /// Every live pendulum is well formed and the timer is sound.
    pub open spec fn wf(self) -> bool {
        &&& forall|i: int|
            0 <= i < self.pendulums().len() ==> (#[trigger] self.pendulums()[i]).wf()
        &&& self.timer_state().wf()
    }

    /// An empty registry with the default sampling period.
    pub fn new() -> (r: SimulationRegistry)
        ensures
            r.wf(),
            r.pendulums().len() == 0,
            r.timer_state() == (TrailTimer { period: FX_TRAIL_PERIOD, elapsed: 0 }),
    {
        SimulationRegistry { pends: Vec::new(), timer: TrailTimer::new(FX_TRAIL_PERIOD) }
    }

    /// How many pendulums are live.
    pub fn count(&self) -> (n: usize)
        ensures
            n == self.pendulums().len(),
    {
        self.pends.len()
    }

    /// The pendulum at the given spawn position.
    pub fn get(&self, i: usize) -> (p: &DoublePendulum)
        requires
            i < self.pendulums().len(),
        ensures
            *p == self.pendulums()[i as int],
    {
        &self.pends[i]
    }

    /// Spawns one pendulum with the given initial angles and colour
    /// tag; everything else is the fixed spawn state.
    pub fn spawn_with(&mut self, inner_angle: i64, outer_angle: i64, color_tag: u32)
        requires
            old(self).wf(),
        ensures
            final(self).wf(),
            final(self).timer_state() == old(self).timer_state(),
            final(self).pendulums().len() == old(self).pendulums().len() + 1,
            forall|i: int|
                0 <= i < old(self).pendulums().len() ==> #[trigger] final(self).pendulums()[i]
                    == old(self).pendulums()[i],
            fresh_spawn(final(self).pendulums().last()),
            final(self).pendulums().last().inner.angle == inner_angle,
            final(self).pendulums().last().outer.angle == outer_angle,
            final(self).pendulums().last().traits.color_tag == color_tag,
    {
        let p = DoublePendulum::with_angles(inner_angle, outer_angle, color_tag);
        self.pends.push(p);
    }

    /// Spawns one pendulum as the input collaborator triggers it:
    /// both angles drawn from `[0, FX_TWO_PI)`, a random colour tag.
    pub fn spawn_one(&mut self)
        requires
            old(self).wf(),
        ensures
            final(self).wf(),
            final(self).timer_state() == old(self).timer_state(),
            final(self).pendulums().len() == old(self).pendulums().len() + 1,
            forall|i: int|
                0 <= i < old(self).pendulums().len() ==> #[trigger] final(self).pendulums()[i]
                    == old(self).pendulums()[i],
            fresh_spawn(final(self).pendulums().last()),
            0 <= final(self).pendulums().last().inner.angle < FX_TWO_PI,
            0 <= final(self).pendulums().last().outer.angle < FX_TWO_PI,
    {
        let r1: u64 = random_u64();
        let r2: u64 = random_u64();
        let rc: u64 = random_u64();
        let inner_angle: i64 = (r1 % (FX_TWO_PI as u64)) as i64;
        let outer_angle: i64 = (r2 % (FX_TWO_PI as u64)) as i64;
        let color_tag: u32 = #[verifier::truncate] (rc as u32);
        self.spawn_with(inner_angle, outer_angle, color_tag);
    }

    /// Spawns `n` pendulums, each as `spawn_one` does.
    pub fn spawn_many(&mut self, n: usize)
        requires
            old(self).wf(),
        ensures
            final(self).wf(),
            final(self).timer_state() == old(self).timer_state(),
            final(self).pendulums().len() == old(self).pendulums().len() + n,
            forall|i: int|
                0 <= i < old(self).pendulums().len() ==> #[trigger] final(self).pendulums()[i]
                    == old(self).pendulums()[i],
            forall|i: int|
                old(self).pendulums().len() <= i < final(self).pendulums().len()
                    ==> fresh_spawn(#[trigger] final(self).pendulums()[i]),
    {
        let mut k: usize = 0;
        while k < n
            invariant
                k <= n,
                self.wf(),
                self.timer_state() == old(self).timer_state(),
                self.pendulums().len() == old(self).pendulums().len() + k,
                forall|i: int|
                    0 <= i < old(self).pendulums().len() ==> #[trigger] self.pendulums()[i]
                        == old(self).pendulums()[i],
                forall|i: int|
                    old(self).pendulums().len() <= i < self.pendulums().len()
                        ==> fresh_spawn(#[trigger] self.pendulums()[i]),
            decreases n - k,
        {
            self.spawn_one();
            k = k + 1;
        }
    }

    /// Removes every pendulum immediately; the reset command.
    pub fn reset_all(&mut self)
        requires
            old(self).wf(),
        ensures
            final(self).wf(),
            final(self).pendulums().len() == 0,
            final(self).timer_state() == old(self).timer_state(),
    {
        self.pends.clear();
    }

    /// One physics tick: advances every live pendulum by `dt`, in
    /// insertion order, each exactly as `step_spec` says.
    pub fn tick_all(&mut self, dt: i64, damping: bool)
        requires
            old(self).wf(),
        ensures
            final(self).wf(),
            final(self).timer_state() == old(self).timer_state(),
            final(self).pendulums().len() == old(self).pendulums().len(),
            forall|i: int|
                0 <= i < old(self).pendulums().len() ==> ticked(
                    old(self).pendulums()[i],
                    #[trigger] final(self).pendulums()[i],
                    dt,
                    damping,
                ),
    {
        let n: usize = self.pends.len();
        let mut k: usize = 0;
        while k < n
            invariant
                k <= n,
                n == old(self).pendulums().len(),
                self.pendulums().len() == n,
                self.timer_state() == old(self).timer_state(),
                old(self).wf(),
                self.timer_state().wf(),
                forall|i: int|
                    0 <= i < k ==> ticked(
                        old(self).pendulums()[i],
                        #[trigger] self.pendulums()[i],
                        dt,
                        damping,
                    ),
                forall|i: int|
                    0 <= i < k ==> (#[trigger] self.pendulums()[i]).wf(),
                forall|i: int|
                    k <= i < n ==> #[trigger] self.pendulums()[i] == old(self).pendulums()[i],
            decreases n - k,
        {
            let pe = &mut self.pends[k];
            tick_pendulum(pe, dt, damping);
            k = k + 1;
        }
    }

    /// One render-rate frame of trail sampling: the timer advances by
    /// the elapsed real time `delta`, and when a period completed,
    /// each pendulum's tip position is appended to its trail.
    pub fn sample_trails(&mut self, delta: i64)
        requires
            old(self).wf(),
            delta >= 0,
        ensures
            final(self).wf(),
            final(self).pendulums().len() == old(self).pendulums().len(),
            final(self).timer_state().period == old(self).timer_state().period,
            final(self).timer_state().elapsed == (old(self).timer_state().elapsed + delta) % (
            old(self).timer_state().period as int),
            forall|i: int|
                0 <= i < old(self).pendulums().len() ==> sampled(
                    old(self).pendulums()[i],
                    #[trigger] final(self).pendulums()[i],
                    old(self).timer_state().elapsed + delta >= old(self).timer_state().period,
                ),
    {
        let fired: bool = self.timer.advance(delta);
        if !fired {
            return;
        }
        let n: usize = self.pends.len();
        let mut k: usize = 0;
        while k < n
            invariant
                k <= n,
                n == old(self).pendulums().len(),
                self.pendulums().len() == n,
                old(self).wf(),
                self.timer_state().wf(),
                self.timer_state().period == old(self).timer_state().period,
                self.timer_state().elapsed == (old(self).timer_state().elapsed + delta) % (
                old(self).timer_state().period as int),
                forall|i: int|
                    0 <= i < k ==> sampled(
                        old(self).pendulums()[i],
                        #[trigger] self.pendulums()[i],
                        true,
                    ),
                forall|i: int|
                    0 <= i < k ==> (#[trigger] self.pendulums()[i]).wf(),
                forall|i: int|
                    k <= i < n ==> #[trigger] self.pendulums()[i] == old(self).pendulums()[i],
            decreases n - k,
        {
            let pe = &mut self.pends[k];
            let tip: Vec2Fx = pe.outer.end_pos;
            pe.trail.push_sample(tip);
            k = k + 1;
        }
    }
}

} // verus!
