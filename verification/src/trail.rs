//! The trail of recent tip positions, and its sampling timer.
//!
//! A trail is a strict FIFO of at most `TRAIL_CAP` positions. The
//! buffer carries a ghost history of every position ever sampled; its
//! well-formedness says the buffer holds exactly the most recent
//! `TRAIL_CAP` entries of that history, oldest first. Sampling runs on
//! its own repeating timer, decoupled from the physics tick.

use vstd::prelude::*;
use crate::fixed::mod_pos;
use crate::model::Vec2Fx;

verus! {

/// Capacity of a trail: the hundred most recent samples are kept.
pub const TRAIL_CAP: usize = 100;

/// Default sampling period, 0.06 time units in fixed point.
pub const FX_TRAIL_PERIOD: i64 = 60_000;

/// The suffix of a sample history that a well-formed buffer holds:
/// all of it while it fits, otherwise the `TRAIL_CAP` newest entries.
pub open spec fn recent_of(h: Seq<Vec2Fx>) -> Seq<Vec2Fx> {
    if h.len() <= TRAIL_CAP {
        h
    } else {
        h.skip(h.len() - TRAIL_CAP)
    }
}

/// A bounded FIFO of recent tip positions, oldest first.
pub struct TrailBuffer {
    items: Vec<Vec2Fx>,
    hist: Ghost<Seq<Vec2Fx>>,
}

impl TrailBuffer {
    /// The positions currently held, oldest to newest.
    pub closed spec fn snapshot(self) -> Seq<Vec2Fx> {
        self.items@
    }

    /// Every position ever sampled into this buffer, in order.
    pub closed spec fn history(self) -> Seq<Vec2Fx> {
        self.hist@
    }

    /// The buffer holds exactly the most recent samples: the whole
    /// history while it fits, else its `TRAIL_CAP` newest entries.
    pub open spec fn wf(self) -> bool {
        self.snapshot() == recent_of(self.history())
    }

    /// An empty trail.
    pub fn new() -> (t: TrailBuffer)
        ensures
            t.wf(),
            t.history() == Seq::<Vec2Fx>::empty(),
            t.snapshot() == Seq::<Vec2Fx>::empty(),
    {
        TrailBuffer { items: Vec::new(), hist: Ghost(Seq::empty()) }
    }

    /// How many positions the buffer currently holds.
    pub fn len(&self) -> (n: usize)
        ensures
            n == self.snapshot().len(),
    {
        self.items.len()
    }

    /// The held positions, oldest first, for drawing as a path.
    pub fn positions(&self) -> (r: &Vec<Vec2Fx>)
        ensures
            r@ == self.snapshot(),
    {
        &self.items
    }

    /// Appends one sample, evicting the oldest entry first when the
    /// buffer is at capacity.
    pub fn push_sample(&mut self, p: Vec2Fx)
        ensures
            final(self).history() == old(self).history().push(p),
            old(self).wf() ==> final(self).wf(),
    {
        if self.items.len() >= TRAIL_CAP {
            let _dropped = self.items.remove(0);
        }
        self.items.push(p);
        self.hist = Ghost(self.hist@.push(p));
        proof {
            let h = old(self).history();
            if old(self).wf() {
                if h.len() < TRAIL_CAP {
                    assert(self.items@ =~= recent_of(h.push(p)));
                } else if h.len() == TRAIL_CAP {
                    assert(self.items@ =~= recent_of(h.push(p)));
                } else {
                    assert(self.items@ =~= recent_of(h.push(p)));
                }
            }
        }
    }
}

/// A repeating timer: accumulates elapsed time, fires when a period
/// has passed, and keeps the remainder.
#[derive(Clone, Copy, PartialEq, Eq, Structural, Debug)]
pub struct TrailTimer {
    pub period: i64,
    pub elapsed: i64,
}

impl TrailTimer {
    /// A timer is well formed when its period is positive and the
    /// accumulated time has not yet reached it.
    pub open spec fn wf(self) -> bool {
        self.period > 0 && 0 <= self.elapsed < self.period
    }

    /// A fresh timer with nothing accumulated.
    pub fn new(period: i64) -> (t: TrailTimer)
        requires
            period > 0,
        ensures
            t == (TrailTimer { period, elapsed: 0 }),
            t.wf(),
    {
        TrailTimer { period, elapsed: 0 }
    }

    /// Adds elapsed real time; reports whether at least one full
    /// period completed, and keeps the remainder toward the next one.
    pub fn advance(&mut self, delta: i64) -> (fired: bool)
        requires
            old(self).wf(),
            delta >= 0,
        ensures
            final(self).wf(),
            final(self).period == old(self).period,
            fired == (old(self).elapsed + delta >= old(self).period),
            final(self).elapsed == (old(self).elapsed + delta) % (old(self).period as int),
    {
        let total: i128 = self.elapsed as i128 + delta as i128;
        let fired: bool = total >= self.period as i128;
        let rem: i128 = mod_pos(total, self.period as i128);
        self.elapsed = rem as i64;
        fired
    }
}

} // verus!
