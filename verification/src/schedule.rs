//! Fixed-step scheduling.
//!
//! The physics runs at a fixed timestep while the render loop runs at
//! whatever rate the display allows. The stepper accumulates elapsed
//! real time and hands it out as a number of whole physics steps,
//! keeping the remainder toward the next frame, which decouples the
//! simulation rate from the display rate.

use vstd::prelude::*;
use crate::fixed::{div_pos, mod_pos};

verus! {

/// Turns variable frame times into whole fixed-size physics steps.
#[derive(Clone, Copy, PartialEq, Eq, Structural, Debug)]
pub struct FixedStepper {
    pub step: i64,
    pub accumulator: i64,
}

impl FixedStepper {
    /// The step is positive and the leftover time is less than one
    /// step.
    pub open spec fn wf(self) -> bool {
        self.step > 0 && 0 <= self.accumulator < self.step
    }

    /// A fresh stepper with nothing accumulated.
    pub fn new(step: i64) -> (s: FixedStepper)
        requires
            step > 0,
        ensures
            s == (FixedStepper { step, accumulator: 0 }),
            s.wf(),
    {
        FixedStepper { step, accumulator: 0 }
    }

    /// Adds one frame of elapsed real time and returns how many whole
    /// physics steps it covers; the remainder stays accumulated.
    pub fn advance(&mut self, delta: i64) -> (n: u64)
        requires
            old(self).wf(),
            delta >= 0,
        ensures
            final(self).wf(),
            final(self).step == old(self).step,
            n == (old(self).accumulator + delta) / (old(self).step as int),
            final(self).accumulator == (old(self).accumulator + delta) % (
            old(self).step as int),
    {
        let total: i128 = self.accumulator as i128 + delta as i128;
        let steps: i128 = div_pos(total, self.step as i128);
        let rem: i128 = mod_pos(total, self.step as i128);
        self.accumulator = rem as i64;
        steps as u64
    }
}

} // verus!
