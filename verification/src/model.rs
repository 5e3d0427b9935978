//! The pendulum data model.
//!
//! A double pendulum is two chained segments with shared traits and a
//! bounded trail of recent tip positions. Positions are Cartesian
//! fixed-point vectors; the origin is the anchor of the inner segment,
//! and the y axis points up, so a segment hanging straight down from
//! the origin ends at `(0, -length)`.

use vstd::prelude::*;
use crate::fixed::FX_ONE;
use crate::trail::TrailBuffer;

verus! {

/// Rod length given to both segments at spawn, 200 units.
pub const FX_SEG_LEN: i64 = 200_000_000;

/// A two-dimensional fixed-point vector.
#[derive(Clone, Copy, PartialEq, Eq, Structural, Debug)]
pub struct Vec2Fx {
    pub x: i64,
    pub y: i64,
}

/// One rigid link of a double pendulum. The angle is in fixed-point
/// radians measured from the downward vertical and is never wrapped;
/// the Cartesian positions are recomputed by the integrator each tick.
#[derive(Clone, Copy, PartialEq, Eq, Structural, Debug)]
pub struct Segment {
    pub length: i64,
    pub angle: i64,
    pub velocity: i64,
    pub acceleration: i64,
    pub start_pos: Vec2Fx,
    pub end_pos: Vec2Fx,
}

impl Segment {
    /// A segment is well formed when its rod has positive length.
    pub open spec fn wf(self) -> bool {
        self.length > 0
    }

    /// A fresh segment at the given angle, at rest, with both
    /// positions at the origin.
    pub fn at_angle(length: i64, angle: i64) -> (s: Segment)
        requires
            length > 0,
        ensures
            s == (Segment {
                length,
                angle,
                velocity: 0,
                acceleration: 0,
                start_pos: Vec2Fx { x: 0, y: 0 },
                end_pos: Vec2Fx { x: 0, y: 0 },
            }),
            s.wf(),
    {
        Segment {
            length,
            angle,
            velocity: 0,
            acceleration: 0,
            start_pos: Vec2Fx { x: 0, y: 0 },
            end_pos: Vec2Fx { x: 0, y: 0 },
        }
    }
}

/// Traits shared by both segments: one point mass (used for both ends
/// in the equations of motion) and an opaque colour tag fixed at
/// creation.
#[derive(Clone, Copy, PartialEq, Eq, Structural, Debug)]
pub struct PendulumTraits {
    pub mass: i64,
    pub color_tag: u32,
}

impl PendulumTraits {
    pub open spec fn wf(self) -> bool {
        self.mass > 0
    }

    /// Default traits: unit mass and the given colour tag.
    pub fn unit_mass(color_tag: u32) -> (t: PendulumTraits)
        ensures
            t == (PendulumTraits { mass: FX_ONE, color_tag }),
            t.wf(),
    {
        PendulumTraits { mass: FX_ONE, color_tag }
    }
}

/// A double pendulum: chained inner and outer segments, shared traits,
/// and the trail of recent outer-tip positions.
pub struct DoublePendulum {
    pub inner: Segment,
    pub outer: Segment,
    pub traits: PendulumTraits,
    pub trail: TrailBuffer,
}

impl DoublePendulum {
    /// The chain constraint: the outer segment starts where the inner
    /// segment ends.
    pub open spec fn chained(self) -> bool {
        self.outer.start_pos == self.inner.end_pos
    }

    /// Both segments at rest: no velocity and no acceleration.
    pub open spec fn at_rest(self) -> bool {
        &&& self.inner.velocity == 0
        &&& self.inner.acceleration == 0
        &&& self.outer.velocity == 0
        &&& self.outer.acceleration == 0
    }

    /// Well-formedness: positive lengths and mass, a well-formed
    /// trail, and the chain constraint.
    pub open spec fn wf(self) -> bool {
        &&& self.inner.wf()
        &&& self.outer.wf()
        &&& self.traits.wf()
        &&& self.trail.wf()
        &&& self.chained()
    }

    /// A fresh pendulum at the given angles: both rods of the spawn
    /// length, unit mass, at rest, empty trail, both segments rooted
    /// at the origin.
    pub fn with_angles(inner_angle: i64, outer_angle: i64, color_tag: u32) -> (p: DoublePendulum)
        ensures
            p.wf(),
            p.at_rest(),
            p.inner.angle == inner_angle,
            p.outer.angle == outer_angle,
            p.inner.length == FX_SEG_LEN,
            p.outer.length == FX_SEG_LEN,
            p.traits == (PendulumTraits { mass: FX_ONE, color_tag }),
            p.trail.history() == Seq::<Vec2Fx>::empty(),
            p.trail.snapshot() == Seq::<Vec2Fx>::empty(),
    {
        DoublePendulum {
            inner: Segment::at_angle(FX_SEG_LEN, inner_angle),
            outer: Segment::at_angle(FX_SEG_LEN, outer_angle),
            traits: PendulumTraits::unit_mass(color_tag),
            trail: TrailBuffer::new(),
        }
    }
}

/// The three independent rendering and physics toggles, owned by the
/// caller and read each tick.
#[derive(Clone, Copy, PartialEq, Eq, Structural, Debug)]
pub struct SimulationConfig {
    pub draw_trails: bool,
    pub draw_pendulums: bool,
    pub damping_enabled: bool,
}

impl SimulationConfig {
    /// Startup state: trails on, pendulum rods off, damping off.
    pub fn startup() -> (c: SimulationConfig)
        ensures
            c == (SimulationConfig { draw_trails: true, draw_pendulums: false, damping_enabled: false }),
    {
        SimulationConfig { draw_trails: true, draw_pendulums: false, damping_enabled: false }
    }

    /// Flips the trail-drawing toggle and nothing else.
    pub fn toggle_trails(&mut self)
        ensures
            final(self).draw_trails == !old(self).draw_trails,
            final(self).draw_pendulums == old(self).draw_pendulums,
            final(self).damping_enabled == old(self).damping_enabled,
    {
        self.draw_trails = !self.draw_trails;
    }

    /// Flips the rod-drawing toggle and nothing else.
    pub fn toggle_pendulum_draw(&mut self)
        ensures
            final(self).draw_pendulums == !old(self).draw_pendulums,
            final(self).draw_trails == old(self).draw_trails,
            final(self).damping_enabled == old(self).damping_enabled,
    {
        self.draw_pendulums = !self.draw_pendulums;
    }

    /// Flips the damping toggle and nothing else.
    pub fn toggle_damping(&mut self)
        ensures
            final(self).damping_enabled == !old(self).damping_enabled,
            final(self).draw_trails == old(self).draw_trails,
            final(self).draw_pendulums == old(self).draw_pendulums,
    {
        self.damping_enabled = !self.damping_enabled;
    }
}

} // verus!
