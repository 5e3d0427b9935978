//! A verified double-pendulum simulation core.
//!
//! The library models one or more independent double pendulums under
//! gravity: the state of each pendulum, a fixed-timestep integrator for
//! the coupled equations of motion, a bounded trail of recent tip
//! positions sampled on its own timer, and a registry that owns the set
//! of live pendulums.
//!
//! All physical quantities are fixed-point numbers: an `i64` holding
//! millionths of a unit (see [`fixed`]). Every step of the computation
//! is exact integer arithmetic, so the contracts pin down each result
//! bit for bit. Arithmetic that would overflow, and a near-zero
//! denominator in the equations of motion, are treated as a degenerate
//! state: the affected pendulum is frozen for that tick instead of
//! propagating a bad value into its position data.

pub mod fixed;
pub mod integrator;
pub mod laws;
pub mod model;
pub mod registry;
pub mod schedule;
pub mod trail;
pub mod trig;
