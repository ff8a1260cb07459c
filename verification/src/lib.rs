//! Simulation core of a small real-time 2D game engine.
//!
//! The crate advances per-frame game state with an entity-component world and
//! a collision subsystem for axis-aligned rectangular bodies.  Coordinates,
//! extents and velocities are integers in caller-chosen sub-units, so every
//! geometric statement here is exact.  Rendering, windowing, raw input
//! capture and rigid-body dynamics are external collaborators: they hand the
//! core plain values (pressed keys, elapsed time) and read plain values back
//! (poses to draw, impulses to apply).
//!
//! Structural invariant violations — a collision box without its co-registered
//! collision set or transform — indicate a world-construction bug, not a
//! runtime condition: the world's operations rule them out by precondition,
//! so no verified function here panics.  Degenerate numeric inputs (a zero
//! velocity component in swept resolution) are handled by stated policy, not
//! by error.

pub mod action;
pub mod collide;
pub mod components;
pub mod geometry;
pub mod input;
pub mod physics;
pub mod resources;
pub mod schedule;
pub mod sweep;
pub mod world;

use vstd::prelude::*;

verus! {

/// Largest magnitude admitted for a coordinate, extent or per-tick
/// displacement fed to the geometric routines; keeps all intermediate
/// products inside `i128` and all sums inside `i64`.
pub const COORD_LIMIT: i64 = 0x100_0000_0000;

} // verus!

