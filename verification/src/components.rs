//! Plain per-entity data records.  Every component is owned exclusively by
//! its entity; a system mutates a component only through the world.

use vstd::prelude::*;

verus! {

use crate::geometry::Aabb;

/// Position, scale and rotation of an entity.  Coordinates are integers in
/// caller-chosen sub-units; rotation is an opaque integer angle unit that
/// the simulation core stores but never interprets.
#[derive(Clone, Copy, Debug, PartialEq, Eq, Structural)]
pub struct Transform {
    pub x: i64,
    pub y: i64,
    pub scale: i64,
    pub rotation: i64,
}

impl Transform {
    /// Scale must be strictly positive.
    pub open spec fn wf(self) -> bool {
        self.scale > 0
    }
}

/// Linear velocity in distance sub-units per time unit.
#[derive(Clone, Copy, Debug, PartialEq, Eq, Structural)]
pub struct Velocity {
    pub x: i64,
    pub y: i64,
}

/// An axis-aligned collision box centred on the owning entity's transform.
/// `solid` distinguishes motion-blocking colliders from overlap-only
/// triggers.
#[derive(Clone, Copy, Debug, PartialEq, Eq, Structural)]
pub struct BoxCollider {
    pub width: i64,
    pub height: i64,
    pub solid: bool,
}

impl BoxCollider {
    /// Extents are never negative.
    pub open spec fn wf(self) -> bool {
        self.width >= 0 && self.height >= 0
    }
}

/// The entities currently overlapping the owner, rebuilt from scratch by
/// every collision detection pass; insertion order is entity iteration
/// order, not spatial meaning.
#[derive(Clone, Debug)]
pub struct CollisionSet {
    pub overlapping: Vec<usize>,
}

/// A drawable attached to an entity: an opaque handle into the external
/// texture store.  Loading the image and submitting the draw call belong to
/// the rendering collaborator; the core only stores the handle beside the
/// pose it is drawn at.
#[derive(Clone, Copy, Debug, PartialEq, Eq, Structural)]
pub struct Sprite {
    pub image: u64,
}

/// Marks an entity as receiving input-derived motion.
#[derive(Clone, Copy, Debug, PartialEq, Eq, Structural)]
pub struct Player {
    pub movement_speed: i64,
}

impl Player {
    /// Movement speed is never negative.
    pub open spec fn wf(self) -> bool {
        self.movement_speed >= 0
    }
}

/// The collision box a transform and a collider span together.
pub open spec fn box_at(t: Transform, c: BoxCollider) -> Aabb {
    Aabb { x: t.x, y: t.y, w: c.width, h: c.height }
}

/// Runtime constructor for the box of a (transform, collider) pair.
pub fn box_of(t: &Transform, c: &BoxCollider) -> (r: Aabb)
    ensures
        r == box_at(*t, *c),
{
    Aabb { x: t.x, y: t.y, w: c.width, h: c.height }
}

} // verus!
