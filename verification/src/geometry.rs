//! Axis-aligned box geometry: the overlap test shared by the collision
//! detection pass and the swept movement pass.
//!
//! A box is centred on its owning entity's transform position; `w` and `h`
//! are the full extents.  All tests compare doubled coordinates, so no
//! halving of an odd extent ever loses information.

use vstd::prelude::*;

verus! {

use crate::COORD_LIMIT;

/// An axis-aligned box: centre `(x, y)`, full extents `w` and `h`.
#[derive(Clone, Copy, Debug, PartialEq, Eq, Structural)]
pub struct Aabb {
    pub x: i64,
    pub y: i64,
    pub w: i64,
    pub h: i64,
}

impl Aabb {
    /// The box's fields are small enough for exact `i64` arithmetic.
    pub open spec fn in_range(self) -> bool {
        &&& -COORD_LIMIT <= self.x <= COORD_LIMIT
        &&& -COORD_LIMIT <= self.y <= COORD_LIMIT
        &&& 0 <= self.w <= COORD_LIMIT
        &&& 0 <= self.h <= COORD_LIMIT
    }
}

/// Whether the two boxes overlap with their centres displaced by
/// `(dx, dy)` and `(0, 0)` respectively.  Strict inequalities: boxes that
/// merely touch along an edge do not overlap.  The comparisons run on
/// doubled coordinates, which equals the test on exact half-extents.
pub open spec fn overlaps_shifted(a: Aabb, b: Aabb, dx: int, dy: int) -> bool {
    &&& 2 * (a.x + dx) - a.w < 2 * b.x + b.w
    &&& 2 * (a.x + dx) + a.w > 2 * b.x - b.w
    &&& 2 * (a.y + dy) - a.h < 2 * b.y + b.h
    &&& 2 * (a.y + dy) + a.h > 2 * b.y - b.h
}

/// Whether two boxes overlap in place.
pub open spec fn overlaps(a: Aabb, b: Aabb) -> bool {
    overlaps_shifted(a, b, 0, 0)
}

/// The overlap test is symmetric: either box may play either role.
pub proof fn lemma_overlap_symmetric(a: Aabb, b: Aabb)
    ensures
        overlaps(a, b) == overlaps(b, a),
{
}

/// Runtime overlap test, exact against `overlaps`.
pub fn overlap(a: &Aabb, b: &Aabb) -> (r: bool)
    requires
        a.in_range(),
        b.in_range(),
    ensures
        r == overlaps(*a, *b),
{
    2 * a.x - a.w < 2 * b.x + b.w && 2 * a.x + a.w > 2 * b.x - b.w && 2 * a.y - a.h < 2 * b.y
        + b.h && 2 * a.y + a.h > 2 * b.y - b.h
}

} // verus!
