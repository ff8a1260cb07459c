//! Collision detection pass: an all-pairs scan that rebuilds every boxed
//! entity's collision set from scratch, using the tick's pre-movement
//! transforms.  The set records every overlap, solid or not; downstream
//! consumers decide which overlaps block motion.

use vstd::prelude::*;

verus! {

use crate::components::BoxCollider;
use crate::components::CollisionSet;
use crate::components::Transform;
use crate::components::box_at;
use crate::components::box_of;
use crate::geometry::Aabb;
use crate::geometry::overlap;
use crate::geometry::overlaps;
use crate::world::ECS;

/// Whether slot `j` is a live entity carrying both a transform and a
/// collision box.
pub open spec fn slot_boxed(
    alive: Seq<bool>,
    tr: Seq<Option<Transform>>,
    co: Seq<Option<BoxCollider>>,
    j: int,
) -> bool {
    &&& 0 <= j < alive.len()
    &&& alive[j]
    &&& tr[j] is Some
    &&& co[j] is Some
}

/// The collision box slot `j` spans.
pub open spec fn slot_box(
    tr: Seq<Option<Transform>>,
    co: Seq<Option<BoxCollider>>,
    j: int,
) -> Aabb {
    box_at(tr[j].unwrap(), co[j].unwrap())
}

/// Every boxed slot's box is small enough for exact arithmetic.
pub open spec fn boxes_in_range(
    alive: Seq<bool>,
    tr: Seq<Option<Transform>>,
    co: Seq<Option<BoxCollider>>,
) -> bool {
    forall|j: int| #[trigger]
        slot_boxed(alive, tr, co, j) ==> slot_box(tr, co, j).in_range()
}

/// The entities below `n` that overlap entity `i`, in ascending id order —
/// the iteration order of the scan, not a spatial order.
pub open spec fn overlapping_upto(
    alive: Seq<bool>,
    tr: Seq<Option<Transform>>,
    co: Seq<Option<BoxCollider>>,
    i: int,
    n: int,
) -> Seq<usize>
    decreases n,
{
    if n <= 0 {
        Seq::empty()
    } else {
        let pre = overlapping_upto(alive, tr, co, i, n - 1);
        if n - 1 != i && slot_boxed(alive, tr, co, n - 1) && overlaps(
            slot_box(tr, co, i),
            slot_box(tr, co, n - 1),
        ) {
            pre.push((n - 1) as usize)
        } else {
            pre
        }
    }
}

/// The full collision set the pass owes entity `i`.
pub open spec fn overlapping_all(
    alive: Seq<bool>,
    tr: Seq<Option<Transform>>,
    co: Seq<Option<BoxCollider>>,
    i: int,
) -> Seq<usize> {
    overlapping_upto(alive, tr, co, i, alive.len() as int)
}

/// Law: self-exclusion.  An entity never appears in its own collision set.
pub proof fn lemma_overlapping_no_self(
    alive: Seq<bool>,
    tr: Seq<Option<Transform>>,
    co: Seq<Option<BoxCollider>>,
    i: int,
    n: int,
)
    requires
        0 <= i <= usize::MAX,
        n <= usize::MAX + 1,
    ensures
        !overlapping_upto(alive, tr, co, i, n).contains(i as usize),
    decreases n,
{
    broadcast use vstd::seq_lib::lemma_seq_contains_after_push;

    if n > 0 {
        lemma_overlapping_no_self(alive, tr, co, i, n - 1);
        if n - 1 != i {
            assert(((n - 1) as usize) as int == n - 1);
            assert((i as usize) as int == i);
        }
    } else {
        assert(!Seq::<usize>::empty().contains(i as usize));
    }
}

/// Law: overlap completeness.  The collision set of entity `i` holds
/// exactly the other boxed entities whose boxes overlap `i`'s box.
pub proof fn lemma_overlapping_contains(
    alive: Seq<bool>,
    tr: Seq<Option<Transform>>,
    co: Seq<Option<BoxCollider>>,
    i: int,
    n: int,
    j: usize,
)
    requires
        0 <= n <= usize::MAX + 1,
    ensures
        overlapping_upto(alive, tr, co, i, n).contains(j) <==> {
            &&& (j as int) < n
            &&& j as int != i
            &&& slot_boxed(alive, tr, co, j as int)
            &&& overlaps(slot_box(tr, co, i), slot_box(tr, co, j as int))
        },
    decreases n,
{
    broadcast use vstd::seq_lib::lemma_seq_contains_after_push;

    if n > 0 {
        lemma_overlapping_contains(alive, tr, co, i, n - 1, j);
    } else {
        assert(!Seq::<usize>::empty().contains(j));
    }
}

/// Everything but the collision-set container is untouched.
pub open spec fn unchanged_except_collision_sets(a: ECS, b: ECS) -> bool {
    &&& b.transforms@ == a.transforms@
    &&& b.velocities@ == a.velocities@
    &&& b.colliders@ == a.colliders@
    &&& b.players@ == a.players@
    &&& b.sprites@ == a.sprites@
    &&& b.alive@ == a.alive@
    &&& b.pending_removals@ == a.pending_removals@
    &&& b.delta_time == a.delta_time
    &&& b.debug_info == a.debug_info
    &&& b.actions == a.actions
    &&& b.options == a.options
    &&& b.input == a.input
    &&& b.bindings == a.bindings
}

/// The collision detection pass.  For every boxed entity the collision set
/// is cleared and rebuilt to hold exactly the other boxed entities whose
/// boxes currently overlap it; nothing else in the world changes.
pub fn run_collide(ecs: &mut ECS)
    requires
        old(ecs).wf(),
        boxes_in_range(old(ecs).alive@, old(ecs).transforms@, old(ecs).colliders@),
    ensures
        final(ecs).wf(),
        unchanged_except_collision_sets(*old(ecs), *final(ecs)),
        final(ecs).collision_sets@.len() == old(ecs).collision_sets@.len(),
        forall|i: int|
            slot_boxed(old(ecs).alive@, old(ecs).transforms@, old(ecs).colliders@, i) ==> {
                &&& (#[trigger] final(ecs).collision_sets@[i]) is Some
                &&& final(ecs).collision_sets@[i].unwrap().overlapping@ == overlapping_all(
                    old(ecs).alive@,
                    old(ecs).transforms@,
                    old(ecs).colliders@,
                    i,
                )
            },
        forall|i: int|
            0 <= i < old(ecs).len() && !slot_boxed(
                old(ecs).alive@,
                old(ecs).transforms@,
                old(ecs).colliders@,
                i,
            ) ==> #[trigger] final(ecs).collision_sets@[i] == old(ecs).collision_sets@[i],
{
    let ghost g_alive = old(ecs).alive@;
    let ghost g_tr = old(ecs).transforms@;
    let ghost g_co = old(ecs).colliders@;
    let n = ecs.alive.len();
    let mut i: usize = 0;
    while i < n
        invariant
            ecs.wf(),
            n == ecs.len(),
            i <= n,
            ecs.alive@ == g_alive,
            ecs.transforms@ == g_tr,
            ecs.colliders@ == g_co,
            boxes_in_range(g_alive, g_tr, g_co),
            unchanged_except_collision_sets(*old(ecs), *ecs),
            ecs.collision_sets@.len() == n,
            forall|k: int|
                0 <= k < i && slot_boxed(g_alive, g_tr, g_co, k) ==> {
                    &&& (#[trigger] ecs.collision_sets@[k]) is Some
                    &&& ecs.collision_sets@[k].unwrap().overlapping@ == overlapping_all(
                        g_alive,
                        g_tr,
                        g_co,
                        k,
                    )
                },
            forall|k: int|
                0 <= k < n && !(k < i && slot_boxed(g_alive, g_tr, g_co, k))
                    ==> #[trigger] ecs.collision_sets@[k] == old(ecs).collision_sets@[k],
        decreases n - i,
    {
        if ecs.alive[i] && ecs.transforms[i].is_some() && ecs.colliders[i].is_some() {
            let t_i = ecs.transforms[i].unwrap();
            let c_i = ecs.colliders[i].unwrap();
            let mbox = box_of(&t_i, &c_i);
            let mut acc: Vec<usize> = Vec::new();
            let mut j: usize = 0;
            while j < n
                invariant
                    ecs.wf(),
                    n == ecs.len(),
                    i < n,
                    j <= n,
                    ecs.alive@ == g_alive,
                    ecs.transforms@ == g_tr,
                    ecs.colliders@ == g_co,
                    boxes_in_range(g_alive, g_tr, g_co),
                    slot_boxed(g_alive, g_tr, g_co, i as int),
                    mbox == slot_box(g_tr, g_co, i as int),
                    acc@ == overlapping_upto(g_alive, g_tr, g_co, i as int, j as int),
                decreases n - j,
            {
                if j != i && ecs.alive[j] && ecs.transforms[j].is_some()
                    && ecs.colliders[j].is_some() {
                    let t_j = ecs.transforms[j].unwrap();
                    let c_j = ecs.colliders[j].unwrap();
                    let obox = box_of(&t_j, &c_j);
                    proof {
                        assert(slot_boxed(g_alive, g_tr, g_co, j as int));
                    }
                    if overlap(&mbox, &obox) {
                        acc.push(j);
                    }
                }
                j = j + 1;
            }
            ecs.collision_sets[i] = Some(CollisionSet { overlapping: acc });
        }
        i = i + 1;
    }
}

} // verus!
