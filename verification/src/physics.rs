//! Swept movement and resolution pass: integrates each entity's velocity
//! into its transform.  A mover with a solid collision box is clamped
//! against every other solid boxed entity so it never moves past contact;
//! everything else moves by exactly `velocity * delta_time`.
//!
//! Pairs are considered in entity order against the tick's pre-movement
//! transforms, each from the same candidate displacement; the last pair that
//! produces a clamp decides the applied displacement.  Resolution makes no
//! attempt at a simultaneous multi-obstacle constraint.

use vstd::prelude::*;

verus! {

use crate::COORD_LIMIT;
use crate::collide::boxes_in_range;
use crate::collide::slot_box;
use crate::collide::slot_boxed;
use crate::components::BoxCollider;
use crate::components::Transform;
use crate::components::Velocity;
use crate::components::box_of;
use crate::geometry::Aabb;
use crate::sweep::resolve_pair;
use crate::sweep::resolve_pair_spec;
use crate::world::ECS;
use crate::world::unchanged_except_transforms;

/// Whether slot `i` is a live entity carrying a transform and a velocity.
pub open spec fn slot_mover(
    alive: Seq<bool>,
    tr: Seq<Option<Transform>>,
    ve: Seq<Option<Velocity>>,
    i: int,
) -> bool {
    &&& 0 <= i < alive.len()
    &&& alive[i]
    &&& tr[i] is Some
    &&& ve[i] is Some
}

/// Whether slot `j` is a live boxed entity whose collider blocks motion.
pub open spec fn slot_solid(
    alive: Seq<bool>,
    tr: Seq<Option<Transform>>,
    co: Seq<Option<BoxCollider>>,
    j: int,
) -> bool {
    slot_boxed(alive, tr, co, j) && co[j].unwrap().solid
}

/// The displacement left for mover `i` after weighing the solid obstacles
/// below `n`: each pair is resolved from the same candidate `(dx, dy)`, and
/// the last pair that clamps wins.
pub open spec fn resolve_upto(
    alive: Seq<bool>,
    tr: Seq<Option<Transform>>,
    co: Seq<Option<BoxCollider>>,
    i: int,
    mbox: Aabb,
    dx: int,
    dy: int,
    n: int,
) -> (int, int)
    decreases n,
{
    if n <= 0 {
        (dx, dy)
    } else {
        let prev = resolve_upto(alive, tr, co, i, mbox, dx, dy, n - 1);
        if n - 1 != i && slot_solid(alive, tr, co, n - 1) {
            match resolve_pair_spec(mbox, slot_box(tr, co, n - 1), dx, dy) {
                Some(r) => r,
                None => prev,
            }
        } else {
            prev
        }
    }
}

/// The displacement mover `i` applies after weighing every solid obstacle.
pub open spec fn resolve_all(
    alive: Seq<bool>,
    tr: Seq<Option<Transform>>,
    co: Seq<Option<BoxCollider>>,
    i: int,
    mbox: Aabb,
    dx: int,
    dy: int,
) -> (int, int) {
    resolve_upto(alive, tr, co, i, mbox, dx, dy, alive.len() as int)
}

/// The displacement entity `i` applies this tick: `velocity * delta_time`,
/// clamped by swept resolution when the mover itself is solid.  A mover
/// without a collision box, or with an overlap-only box, moves freely.
pub open spec fn applied_disp(
    alive: Seq<bool>,
    tr: Seq<Option<Transform>>,
    ve: Seq<Option<Velocity>>,
    co: Seq<Option<BoxCollider>>,
    dt: int,
    i: int,
) -> (int, int) {
    let v = ve[i].unwrap();
    let dx = v.x * dt;
    let dy = v.y * dt;
    if co[i] is Some && co[i].unwrap().solid {
        resolve_all(alive, tr, co, i, slot_box(tr, co, i), dx, dy)
    } else {
        (dx, dy)
    }
}

/// Every number this pass feeds to the geometric routines stays inside the
/// exact-arithmetic range: boxes and transform coordinates are bounded, and
/// each mover's candidate displacement is bounded per axis.
pub open spec fn physics_in_range(ecs: ECS) -> bool {
    &&& ecs.delta_time.0 <= COORD_LIMIT
    &&& boxes_in_range(ecs.alive@, ecs.transforms@, ecs.colliders@)
    &&& forall|i: int|
        0 <= i < ecs.len() ==> ((#[trigger] ecs.transforms@[i]) matches Some(t) ==> {
            &&& -COORD_LIMIT <= t.x <= COORD_LIMIT
            &&& -COORD_LIMIT <= t.y <= COORD_LIMIT
        })
    &&& forall|i: int|
        0 <= i < ecs.len() ==> ((#[trigger] ecs.velocities@[i]) matches Some(v) ==> {
            &&& -COORD_LIMIT <= v.x * ecs.delta_time.0 <= COORD_LIMIT
            &&& -COORD_LIMIT <= v.y * ecs.delta_time.0 <= COORD_LIMIT
        })
}

/// Bounds the clamped displacement a resolved pair can produce.
proof fn lemma_resolve_pair_bounds(m: Aabb, o: Aabb, dx: int, dy: int)
    requires
        m.in_range(),
        o.in_range(),
        -COORD_LIMIT <= dx <= COORD_LIMIT,
        -COORD_LIMIT <= dy <= COORD_LIMIT,
        resolve_pair_spec(m, o, dx, dy) is Some,
    ensures
        -4 * COORD_LIMIT <= resolve_pair_spec(m, o, dx, dy).unwrap().0 <= 4 * COORD_LIMIT,
        -4 * COORD_LIMIT <= resolve_pair_spec(m, o, dx, dy).unwrap().1 <= 4 * COORD_LIMIT,
{
}

/// The swept movement pass.  Every mover's transform advances by its
/// applied displacement, computed against the pre-movement transforms;
/// scale and rotation, every non-mover, and everything else in the world
/// stay untouched.
pub fn run_physics(ecs: &mut ECS)
    requires
        old(ecs).wf(),
        physics_in_range(*old(ecs)),
    ensures
        final(ecs).wf(),
        unchanged_except_transforms(*old(ecs), *final(ecs)),
        final(ecs).transforms@.len() == old(ecs).transforms@.len(),
        forall|i: int|
            slot_mover(old(ecs).alive@, old(ecs).transforms@, old(ecs).velocities@, i) ==> {
                &&& (#[trigger] final(ecs).transforms@[i]) is Some
                &&& final(ecs).transforms@[i].unwrap().x as int == old(
                    ecs,
                ).transforms@[i].unwrap().x + applied_disp(
                    old(ecs).alive@,
                    old(ecs).transforms@,
                    old(ecs).velocities@,
                    old(ecs).colliders@,
                    old(ecs).delta_time.0 as int,
                    i,
                ).0
                &&& final(ecs).transforms@[i].unwrap().y as int == old(
                    ecs,
                ).transforms@[i].unwrap().y + applied_disp(
                    old(ecs).alive@,
                    old(ecs).transforms@,
                    old(ecs).velocities@,
                    old(ecs).colliders@,
                    old(ecs).delta_time.0 as int,
                    i,
                ).1
                &&& final(ecs).transforms@[i].unwrap().scale == old(
                    ecs,
                ).transforms@[i].unwrap().scale
                &&& final(ecs).transforms@[i].unwrap().rotation == old(
                    ecs,
                ).transforms@[i].unwrap().rotation
            },
        forall|i: int|
            0 <= i < old(ecs).len() && !slot_mover(
                old(ecs).alive@,
                old(ecs).transforms@,
                old(ecs).velocities@,
                i,
            ) ==> #[trigger] final(ecs).transforms@[i] == old(ecs).transforms@[i],
{
    let ghost g_alive = old(ecs).alive@;
    let ghost g_tr = old(ecs).transforms@;
    let ghost g_ve = old(ecs).velocities@;
    let ghost g_co = old(ecs).colliders@;
    let ghost g_dt = old(ecs).delta_time.0 as int;
    let n = ecs.alive.len();
    let dtc: i64 = ecs.delta_time.0 as i64;
    let mut new_tr: Vec<Option<Transform>> = Vec::new();
    let mut i: usize = 0;
    while i < n
        invariant
            ecs == old(ecs),
            ecs.wf(),
            physics_in_range(*ecs),
            n == ecs.len(),
            g_alive == ecs.alive@,
            g_tr == ecs.transforms@,
            g_ve == ecs.velocities@,
            g_co == ecs.colliders@,
            g_dt == ecs.delta_time.0 as int,
            dtc as int == g_dt,
            i <= n,
            new_tr@.len() == i as int,
            forall|k: int|
                0 <= k < i && slot_mover(g_alive, g_tr, g_ve, k) ==> {
                    &&& (#[trigger] new_tr@[k]) is Some
                    &&& new_tr@[k].unwrap().x as int == g_tr[k].unwrap().x + applied_disp(
                        g_alive,
                        g_tr,
                        g_ve,
                        g_co,
                        g_dt,
                        k,
                    ).0
                    &&& new_tr@[k].unwrap().y as int == g_tr[k].unwrap().y + applied_disp(
                        g_alive,
                        g_tr,
                        g_ve,
                        g_co,
                        g_dt,
                        k,
                    ).1
                    &&& new_tr@[k].unwrap().scale == g_tr[k].unwrap().scale
                    &&& new_tr@[k].unwrap().rotation == g_tr[k].unwrap().rotation
                },
            forall|k: int|
                0 <= k < i && !slot_mover(g_alive, g_tr, g_ve, k) ==> #[trigger] new_tr@[k]
                    == g_tr[k],
        decreases n - i,
    {
        if ecs.alive[i] && ecs.transforms[i].is_some() && ecs.velocities[i].is_some() {
            let t = ecs.transforms[i].unwrap();
            let v = ecs.velocities[i].unwrap();
            let dx: i64 = v.x * dtc;
            let dy: i64 = v.y * dtc;
            let solid_mover: bool = match &ecs.colliders[i] {
                Some(c) => c.solid,
                None => false,
            };
            if solid_mover {
                let c = ecs.colliders[i].unwrap();
                let mbox = box_of(&t, &c);
                proof {
                    assert(slot_boxed(g_alive, g_tr, g_co, i as int));
                    assert(mbox == slot_box(g_tr, g_co, i as int));
                }
                let mut rx: i64 = dx;
                let mut ry: i64 = dy;
                let mut j: usize = 0;
                while j < n
                    invariant
                        ecs == old(ecs),
                        ecs.wf(),
                        physics_in_range(*ecs),
                        n == ecs.len(),
                        g_alive == ecs.alive@,
                        g_tr == ecs.transforms@,
                        g_ve == ecs.velocities@,
                        g_co == ecs.colliders@,
                        i < n,
                        j <= n,
                        slot_boxed(g_alive, g_tr, g_co, i as int),
                        mbox == slot_box(g_tr, g_co, i as int),
                        mbox.in_range(),
                        -COORD_LIMIT <= dx <= COORD_LIMIT,
                        -COORD_LIMIT <= dy <= COORD_LIMIT,
                        -4 * COORD_LIMIT <= rx <= 4 * COORD_LIMIT,
                        -4 * COORD_LIMIT <= ry <= 4 * COORD_LIMIT,
                        (rx as int, ry as int) == resolve_upto(
                            g_alive,
                            g_tr,
                            g_co,
                            i as int,
                            mbox,
                            dx as int,
                            dy as int,
                            j as int,
                        ),
                    decreases n - j,
                {
                    let obstacle: bool = j != i && ecs.alive[j] && ecs.transforms[j].is_some()
                        && match &ecs.colliders[j] {
                        Some(c) => c.solid,
                        None => false,
                    };
                    if obstacle {
                        let t_j = ecs.transforms[j].unwrap();
                        let c_j = ecs.colliders[j].unwrap();
                        let obox = box_of(&t_j, &c_j);
                        proof {
                            assert(slot_boxed(g_alive, g_tr, g_co, j as int));
                            assert(obox == slot_box(g_tr, g_co, j as int));
                        }
                        match resolve_pair(&mbox, &obox, dx, dy) {
                            Some((a, b)) => {
                                proof {
                                    lemma_resolve_pair_bounds(
                                        mbox,
                                        obox,
                                        dx as int,
                                        dy as int,
                                    );
                                }
                                rx = a;
                                ry = b;
                            },
                            None => {},
                        }
                    }
                    j = j + 1;
                }
                new_tr.push(
                    Some(Transform { x: t.x + rx, y: t.y + ry, scale: t.scale, rotation: t.rotation }),
                );
            } else {
                new_tr.push(
                    Some(Transform { x: t.x + dx, y: t.y + dy, scale: t.scale, rotation: t.rotation }),
                );
            }
        } else {
            let copy: Option<Transform> = ecs.transforms[i];
            new_tr.push(copy);
        }
        i = i + 1;
    }
    ecs.transforms = new_tr;
}

/// Law: free motion.  A mover without a solid collision box moves by
/// exactly `velocity * delta_time`, with no clamping, whatever else is in
/// the world.
pub proof fn lemma_free_motion(
    alive: Seq<bool>,
    tr: Seq<Option<Transform>>,
    ve: Seq<Option<Velocity>>,
    co: Seq<Option<BoxCollider>>,
    dt: int,
    i: int,
)
    requires
        slot_mover(alive, tr, ve, i),
        !(co[i] is Some && co[i].unwrap().solid),
    ensures
        applied_disp(alive, tr, ve, co, dt, i) == (
            ve[i].unwrap().x * dt,
            ve[i].unwrap().y * dt,
        ),
{
}

/// Law: zero-velocity idempotence.  A mover whose velocity is exactly
/// `(0, 0)` applies a zero displacement, so its transform never changes,
/// tick after tick.
pub proof fn lemma_zero_velocity_fixed(
    alive: Seq<bool>,
    tr: Seq<Option<Transform>>,
    ve: Seq<Option<Velocity>>,
    co: Seq<Option<BoxCollider>>,
    dt: int,
    i: int,
)
    requires
        slot_mover(alive, tr, ve, i),
        ve[i].unwrap().x == 0,
        ve[i].unwrap().y == 0,
    ensures
        applied_disp(alive, tr, ve, co, dt, i) == (0int, 0int),
{
    if co[i] is Some && co[i].unwrap().solid {
        lemma_resolve_zero(alive, tr, co, i, slot_box(tr, co, i), alive.len() as int);
    }
}

/// With a single eligible obstacle, the fold reduces to that one pair's
/// resolution whenever the pair clamps.
proof fn lemma_resolve_upto_single(
    alive: Seq<bool>,
    tr: Seq<Option<Transform>>,
    co: Seq<Option<BoxCollider>>,
    i: int,
    mbox: Aabb,
    dx: int,
    dy: int,
    n: int,
    j: int,
)
    requires
        0 <= j < n,
        j != i,
        slot_solid(alive, tr, co, j),
        forall|k: int| #[trigger]
            slot_solid(alive, tr, co, k) ==> k == i || k == j,
        resolve_pair_spec(mbox, slot_box(tr, co, j), dx, dy) is Some,
    ensures
        resolve_upto(alive, tr, co, i, mbox, dx, dy, n) == resolve_pair_spec(
            mbox,
            slot_box(tr, co, j),
            dx,
            dy,
        ).unwrap(),
    decreases n,
{
    if n - 1 > j {
        lemma_resolve_upto_single(alive, tr, co, i, mbox, dx, dy, n - 1, j);
    }
}

/// Law: non-penetration under single-obstacle resolution, at the movement
/// pass's own fold.  A solid mover facing exactly one other solid boxed
/// entity, with a displacement whose end position would overlap it, is
/// clamped so that its resolved box no longer overlaps the obstacle — save
/// at an exact corner tie of the two axes' entry times, which the pairwise
/// rule deliberately leaves alone.
pub proof fn lemma_single_obstacle_non_penetrating_fold(
    alive: Seq<bool>,
    tr: Seq<Option<Transform>>,
    co: Seq<Option<BoxCollider>>,
    i: int,
    mbox: Aabb,
    dx: int,
    dy: int,
    j: int,
)
    requires
        0 <= j < alive.len(),
        j != i,
        slot_solid(alive, tr, co, j),
        forall|k: int| #[trigger]
            slot_solid(alive, tr, co, k) ==> k == i || k == j,
        crate::geometry::overlaps_shifted(mbox, slot_box(tr, co, j), dx, dy),
        dx != 0 || dy != 0,
        dx != 0 && dy != 0 ==> crate::sweep::entry_num2(
            mbox.x as int,
            mbox.w as int,
            slot_box(tr, co, j).x as int,
            slot_box(tr, co, j).w as int,
            dx,
        ) * crate::sweep::den(dy) != crate::sweep::entry_num2(
            mbox.y as int,
            mbox.h as int,
            slot_box(tr, co, j).y as int,
            slot_box(tr, co, j).h as int,
            dy,
        ) * crate::sweep::den(dx),
    ensures
        !crate::geometry::overlaps_shifted(
            mbox,
            slot_box(tr, co, j),
            resolve_all(alive, tr, co, i, mbox, dx, dy).0,
            resolve_all(alive, tr, co, i, mbox, dx, dy).1,
        ),
{
    let obox = slot_box(tr, co, j);
    crate::sweep::lemma_single_obstacle_non_penetration(mbox, obox, dx, dy);
    lemma_resolve_upto_single(alive, tr, co, i, mbox, dx, dy, alive.len() as int, j);
}

/// A zero candidate displacement survives resolution unchanged: no pair
/// ever clamps a motionless mover.
pub proof fn lemma_resolve_zero(
    alive: Seq<bool>,
    tr: Seq<Option<Transform>>,
    co: Seq<Option<BoxCollider>>,
    i: int,
    mbox: Aabb,
    n: int,
)
    ensures
        resolve_upto(alive, tr, co, i, mbox, 0, 0, n) == (0int, 0int),
    decreases n,
{
    if n > 0 {
        lemma_resolve_zero(alive, tr, co, i, mbox, n - 1);
    }
}

} // verus!
