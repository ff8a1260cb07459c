//! The per-tick scheduler: a fixed dependency chain executed once per
//! simulation tick, in dependency order — input mapping, action application,
//! collision detection, swept movement — followed by the tick-boundary
//! maintenance point.  Drawing belongs to the external collaborator and runs
//! after the tick, reading poses through `ECS::get_transform`.

use vstd::prelude::*;

verus! {

use crate::COORD_LIMIT;
use crate::action::act_velocity_of;
use crate::action::run_act;
use crate::collide::boxes_in_range;
use crate::collide::overlapping_all;
use crate::collide::run_collide;
use crate::collide::slot_boxed;
use crate::components::Velocity;
use crate::input::mapped_actions;
use crate::input::run_input;
use crate::input::toggle_edge;
use crate::physics::applied_disp;
use crate::physics::physics_in_range;
use crate::physics::run_physics;
use crate::physics::slot_mover;
use crate::resources::DeltaTime;
use crate::resources::Key;
use crate::world::ECS;

/// Hands the world a fresh frame: the elapsed time and the pressed-key
/// snapshot, both supplied by the external collaborators before the tick
/// runs.  The previous snapshot is retained for edge-triggered toggles.
pub fn begin_frame(ecs: &mut ECS, pressed: Vec<Key>, dt: u64)
    requires
        old(ecs).wf(),
    ensures
        final(ecs).wf(),
        final(ecs).delta_time == DeltaTime(dt),
        final(ecs).input.pressed_keys@ == pressed@,
        final(ecs).input.last_pressed_keys@ == old(ecs).input.pressed_keys@,
        final(ecs).transforms@ == old(ecs).transforms@,
        final(ecs).velocities@ == old(ecs).velocities@,
        final(ecs).colliders@ == old(ecs).colliders@,
        final(ecs).collision_sets@ == old(ecs).collision_sets@,
        final(ecs).players@ == old(ecs).players@,
        final(ecs).alive@ == old(ecs).alive@,
        final(ecs).pending_removals@ == old(ecs).pending_removals@,
        final(ecs).debug_info == old(ecs).debug_info,
        final(ecs).actions == old(ecs).actions,
        final(ecs).options == old(ecs).options,
        final(ecs).bindings == old(ecs).bindings,
{
    ecs.delta_time = DeltaTime(dt);
    core::mem::swap(&mut ecs.input.pressed_keys, &mut ecs.input.last_pressed_keys);
    ecs.input.pressed_keys = pressed;
}

/// The velocity container as the action application pass leaves it: every
/// live player entity that owns a velocity reads its new velocity off the
/// action context the input pass derives; every other slot keeps its value.
pub open spec fn post_act_velocities(ecs: ECS) -> Seq<Option<Velocity>> {
    Seq::new(
        ecs.len(),
        |i: int|
            if ecs.alive@[i] && ecs.players@[i] is Some && ecs.velocities@[i] is Some {
                Some(
                    act_velocity_of(
                        mapped_actions(ecs.bindings, ecs.input.pressed_keys@),
                        ecs.players@[i].unwrap().movement_speed,
                    ),
                )
            } else {
                ecs.velocities@[i]
            },
    )
}

/// Everything one tick feeds to the geometric routines stays inside the
/// exact-arithmetic range, for any velocity the action pass may write.
pub open spec fn tick_in_range(ecs: ECS) -> bool {
    &&& ecs.delta_time.0 <= COORD_LIMIT
    &&& boxes_in_range(ecs.alive@, ecs.transforms@, ecs.colliders@)
    &&& forall|i: int|
        0 <= i < ecs.len() ==> ((#[trigger] ecs.transforms@[i]) matches Some(t) ==> {
            &&& -COORD_LIMIT <= t.x <= COORD_LIMIT
            &&& -COORD_LIMIT <= t.y <= COORD_LIMIT
        })
    &&& forall|i: int|
        0 <= i < ecs.len() ==> ((#[trigger] ecs.velocities@[i]) matches Some(v) ==> {
            &&& -COORD_LIMIT <= v.x * ecs.delta_time.0 <= COORD_LIMIT
            &&& -COORD_LIMIT <= v.y * ecs.delta_time.0 <= COORD_LIMIT
        })
    &&& forall|i: int|
        0 <= i < ecs.len() ==> ((#[trigger] ecs.players@[i]) matches Some(p) ==> {
            p.movement_speed * ecs.delta_time.0 <= COORD_LIMIT
        })
}

/// One simulation tick: input mapping, action application, collision
/// detection, swept movement, then maintenance.  The contract spells out
/// what each pass leaves behind: the action context is a pure function of
/// the pressed keys; the collider overlay toggles on a press edge; every
/// collision set holds exactly the pre-movement overlaps; player velocities
/// follow the action context; every mover advances by its resolved
/// displacement; staged removals are applied last.
pub fn tick(ecs: &mut ECS)
    requires
        old(ecs).wf(),
        tick_in_range(*old(ecs)),
    ensures
        final(ecs).wf(),
        final(ecs).len() == old(ecs).len(),
        final(ecs).pending_removals@.len() == 0,
        final(ecs).delta_time == old(ecs).delta_time,
        final(ecs).debug_info == old(ecs).debug_info,
        final(ecs).input == old(ecs).input,
        final(ecs).bindings == old(ecs).bindings,
        final(ecs).actions == mapped_actions(old(ecs).bindings, old(ecs).input.pressed_keys@),
        final(ecs).options.draw_colliders == (old(ecs).options.draw_colliders != toggle_edge(
            old(ecs).bindings,
            old(ecs).input.pressed_keys@,
            old(ecs).input.last_pressed_keys@,
        )),
        forall|i: int|
            0 <= i < old(ecs).len() && old(ecs).pending_removals@.contains(i as usize) ==> {
                &&& !final(ecs).alive@[i]
                &&& final(ecs).transforms@[i] is None
                &&& final(ecs).velocities@[i] is None
                &&& final(ecs).colliders@[i] is None
                &&& final(ecs).collision_sets@[i] is None
                &&& final(ecs).players@[i] is None
                &&& final(ecs).sprites@[i] is None
            },
        forall|i: int|
            0 <= i < old(ecs).len() && !old(ecs).pending_removals@.contains(i as usize) ==> {
                &&& final(ecs).alive@[i] == old(ecs).alive@[i]
                &&& final(ecs).colliders@[i] == old(ecs).colliders@[i]
                &&& final(ecs).players@[i] == old(ecs).players@[i]
                &&& final(ecs).sprites@[i] == old(ecs).sprites@[i]
                &&& final(ecs).velocities@[i] == post_act_velocities(*old(ecs))[i]
                &&& (slot_boxed(old(ecs).alive@, old(ecs).transforms@, old(ecs).colliders@, i)
                    ==> {
                    &&& final(ecs).collision_sets@[i] is Some
                    &&& final(ecs).collision_sets@[i].unwrap().overlapping@ == overlapping_all(
                        old(ecs).alive@,
                        old(ecs).transforms@,
                        old(ecs).colliders@,
                        i,
                    )
                })
                &&& (!slot_boxed(old(ecs).alive@, old(ecs).transforms@, old(ecs).colliders@, i)
                    ==> final(ecs).collision_sets@[i] == old(ecs).collision_sets@[i])
                &&& (slot_mover(old(ecs).alive@, old(ecs).transforms@, old(ecs).velocities@, i)
                    ==> {
                    &&& final(ecs).transforms@[i] is Some
                    &&& final(ecs).transforms@[i].unwrap().x as int == old(
                        ecs,
                    ).transforms@[i].unwrap().x + applied_disp(
                        old(ecs).alive@,
                        old(ecs).transforms@,
                        post_act_velocities(*old(ecs)),
                        old(ecs).colliders@,
                        old(ecs).delta_time.0 as int,
                        i,
                    ).0
                    &&& final(ecs).transforms@[i].unwrap().y as int == old(
                        ecs,
                    ).transforms@[i].unwrap().y + applied_disp(
                        old(ecs).alive@,
                        old(ecs).transforms@,
                        post_act_velocities(*old(ecs)),
                        old(ecs).colliders@,
                        old(ecs).delta_time.0 as int,
                        i,
                    ).1
                    &&& final(ecs).transforms@[i].unwrap().scale == old(
                        ecs,
                    ).transforms@[i].unwrap().scale
                    &&& final(ecs).transforms@[i].unwrap().rotation == old(
                        ecs,
                    ).transforms@[i].unwrap().rotation
                })
                &&& (!slot_mover(old(ecs).alive@, old(ecs).transforms@, old(ecs).velocities@, i)
                    ==> final(ecs).transforms@[i] == old(ecs).transforms@[i])
            },
{
    run_input(&ecs.input, &ecs.bindings, &mut ecs.actions, &mut ecs.options);
    run_act(ecs);
    proof {
        assert(ecs.velocities@ =~= post_act_velocities(*old(ecs)));
        assert forall|i: int|
            0 <= i < ecs.len() implies ((#[trigger] ecs.velocities@[i]) matches Some(v) ==> {
            &&& -COORD_LIMIT <= v.x * ecs.delta_time.0 <= COORD_LIMIT
            &&& -COORD_LIMIT <= v.y * ecs.delta_time.0 <= COORD_LIMIT
        }) by {
            let dt = ecs.delta_time.0 as int;
            if old(ecs).alive@[i] && old(ecs).players@[i] is Some && old(ecs).velocities@[i]
                is Some {
                let s = old(ecs).players@[i].unwrap().movement_speed as int;
                assert((-s) * dt == -(s * dt)) by (nonlinear_arith);
                assert(0 * dt == 0);
            }
        };
    }
    run_collide(ecs);
    run_physics(ecs);
    ecs.maintain();
}

/// Law: zero-velocity idempotence at the tick level.  An entity whose
/// velocity as of the movement pass is `(0, 0)` — because no action drives
/// it, or it is not a player and rests — applies a zero displacement, so the
/// tick's contract leaves its transform identical, tick after tick.
pub proof fn lemma_still_entity_keeps_transform(ecs: ECS, i: int)
    requires
        slot_mover(ecs.alive@, ecs.transforms@, ecs.velocities@, i),
        post_act_velocities(ecs)[i] matches Some(v) && v.x == 0 && v.y == 0,
    ensures
        applied_disp(
            ecs.alive@,
            ecs.transforms@,
            post_act_velocities(ecs),
            ecs.colliders@,
            ecs.delta_time.0 as int,
            i,
        ) == (0int, 0int),
{
    crate::physics::lemma_zero_velocity_fixed(
        ecs.alive@,
        ecs.transforms@,
        post_act_velocities(ecs),
        ecs.colliders@,
        ecs.delta_time.0 as int,
        i,
    );
}

/// The systems the scheduler dispatches, in the roles the tick gives them.
#[derive(Clone, Copy, Debug, PartialEq, Eq, Structural)]
pub enum SystemId {
    InputMapping,
    ActionApply,
    CollisionDetect,
    Movement,
}

/// The components and resources a system may touch.
#[derive(Clone, Copy, Debug, PartialEq, Eq, Structural)]
pub enum Capability {
    TransformData,
    VelocityData,
    ColliderData,
    CollisionSetData,
    PlayerData,
    InputSnapshot,
    Bindings,
    ActionFlags,
    Options,
    Time,
}

/// The declared read set of each system.
pub open spec fn reads(s: SystemId, c: Capability) -> bool {
    match s {
        SystemId::InputMapping => c == Capability::InputSnapshot || c == Capability::Bindings,
        SystemId::ActionApply => c == Capability::ActionFlags || c == Capability::PlayerData,
        SystemId::CollisionDetect => c == Capability::TransformData || c
            == Capability::ColliderData,
        SystemId::Movement => c == Capability::TransformData || c == Capability::VelocityData || c
            == Capability::ColliderData || c == Capability::CollisionSetData || c
            == Capability::Time,
    }
}

/// The declared write set of each system.
pub open spec fn writes(s: SystemId, c: Capability) -> bool {
    match s {
        SystemId::InputMapping => c == Capability::ActionFlags || c == Capability::Options,
        SystemId::ActionApply => c == Capability::VelocityData,
        SystemId::CollisionDetect => c == Capability::CollisionSetData,
        SystemId::Movement => c == Capability::TransformData,
    }
}

/// The declared dependency order (already transitively closed): action
/// application consumes the input pass's action flags, and movement consumes
/// both the applied velocities and the detected collision sets.
pub open spec fn precedes(a: SystemId, b: SystemId) -> bool {
    ||| (a == SystemId::InputMapping && (b == SystemId::ActionApply || b == SystemId::Movement))
    ||| (a == SystemId::ActionApply && b == SystemId::Movement)
    ||| (a == SystemId::CollisionDetect && b == SystemId::Movement)
}

/// The order the tick dispatches the systems in.
pub open spec fn pipeline() -> Seq<SystemId> {
    seq![
        SystemId::InputMapping,
        SystemId::ActionApply,
        SystemId::CollisionDetect,
        SystemId::Movement,
    ]
}

/// Neither system's write set meets the other's read or write set, so the
/// pair can run in either relative order without changing any outcome.
pub open spec fn independent(a: SystemId, b: SystemId) -> bool {
    forall|c: Capability|
        !(#[trigger] writes(a, c) && (reads(b, c) || writes(b, c))) && !(#[trigger] writes(b, c)
            && (reads(a, c) || writes(a, c)))
}

/// Law: the tick's dispatch order linearizes the declared dependency graph —
/// no system runs before one it depends on.
pub proof fn lemma_pipeline_linearizes_dependencies()
    ensures
        forall|i: int, j: int|
            0 <= i < j < pipeline().len() ==> !precedes(pipeline()[j], pipeline()[i]),
{
}

/// Law: systems the dependency graph leaves unordered are independent — a
/// system never observes another same-tick system's writes out of declared
/// order, so unordered systems could run in any relative order (or
/// concurrently) without changing outcomes.
pub proof fn lemma_unordered_systems_independent(a: SystemId, b: SystemId)
    requires
        a != b,
        !precedes(a, b),
        !precedes(b, a),
    ensures
        independent(a, b),
{
    assert forall|c: Capability|
        !(#[trigger] writes(a, c) && (reads(b, c) || writes(b, c))) && !(#[trigger] writes(b, c)
            && (reads(a, c) || writes(a, c))) by {
        match c {
            Capability::TransformData => {},
            Capability::VelocityData => {},
            Capability::ColliderData => {},
            Capability::CollisionSetData => {},
            Capability::PlayerData => {},
            Capability::InputSnapshot => {},
            Capability::Bindings => {},
            Capability::ActionFlags => {},
            Capability::Options => {},
            Capability::Time => {},
        }
    };
}

} // verus!
