//! Action application: turns the tick's `ActionContext` into motion for
//! every player entity.  In kinematic mode the velocity component is set
//! directly; in dynamic mode the same rule yields a one-shot velocity-change
//! impulse for the external rigid-body collaborator.

use vstd::prelude::*;

verus! {

use crate::components::Velocity;
use crate::resources::ActionContext;

/// Horizontal speed a player requests: east overrides west when both are
/// active, and no active direction means zero.
pub open spec fn act_vx(ctx: ActionContext, speed: int) -> int {
    if ctx.move_east {
        speed
    } else if ctx.move_west {
        -speed
    } else {
        0
    }
}

/// Vertical speed a player requests: the y axis grows downward, so north is
/// negative; north overrides south when both are active.
pub open spec fn act_vy(ctx: ActionContext, speed: int) -> int {
    if ctx.move_north {
        -speed
    } else if ctx.move_south {
        speed
    } else {
        0
    }
}

/// Kinematic mode: the velocity a player entity receives from the current
/// action context.
pub fn player_velocity(ctx: &ActionContext, speed: i64) -> (v: Velocity)
    requires
        speed >= 0,
    ensures
        v.x as int == act_vx(*ctx, speed as int),
        v.y as int == act_vy(*ctx, speed as int),
{
    let x: i64 = if ctx.move_east {
        speed
    } else if ctx.move_west {
        -speed
    } else {
        0
    };
    let y: i64 = if ctx.move_north {
        -speed
    } else if ctx.move_south {
        speed
    } else {
        0
    };
    Velocity { x, y }
}

/// Dynamic mode: the velocity-change impulse to submit to the external
/// rigid-body for a player, or `None` when the impulse is exactly zero and
/// the external world must not be touched.
pub fn player_impulse(ctx: &ActionContext, speed: i64) -> (r: Option<(i64, i64)>)
    requires
        speed >= 0,
    ensures
        match r {
            None => act_vx(*ctx, speed as int) == 0 && act_vy(*ctx, speed as int) == 0,
            Some((fx, fy)) => {
                &&& fx as int == act_vx(*ctx, speed as int)
                &&& fy as int == act_vy(*ctx, speed as int)
                &&& !(fx == 0 && fy == 0)
            },
        },
{
    let v = player_velocity(ctx, speed);
    if v.x == 0 && v.y == 0 {
        None
    } else {
        Some((v.x, v.y))
    }
}

/// The velocity a player with the given speed receives, as a stored record.
pub open spec fn act_velocity_of(ctx: ActionContext, speed: i64) -> Velocity {
    Velocity { x: act_vx(ctx, speed as int) as i64, y: act_vy(ctx, speed as int) as i64 }
}

/// The action application pass, kinematic mode.  Every live player entity
/// that owns a velocity has it overwritten from the current action context
/// and its own movement speed; every other velocity, and everything else in
/// the world, stays untouched.
pub fn run_act(ecs: &mut crate::world::ECS)
    requires
        old(ecs).wf(),
    ensures
        final(ecs).wf(),
        crate::world::unchanged_except_velocities(*old(ecs), *final(ecs)),
        final(ecs).velocities@.len() == old(ecs).velocities@.len(),
        forall|i: int|
            0 <= i < old(ecs).len() && old(ecs).alive@[i] && old(ecs).players@[i] is Some && old(
                ecs,
            ).velocities@[i] is Some ==> #[trigger] final(ecs).velocities@[i] == Some(
                act_velocity_of(old(ecs).actions, old(ecs).players@[i].unwrap().movement_speed),
            ),
        forall|i: int|
            0 <= i < old(ecs).len() && !(old(ecs).alive@[i] && old(ecs).players@[i] is Some && old(
                ecs,
            ).velocities@[i] is Some) ==> #[trigger] final(ecs).velocities@[i] == old(
                ecs,
            ).velocities@[i],
{
    let n = ecs.alive.len();
    let mut i: usize = 0;
    while i < n
        invariant
            ecs.wf(),
            n == ecs.len(),
            i <= n,
            crate::world::unchanged_except_velocities(*old(ecs), *ecs),
            ecs.velocities@.len() == n,
            forall|k: int|
                0 <= k < i && old(ecs).alive@[k] && old(ecs).players@[k] is Some && old(
                    ecs,
                ).velocities@[k] is Some ==> #[trigger] ecs.velocities@[k] == Some(
                    act_velocity_of(
                        old(ecs).actions,
                        old(ecs).players@[k].unwrap().movement_speed,
                    ),
                ),
            forall|k: int|
                0 <= k < n && !(k < i && old(ecs).alive@[k] && old(ecs).players@[k] is Some && old(
                    ecs,
                ).velocities@[k] is Some) ==> #[trigger] ecs.velocities@[k] == old(
                    ecs,
                ).velocities@[k],
        decreases n - i,
    {
        if ecs.alive[i] && ecs.players[i].is_some() && ecs.velocities[i].is_some() {
            let p = ecs.players[i].unwrap();
            let v = player_velocity(&ecs.actions, p.movement_speed);
            proof {
                assert(v.x == act_velocity_of(old(ecs).actions, p.movement_speed).x);
                assert(v.y == act_velocity_of(old(ecs).actions, p.movement_speed).y);
            }
            ecs.velocities[i] = Some(v);
        }
        i = i + 1;
    }
}

} // verus!
