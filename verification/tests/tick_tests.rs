//! Whole-tick behaviour: input mapping, action application, collision
//! detection and swept movement chained by the scheduler.

use engine::components::{BoxCollider, Player, Velocity};
use engine::resources::Key;
use engine::schedule::{begin_frame, tick};
use engine::world::ECS;

#[test]
fn free_motion_is_exact() {
    // An entity with a velocity and no collision box moves by exactly
    // velocity * delta_time.
    let mut ecs = ECS::new();
    let e = ecs.new_entity(100, 200, 1, 0);
    ecs.add_velocity(e, Velocity { x: 3, y: -4 });
    begin_frame(&mut ecs, Vec::new(), 10);
    tick(&mut ecs);
    assert_eq!(ecs.get_transform(e).x, 130);
    assert_eq!(ecs.get_transform(e).y, 160);
}

#[test]
fn free_motion_with_zero_delta_time() {
    let mut ecs = ECS::new();
    let e = ecs.new_entity(100, 200, 1, 0);
    ecs.add_velocity(e, Velocity { x: 3, y: -4 });
    begin_frame(&mut ecs, Vec::new(), 0);
    tick(&mut ecs);
    assert_eq!(ecs.get_transform(e).x, 100);
    assert_eq!(ecs.get_transform(e).y, 200);
}

#[test]
fn zero_velocity_never_moves() {
    let mut ecs = ECS::new();
    let e = ecs.new_entity(50, 60, 1, 0);
    ecs.add_velocity(e, Velocity { x: 0, y: 0 });
    ecs.add_collider(e, BoxCollider { width: 10, height: 10, solid: true });
    let obstacle = ecs.new_entity(55, 60, 1, 0);
    ecs.add_collider(obstacle, BoxCollider { width: 10, height: 10, solid: true });
    for _ in 0..5 {
        begin_frame(&mut ecs, Vec::new(), 16);
        tick(&mut ecs);
        assert_eq!(ecs.get_transform(e).x, 50);
        assert_eq!(ecs.get_transform(e).y, 60);
    }
}

#[test]
fn collision_sets_hold_exactly_the_overlapping_others() {
    // a overlaps b; b overlaps both a and c; a and c are apart.
    let mut ecs = ECS::new();
    let a = ecs.new_entity(0, 0, 1, 0);
    ecs.add_collider(a, BoxCollider { width: 20, height: 20, solid: true });
    let b = ecs.new_entity(15, 0, 1, 0);
    ecs.add_collider(b, BoxCollider { width: 20, height: 20, solid: false });
    let c = ecs.new_entity(30, 0, 1, 0);
    ecs.add_collider(c, BoxCollider { width: 20, height: 20, solid: true });
    begin_frame(&mut ecs, Vec::new(), 0);
    tick(&mut ecs);
    let set_a = &ecs.collision_sets[a].as_ref().unwrap().overlapping;
    let set_b = &ecs.collision_sets[b].as_ref().unwrap().overlapping;
    let set_c = &ecs.collision_sets[c].as_ref().unwrap().overlapping;
    // Solid and non-solid overlaps are both recorded, in ascending id order.
    assert_eq!(*set_a, vec![b]);
    assert_eq!(*set_b, vec![a, c]);
    assert_eq!(*set_c, vec![b]);
    // Self-exclusion: no entity lists itself.
    assert!(!set_a.contains(&a));
    assert!(!set_b.contains(&b));
    assert!(!set_c.contains(&c));
}

#[test]
fn collision_sets_are_rebuilt_from_scratch() {
    let mut ecs = ECS::new();
    let a = ecs.new_entity(0, 0, 1, 0);
    ecs.add_collider(a, BoxCollider { width: 20, height: 20, solid: true });
    ecs.add_velocity(a, Velocity { x: 100, y: 0 });
    let b = ecs.new_entity(15, 0, 1, 0);
    ecs.add_collider(b, BoxCollider { width: 20, height: 20, solid: false });
    begin_frame(&mut ecs, Vec::new(), 0);
    tick(&mut ecs);
    assert_eq!(ecs.collision_sets[a].as_ref().unwrap().overlapping, vec![b]);
    // Move a far away; the next pass clears the stale entry.
    begin_frame(&mut ecs, Vec::new(), 10);
    tick(&mut ecs);
    begin_frame(&mut ecs, Vec::new(), 0);
    tick(&mut ecs);
    assert_eq!(ecs.collision_sets[a].as_ref().unwrap().overlapping.len(), 0);
}

#[test]
fn swept_clamp_through_a_tick() {
    // Distances in thousandths of a unit, times in milliseconds: a mover at
    // (100, 100) of size (50, 50) runs right at 200 units/s toward a solid
    // box at (140, 100) of size (50, 50); after 0.1 s it is clamped to
    // x = 90, the contact position.
    let mut ecs = ECS::new();
    let mover = ecs.new_entity(100_000, 100_000, 1, 0);
    ecs.add_velocity(mover, Velocity { x: 200, y: 0 });
    ecs.add_collider(mover, BoxCollider { width: 50_000, height: 50_000, solid: true });
    let obstacle = ecs.new_entity(140_000, 100_000, 1, 0);
    ecs.add_collider(obstacle, BoxCollider { width: 50_000, height: 50_000, solid: true });
    begin_frame(&mut ecs, Vec::new(), 100);
    tick(&mut ecs);
    assert_eq!(ecs.get_transform(mover).x, 90_000);
    assert_eq!(ecs.get_transform(mover).y, 100_000);
    // The obstacle never moved.
    assert_eq!(ecs.get_transform(obstacle).x, 140_000);
}

#[test]
fn non_solid_mover_is_never_clamped() {
    let mut ecs = ECS::new();
    let mover = ecs.new_entity(100_000, 100_000, 1, 0);
    ecs.add_velocity(mover, Velocity { x: 200, y: 0 });
    ecs.add_collider(mover, BoxCollider { width: 50_000, height: 50_000, solid: false });
    let obstacle = ecs.new_entity(140_000, 100_000, 1, 0);
    ecs.add_collider(obstacle, BoxCollider { width: 50_000, height: 50_000, solid: true });
    begin_frame(&mut ecs, Vec::new(), 100);
    tick(&mut ecs);
    assert_eq!(ecs.get_transform(mover).x, 120_000);
}

#[test]
fn solid_mover_ignores_trigger_obstacles() {
    let mut ecs = ECS::new();
    let mover = ecs.new_entity(100_000, 100_000, 1, 0);
    ecs.add_velocity(mover, Velocity { x: 200, y: 0 });
    ecs.add_collider(mover, BoxCollider { width: 50_000, height: 50_000, solid: true });
    let trigger = ecs.new_entity(140_000, 100_000, 1, 0);
    ecs.add_collider(trigger, BoxCollider { width: 50_000, height: 50_000, solid: false });
    begin_frame(&mut ecs, Vec::new(), 100);
    tick(&mut ecs);
    assert_eq!(ecs.get_transform(mover).x, 120_000);
}

#[test]
fn last_clamping_obstacle_wins() {
    // Two solid obstacles both clamp the mover; the pairwise loop lets the
    // later id decide, even though that leaves the earlier one penetrated.
    let mut ecs = ECS::new();
    let mover = ecs.new_entity(0, 0, 1, 0);
    ecs.add_velocity(mover, Velocity { x: 10, y: 0 });
    ecs.add_collider(mover, BoxCollider { width: 10, height: 10, solid: true });
    let near = ecs.new_entity(12, 0, 1, 0);
    ecs.add_collider(near, BoxCollider { width: 10, height: 10, solid: true });
    let far = ecs.new_entity(16, 0, 1, 0);
    ecs.add_collider(far, BoxCollider { width: 10, height: 10, solid: true });
    begin_frame(&mut ecs, Vec::new(), 1);
    tick(&mut ecs);
    // Contact with `far`: 16 - 5 - 5 = 6; the clamp against `near` (to 2)
    // was computed first and overwritten.
    assert_eq!(ecs.get_transform(mover).x, 6);
}

#[test]
fn player_velocity_follows_pressed_keys() {
    let mut ecs = ECS::new();
    let p = ecs.new_entity(0, 0, 1, 0);
    ecs.add_velocity(p, Velocity { x: 0, y: 0 });
    ecs.add_player(p, Player { movement_speed: 7 });
    begin_frame(&mut ecs, vec![Key::D], 2);
    tick(&mut ecs);
    assert_eq!(ecs.velocities[p], Some(Velocity { x: 7, y: 0 }));
    // Moved by velocity * delta_time within the same tick.
    assert_eq!(ecs.get_transform(p).x, 14);
    assert_eq!(ecs.get_transform(p).y, 0);
}

#[test]
fn diagonal_intent_sets_both_axes() {
    let mut ecs = ECS::new();
    let p = ecs.new_entity(0, 0, 1, 0);
    ecs.add_velocity(p, Velocity { x: 0, y: 0 });
    ecs.add_player(p, Player { movement_speed: 5 });
    begin_frame(&mut ecs, vec![Key::W, Key::D], 1);
    tick(&mut ecs);
    // North is negative y (the y axis grows downward).
    assert_eq!(ecs.velocities[p], Some(Velocity { x: 5, y: -5 }));
}

#[test]
fn action_flags_follow_the_snapshot_without_lag() {
    // Press W for one tick: MoveNorth is on for exactly that tick and off
    // the moment the snapshot no longer holds the key.
    let mut ecs = ECS::new();
    begin_frame(&mut ecs, vec![Key::W], 1);
    tick(&mut ecs);
    assert!(ecs.actions.move_north);
    begin_frame(&mut ecs, Vec::new(), 1);
    tick(&mut ecs);
    assert!(!ecs.actions.move_north);
}

#[test]
fn action_mapping_ignores_history() {
    // The same pressed-key set yields the same action context whatever came
    // before.
    let mut ecs = ECS::new();
    begin_frame(&mut ecs, vec![Key::A, Key::S], 1);
    tick(&mut ecs);
    let first = ecs.actions;
    begin_frame(&mut ecs, vec![Key::D], 1);
    tick(&mut ecs);
    begin_frame(&mut ecs, Vec::new(), 1);
    tick(&mut ecs);
    begin_frame(&mut ecs, vec![Key::S, Key::A], 1);
    tick(&mut ecs);
    assert_eq!(ecs.actions, first);
    assert!(ecs.actions.move_south && ecs.actions.move_west);
    assert!(!ecs.actions.move_north && !ecs.actions.move_east);
}

#[test]
fn arrow_keys_share_the_default_bindings() {
    let mut ecs = ECS::new();
    begin_frame(&mut ecs, vec![Key::Up, Key::Left], 1);
    tick(&mut ecs);
    assert!(ecs.actions.move_north && ecs.actions.move_west);
}

#[test]
fn overlay_toggle_flips_only_on_the_press_edge() {
    let mut ecs = ECS::new();
    assert!(!ecs.options.draw_colliders);
    // Press and hold F1 across two ticks: one flip, on the edge.
    begin_frame(&mut ecs, vec![Key::F1], 1);
    tick(&mut ecs);
    assert!(ecs.options.draw_colliders);
    begin_frame(&mut ecs, vec![Key::F1], 1);
    tick(&mut ecs);
    assert!(ecs.options.draw_colliders);
    // Release, press again: a second flip.
    begin_frame(&mut ecs, Vec::new(), 1);
    tick(&mut ecs);
    assert!(ecs.options.draw_colliders);
    begin_frame(&mut ecs, vec![Key::F1], 1);
    tick(&mut ecs);
    assert!(!ecs.options.draw_colliders);
}

#[test]
fn begin_frame_retains_the_previous_snapshot() {
    let mut ecs = ECS::new();
    begin_frame(&mut ecs, vec![Key::W], 5);
    assert_eq!(ecs.delta_time.0, 5);
    assert_eq!(ecs.input.pressed_keys, vec![Key::W]);
    assert_eq!(ecs.input.last_pressed_keys.len(), 0);
    begin_frame(&mut ecs, vec![Key::D], 7);
    assert_eq!(ecs.input.pressed_keys, vec![Key::D]);
    assert_eq!(ecs.input.last_pressed_keys, vec![Key::W]);
}

#[test]
fn bindings_are_configurable() {
    let mut ecs = ECS::new();
    ecs.bindings.north = vec![Key::Other(99)];
    begin_frame(&mut ecs, vec![Key::Other(99)], 1);
    tick(&mut ecs);
    assert!(ecs.actions.move_north);
    // W no longer requests north once rebound.
    begin_frame(&mut ecs, vec![Key::W], 1);
    tick(&mut ecs);
    assert!(!ecs.actions.move_north);
}

#[test]
fn every_player_reacts_to_the_same_actions() {
    let mut ecs = ECS::new();
    let fast = ecs.new_entity(0, 0, 1, 0);
    ecs.add_velocity(fast, Velocity { x: 0, y: 0 });
    ecs.add_player(fast, Player { movement_speed: 10 });
    let slow = ecs.new_entity(100, 100, 1, 0);
    ecs.add_velocity(slow, Velocity { x: 0, y: 0 });
    ecs.add_player(slow, Player { movement_speed: 3 });
    begin_frame(&mut ecs, vec![Key::S], 1);
    tick(&mut ecs);
    assert_eq!(ecs.velocities[fast], Some(Velocity { x: 0, y: 10 }));
    assert_eq!(ecs.velocities[slow], Some(Velocity { x: 0, y: 3 }));
}

#[test]
fn staged_removal_applies_at_the_tick_boundary() {
    let mut ecs = ECS::new();
    let e = ecs.new_entity(0, 0, 1, 0);
    ecs.add_velocity(e, Velocity { x: 1, y: 0 });
    ecs.remove_entity(e);
    begin_frame(&mut ecs, Vec::new(), 1);
    tick(&mut ecs);
    assert!(!ecs.alive[e]);
    assert!(ecs.transforms[e].is_none());
}
