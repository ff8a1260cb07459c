//! World construction, component registration and deferred removal.

use engine::components::{BoxCollider, Player, Sprite, Transform, Velocity};
use engine::world::ECS;

#[test]
fn add_sprite_stores_the_handle() {
    let mut ecs = ECS::new();
    let e = ecs.new_entity(0, 0, 1, 0);
    assert!(ecs.sprites[e].is_none());
    ecs.add_sprite(e, Sprite { image: 42 });
    assert_eq!(ecs.sprites[e], Some(Sprite { image: 42 }));
}

#[test]
fn new_world_is_empty() {
    let ecs = ECS::new();
    assert_eq!(ecs.alive.len(), 0);
    assert_eq!(ecs.delta_time.0, 0);
    assert!(!ecs.actions.move_north);
    assert!(!ecs.actions.move_south);
    assert!(!ecs.actions.move_west);
    assert!(!ecs.actions.move_east);
    assert!(!ecs.options.draw_colliders);
    // The diagnostics resource starts with a single empty line.
    assert_eq!(ecs.debug_info.info, vec![String::new()]);
}

#[test]
fn entity_ids_are_sequential() {
    let mut ecs = ECS::new();
    let a = ecs.new_entity(10, 20, 1, 0);
    let b = ecs.new_entity(30, 40, 1, 0);
    assert_eq!(a, 0);
    assert_eq!(b, 1);
    assert_eq!(ecs.alive.len(), 2);
    assert!(ecs.alive[a] && ecs.alive[b]);
}

#[test]
fn get_transform_reads_the_stored_pose() {
    let mut ecs = ECS::new();
    let e = ecs.new_entity(7, -9, 2, 3);
    let t = ecs.get_transform(e);
    assert_eq!(*t, Transform { x: 7, y: -9, scale: 2, rotation: 3 });
}

#[test]
fn set_transform_replaces_the_pose() {
    let mut ecs = ECS::new();
    let e = ecs.new_entity(0, 0, 1, 0);
    ecs.set_transform(e, Transform { x: 5, y: 6, scale: 1, rotation: 0 });
    assert_eq!(ecs.get_transform(e).x, 5);
    assert_eq!(ecs.get_transform(e).y, 6);
}

#[test]
fn add_collider_coregisters_an_empty_collision_set() {
    let mut ecs = ECS::new();
    let e = ecs.new_entity(0, 0, 1, 0);
    assert!(ecs.collision_sets[e].is_none());
    ecs.add_collider(e, BoxCollider { width: 10, height: 10, solid: true });
    let set = ecs.collision_sets[e].as_ref().expect("collision set co-registered");
    assert_eq!(set.overlapping.len(), 0);
}

#[test]
fn removal_is_deferred_until_maintenance() {
    let mut ecs = ECS::new();
    let e = ecs.new_entity(0, 0, 1, 0);
    ecs.add_velocity(e, Velocity { x: 1, y: 2 });
    ecs.add_player(e, Player { movement_speed: 5 });
    ecs.remove_entity(e);
    // Still visible: the removal is only staged.
    assert!(ecs.alive[e]);
    assert!(ecs.transforms[e].is_some());
    assert!(ecs.velocities[e].is_some());
    assert!(ecs.players[e].is_some());
    ecs.maintain();
    // Applied at the maintenance point.
    assert!(!ecs.alive[e]);
    assert!(ecs.transforms[e].is_none());
    assert!(ecs.velocities[e].is_none());
    assert!(ecs.players[e].is_none());
    assert_eq!(ecs.pending_removals.len(), 0);
}

#[test]
fn maintenance_leaves_survivors_alone() {
    let mut ecs = ECS::new();
    let gone = ecs.new_entity(1, 1, 1, 0);
    let kept = ecs.new_entity(2, 2, 1, 0);
    ecs.add_velocity(kept, Velocity { x: 3, y: 4 });
    ecs.remove_entity(gone);
    ecs.maintain();
    assert!(!ecs.alive[gone]);
    assert!(ecs.alive[kept]);
    assert_eq!(ecs.transforms[kept], Some(Transform { x: 2, y: 2, scale: 1, rotation: 0 }));
    assert_eq!(ecs.velocities[kept], Some(Velocity { x: 3, y: 4 }));
}
