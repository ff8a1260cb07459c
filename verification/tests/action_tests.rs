//! Action application on concrete action contexts, in both modes.

use engine::action::{player_impulse, player_velocity};
use engine::resources::{ActionContext, PlayerAction};

fn ctx(north: bool, south: bool, west: bool, east: bool) -> ActionContext {
    ActionContext { move_north: north, move_south: south, move_west: west, move_east: east }
}

#[test]
fn velocity_per_direction() {
    assert_eq!(player_velocity(&ctx(true, false, false, false), 9).y, -9);
    assert_eq!(player_velocity(&ctx(false, true, false, false), 9).y, 9);
    assert_eq!(player_velocity(&ctx(false, false, true, false), 9).x, -9);
    assert_eq!(player_velocity(&ctx(false, false, false, true), 9).x, 9);
}

#[test]
fn no_direction_means_rest() {
    let v = player_velocity(&ctx(false, false, false, false), 9);
    assert_eq!((v.x, v.y), (0, 0));
}

#[test]
fn opposing_directions_have_a_fixed_winner() {
    // North overrides south, east overrides west.
    let v = player_velocity(&ctx(true, true, true, true), 9);
    assert_eq!((v.x, v.y), (9, -9));
}

#[test]
fn impulse_is_skipped_when_exactly_zero() {
    assert_eq!(player_impulse(&ctx(false, false, false, false), 9), None);
    // Zero speed gives a zero impulse whatever is pressed.
    assert_eq!(player_impulse(&ctx(true, false, false, true), 0), None);
}

#[test]
fn impulse_carries_the_force_vector() {
    assert_eq!(player_impulse(&ctx(true, false, false, true), 9), Some((9, -9)));
}

#[test]
fn action_context_starts_cleared_and_sets_one_flag_at_a_time() {
    let mut a = ActionContext::new();
    assert!(!a.get(PlayerAction::MoveNorth));
    assert!(!a.get(PlayerAction::MoveSouth));
    assert!(!a.get(PlayerAction::MoveWest));
    assert!(!a.get(PlayerAction::MoveEast));
    a.set(PlayerAction::MoveEast, true);
    assert!(a.get(PlayerAction::MoveEast));
    assert!(!a.get(PlayerAction::MoveNorth));
    a.set(PlayerAction::MoveEast, false);
    assert!(!a.get(PlayerAction::MoveEast));
}
