//! Input-to-action mapping: turns the raw pressed-key snapshot into the
//! tick's `ActionContext`, and services edge-triggered toggles from the
//! previous tick's snapshot.

use vstd::prelude::*;

verus! {

use crate::resources::ActionContext;
use crate::resources::GameOptions;
use crate::resources::InputContext;
use crate::resources::Key;
use crate::resources::KeyBindings;

/// Whether some key bound to a direction is currently pressed.
pub open spec fn dir_active(bound: Seq<Key>, pressed: Seq<Key>) -> bool {
    exists|i: int| 0 <= i < bound.len() && pressed.contains(bound[i])
}

/// The action context the bindings derive from a pressed-key snapshot.
/// Every flag is recomputed; none survives from an earlier tick.
pub open spec fn mapped_actions(bindings: KeyBindings, pressed: Seq<Key>) -> ActionContext {
    ActionContext {
        move_north: dir_active(bindings.north@, pressed),
        move_south: dir_active(bindings.south@, pressed),
        move_west: dir_active(bindings.west@, pressed),
        move_east: dir_active(bindings.east@, pressed),
    }
}

/// Whether the toggle key was pressed this tick but not the previous one
/// (a press edge, not a level).
pub open spec fn toggle_edge(bindings: KeyBindings, pressed: Seq<Key>, last: Seq<Key>) -> bool {
    pressed.contains(bindings.toggle_colliders) && !last.contains(bindings.toggle_colliders)
}

/// Whether `keys` holds `key`.
fn contains_key(keys: &Vec<Key>, key: Key) -> (r: bool)
    ensures
        r == keys@.contains(key),
{
    let mut i: usize = 0;
    while i < keys.len()
        invariant
            i <= keys@.len(),
            forall|j: int| 0 <= j < i ==> keys@[j] != key,
        decreases keys@.len() - i,
    {
        if keys[i] == key {
            return true;
        }
        i = i + 1;
    }
    false
}

/// Whether the pressed-key set intersects one direction's bound key set.
fn map_keys(bound: &Vec<Key>, pressed: &Vec<Key>) -> (r: bool)
    ensures
        r == dir_active(bound@, pressed@),
{
    let mut i: usize = 0;
    while i < bound.len()
        invariant
            i <= bound@.len(),
            forall|j: int| 0 <= j < i ==> !pressed@.contains(bound@[j]),
        decreases bound@.len() - i,
    {
        if contains_key(pressed, bound[i]) {
            return true;
        }
        i = i + 1;
    }
    false
}

/// The input mapping pass.  Reads the raw snapshot, writes every action
/// flag explicitly, and flips the collider overlay on a press edge of the
/// toggle key.
pub fn run_input(
    input: &InputContext,
    bindings: &KeyBindings,
    actions: &mut ActionContext,
    options: &mut GameOptions,
)
    ensures
        *final(actions) == mapped_actions(*bindings, input.pressed_keys@),
        final(options).draw_colliders == (old(options).draw_colliders != toggle_edge(
            *bindings,
            input.pressed_keys@,
            input.last_pressed_keys@,
        )),
{
    actions.move_north = map_keys(&bindings.north, &input.pressed_keys);
    actions.move_south = map_keys(&bindings.south, &input.pressed_keys);
    actions.move_west = map_keys(&bindings.west, &input.pressed_keys);
    actions.move_east = map_keys(&bindings.east, &input.pressed_keys);
    if contains_key(&input.pressed_keys, bindings.toggle_colliders) && !contains_key(
        &input.last_pressed_keys,
        bindings.toggle_colliders,
    ) {
        options.draw_colliders = !options.draw_colliders;
    }
}

/// Helper for the determinism law: direction activity only reads the
/// membership of the pressed-key snapshot.
proof fn lemma_dir_active_membership(bound: Seq<Key>, p: Seq<Key>, q: Seq<Key>)
    requires
        forall|k: Key| p.contains(k) == q.contains(k),
    ensures
        dir_active(bound, p) == dir_active(bound, q),
{
    if dir_active(bound, p) {
        let i = choose|i: int| 0 <= i < bound.len() && p.contains(bound[i]);
        assert(q.contains(bound[i]));
    }
    if dir_active(bound, q) {
        let i = choose|i: int| 0 <= i < bound.len() && q.contains(bound[i]);
        assert(p.contains(bound[i]));
    }
}

/// Law: action mapping is deterministic.  Two pressed-key snapshots that
/// hold the same keys — whatever the tick count or history that produced
/// them — map to identical action contexts.
pub proof fn lemma_action_mapping_deterministic(bindings: KeyBindings, p: Seq<Key>, q: Seq<Key>)
    requires
        forall|k: Key| p.contains(k) == q.contains(k),
    ensures
        mapped_actions(bindings, p) == mapped_actions(bindings, q),
{
    lemma_dir_active_membership(bindings.north@, p, q);
    lemma_dir_active_membership(bindings.south@, p, q);
    lemma_dir_active_membership(bindings.west@, p, q);
    lemma_dir_active_membership(bindings.east@, p, q);
}

} // verus!
