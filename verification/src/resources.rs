//! Singleton per-simulation state: resources are not keyed by entity and
//! follow a single-writer-per-tick discipline.

use vstd::prelude::*;

verus! {

/// Time elapsed since the previous tick, in integer time units (the caller
/// picks the unit; velocities are distance sub-units per that same unit).
/// Overwritten once per tick from the external time source before any
/// system that uses it runs.
#[derive(Clone, Copy, Debug, PartialEq, Eq, Structural, Default)]
pub struct DeltaTime(pub u64);

/// The closed enumeration of player intents derived from raw input.
#[derive(Clone, Copy, Debug, PartialEq, Eq, Hash, Structural)]
pub enum PlayerAction {
    MoveNorth,
    MoveSouth,
    MoveWest,
    MoveEast,
}

/// Derived boolean intent map: one "currently requested" flag per player
/// action.  Overwritten in full every tick by the input mapping pass, so no
/// flag ever survives a tick in which its keys were not pressed.
#[derive(Clone, Copy, Debug, PartialEq, Eq, Structural)]
pub struct ActionContext {
    pub move_north: bool,
    pub move_south: bool,
    pub move_west: bool,
    pub move_east: bool,
}

impl ActionContext {
    /// A fresh context with every action flag off.
    pub fn new() -> (r: ActionContext)
        ensures
            !r.move_north,
            !r.move_south,
            !r.move_west,
            !r.move_east,
    {
        ActionContext { move_north: false, move_south: false, move_west: false, move_east: false }
    }

    /// The flag stored for one action.
    pub open spec fn spec_get(self, action: PlayerAction) -> bool {
        match action {
            PlayerAction::MoveNorth => self.move_north,
            PlayerAction::MoveSouth => self.move_south,
            PlayerAction::MoveWest => self.move_west,
            PlayerAction::MoveEast => self.move_east,
        }
    }

    /// Reads one action flag.
    pub fn get(&self, action: PlayerAction) -> (r: bool)
        ensures
            r == self.spec_get(action),
    {
        match action {
            PlayerAction::MoveNorth => self.move_north,
            PlayerAction::MoveSouth => self.move_south,
            PlayerAction::MoveWest => self.move_west,
            PlayerAction::MoveEast => self.move_east,
        }
    }

    /// Sets one action flag, leaving the other three alone.
    pub fn set(&mut self, action: PlayerAction, value: bool)
        ensures
            final(self).spec_get(action) == value,
            forall|a: PlayerAction| a != action ==> final(self).spec_get(a) == old(
                self,
            ).spec_get(a),
    {
        match action {
            PlayerAction::MoveNorth => self.move_north = value,
            PlayerAction::MoveSouth => self.move_south = value,
            PlayerAction::MoveWest => self.move_west = value,
            PlayerAction::MoveEast => self.move_east = value,
        }
    }
}

/// One key of the raw input collaborator.  Only the keys the default
/// bindings use are named; any other key travels as its raw scan code.
#[derive(Clone, Copy, Debug, PartialEq, Eq, Hash, Structural)]
pub enum Key {
    W,
    A,
    S,
    D,
    Up,
    Down,
    Left,
    Right,
    F1,
    Other(u32),
}

/// Configurable key bindings: each direction owns the set of keys that
/// request it, and one key toggles the collider overlay.
#[derive(Clone, Debug)]
pub struct KeyBindings {
    pub north: Vec<Key>,
    pub south: Vec<Key>,
    pub west: Vec<Key>,
    pub east: Vec<Key>,
    pub toggle_colliders: Key,
}

/// The default bindings: WASD plus the arrow keys, and F1 for the collider
/// overlay.
pub fn default_bindings() -> (r: KeyBindings)
    ensures
        r.north@ == seq![Key::Up, Key::W],
        r.south@ == seq![Key::Down, Key::S],
        r.west@ == seq![Key::Left, Key::A],
        r.east@ == seq![Key::Right, Key::D],
        r.toggle_colliders == Key::F1,
{
    let north = vec![Key::Up, Key::W];
    let south = vec![Key::Down, Key::S];
    let west = vec![Key::Left, Key::A];
    let east = vec![Key::Right, Key::D];
    proof {
        assert(north@ =~= seq![Key::Up, Key::W]);
        assert(south@ =~= seq![Key::Down, Key::S]);
        assert(west@ =~= seq![Key::Left, Key::A]);
        assert(east@ =~= seq![Key::Right, Key::D]);
    }
    KeyBindings { north, south, west, east, toggle_colliders: Key::F1 }
}

/// Snapshot of the raw input state: the keys down now and the keys down in
/// the previous tick (for edge-triggered toggles).  Refreshed once per tick
/// before the input mapping pass runs; an absent snapshot on the very first
/// tick reads as "nothing pressed".
#[derive(Clone, Debug)]
pub struct InputContext {
    pub pressed_keys: Vec<Key>,
    pub last_pressed_keys: Vec<Key>,
}

impl InputContext {
    /// The first-tick snapshot: nothing pressed now or before.
    pub fn new() -> (r: InputContext)
        ensures
            r.pressed_keys@ == Seq::<Key>::empty(),
            r.last_pressed_keys@ == Seq::<Key>::empty(),
    {
        InputContext { pressed_keys: Vec::new(), last_pressed_keys: Vec::new() }
    }
}

/// Options toggled at play time.
#[derive(Clone, Copy, Debug, PartialEq, Eq, Structural)]
pub struct GameOptions {
    pub draw_colliders: bool,
}

/// Free-form diagnostic lines surfaced to the drawing collaborator.
#[derive(Clone, Debug)]
pub struct DebugInfo {
    pub info: Vec<String>,
}

} // verus!
