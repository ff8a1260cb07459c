//! The entity-component world: densely packed per-component containers
//! indexed by a stable integer entity id, plus the per-simulation resources.
//!
//! Structural changes are staged: removing an entity only records the id,
//! and the tick-boundary maintenance step applies every staged removal, so
//! in-flight iteration is never invalidated mid-tick.

use vstd::prelude::*;

verus! {

use crate::components::BoxCollider;
use crate::components::CollisionSet;
use crate::components::Player;
use crate::components::Sprite;
use crate::components::Transform;
use crate::components::Velocity;
use crate::resources::ActionContext;
use crate::resources::DebugInfo;
use crate::resources::DeltaTime;
use crate::resources::GameOptions;
use crate::resources::InputContext;
use crate::resources::KeyBindings;
use crate::resources::default_bindings;

/// The world.  An entity is an index that is valid in every component
/// container at once; a `None` slot means the entity does not own that
/// component.
pub struct ECS {
    pub transforms: Vec<Option<Transform>>,
    pub velocities: Vec<Option<Velocity>>,
    pub colliders: Vec<Option<BoxCollider>>,
    pub collision_sets: Vec<Option<CollisionSet>>,
    pub players: Vec<Option<Player>>,
    pub sprites: Vec<Option<Sprite>>,
    pub alive: Vec<bool>,
    pub pending_removals: Vec<usize>,
    pub delta_time: DeltaTime,
    pub actions: ActionContext,
    pub options: GameOptions,
    pub debug_info: DebugInfo,
    pub input: InputContext,
    pub bindings: KeyBindings,
}

impl ECS {
    /// Number of entity slots ever allocated.
    pub open spec fn len(self) -> nat {
        self.alive@.len()
    }

    /// Structural well-formedness: the containers run in step, a collider
    /// is always co-registered with a collision set and a transform, a dead
    /// slot owns nothing, and every stored component satisfies its own
    /// invariant.
    pub open spec fn wf(self) -> bool {
        &&& self.transforms@.len() == self.len()
        &&& self.velocities@.len() == self.len()
        &&& self.colliders@.len() == self.len()
        &&& self.collision_sets@.len() == self.len()
        &&& self.players@.len() == self.len()
        &&& self.sprites@.len() == self.len()
        &&& forall|i: int|
            0 <= i < self.len() ==> (self.colliders@[i] is Some <==> self.collision_sets@[i]
                is Some)
        &&& forall|i: int|
            0 <= i < self.len() ==> (self.colliders@[i] is Some ==> self.transforms@[i] is Some)
        &&& forall|i: int|
            0 <= i < self.len() ==> ((#[trigger] self.transforms@[i]) matches Some(t) ==> t.wf())
        &&& forall|i: int|
            0 <= i < self.len() ==> ((#[trigger] self.colliders@[i]) matches Some(c) ==> c.wf())
        &&& forall|i: int|
            0 <= i < self.len() ==> ((#[trigger] self.players@[i]) matches Some(p) ==> p.wf())
        &&& forall|i: int|
            0 <= i < self.len() && !self.alive@[i] ==> {
                &&& self.transforms@[i] is None
                &&& self.velocities@[i] is None
                &&& self.colliders@[i] is None
                &&& self.collision_sets@[i] is None
                &&& self.players@[i] is None
                &&& self.sprites@[i] is None
            }
    }

    /// A fresh world: no entities, default resources, default bindings.
    /// The diagnostics resource starts with a single empty line.
    pub fn new() -> (r: ECS)
        ensures
            r.wf(),
            r.len() == 0,
            r.pending_removals@.len() == 0,
            r.delta_time.0 == 0,
            r.debug_info.info@.len() == 1,
            r.debug_info.info@[0]@ == Seq::<char>::empty(),
            r.actions == (ActionContext {
                move_north: false,
                move_south: false,
                move_west: false,
                move_east: false,
            }),
            !r.options.draw_colliders,
            r.input.pressed_keys@.len() == 0,
            r.input.last_pressed_keys@.len() == 0,
            r.bindings.north@ == seq![
                crate::resources::Key::Up,
                crate::resources::Key::W,
            ],
            r.bindings.south@ == seq![
                crate::resources::Key::Down,
                crate::resources::Key::S,
            ],
            r.bindings.west@ == seq![
                crate::resources::Key::Left,
                crate::resources::Key::A,
            ],
            r.bindings.east@ == seq![
                crate::resources::Key::Right,
                crate::resources::Key::D,
            ],
            r.bindings.toggle_colliders == crate::resources::Key::F1,
    {
        let mut diagnostic_lines: Vec<String> = Vec::new();
        diagnostic_lines.push(String::new());
        ECS {
            transforms: Vec::new(),
            velocities: Vec::new(),
            colliders: Vec::new(),
            collision_sets: Vec::new(),
            players: Vec::new(),
            sprites: Vec::new(),
            alive: Vec::new(),
            pending_removals: Vec::new(),
            delta_time: DeltaTime(0),
            actions: ActionContext::new(),
            options: GameOptions { draw_colliders: false },
            debug_info: DebugInfo { info: diagnostic_lines },
            input: InputContext::new(),
            bindings: default_bindings(),
        }
    }

    /// Allocates the next entity id and registers its transform.  The new
    /// id is the previous slot count; every other slot is untouched.
    pub fn new_entity(&mut self, x: i64, y: i64, scale: i64, rotation: i64) -> (e: usize)
        requires
            old(self).wf(),
            scale > 0,
        ensures
            final(self).wf(),
            e == old(self).len(),
            final(self).len() == old(self).len() + 1,
            final(self).transforms@ == old(self).transforms@.push(
                Some(Transform { x, y, scale, rotation }),
            ),
            final(self).velocities@ == old(self).velocities@.push(None::<Velocity>),
            final(self).colliders@ == old(self).colliders@.push(None::<BoxCollider>),
            final(self).collision_sets@ == old(self).collision_sets@.push(
                None::<CollisionSet>,
            ),
            final(self).players@ == old(self).players@.push(None::<Player>),
            final(self).sprites@ == old(self).sprites@.push(None::<Sprite>),
            final(self).alive@ == old(self).alive@.push(true),
            final(self).pending_removals@ == old(self).pending_removals@,
            final(self).delta_time == old(self).delta_time,
            final(self).debug_info == old(self).debug_info,
            final(self).actions == old(self).actions,
            final(self).options == old(self).options,
            final(self).input == old(self).input,
            final(self).bindings == old(self).bindings,
    {
        let e = self.alive.len();
        self.transforms.push(Some(Transform { x, y, scale, rotation }));
        self.velocities.push(None);
        self.colliders.push(None);
        self.collision_sets.push(None);
        self.players.push(None);
        self.sprites.push(None);
        self.alive.push(true);
        e
    }

    /// Gives an entity a velocity component (or replaces the one it has).
    pub fn add_velocity(&mut self, e: usize, v: Velocity)
        requires
            old(self).wf(),
            e < old(self).len(),
            old(self).alive@[e as int],
        ensures
            final(self).wf(),
            final(self).velocities@ == old(self).velocities@.update(e as int, Some(v)),
            unchanged_except_velocities(*old(self), *final(self)),
    {
        self.velocities[e] = Some(v);
    }

    /// Marks an entity as a player (or replaces its player record).
    pub fn add_player(&mut self, e: usize, p: Player)
        requires
            old(self).wf(),
            e < old(self).len(),
            old(self).alive@[e as int],
            p.wf(),
        ensures
            final(self).wf(),
            final(self).players@ == old(self).players@.update(e as int, Some(p)),
            unchanged_except_players(*old(self), *final(self)),
    {
        self.players[e] = Some(p);
    }

    /// Attaches a drawable to an entity (or swaps the one it shows).  The
    /// image itself lives with the rendering collaborator; the handle is
    /// all the core keeps.
    pub fn add_sprite(&mut self, e: usize, s: Sprite)
        requires
            old(self).wf(),
            e < old(self).len(),
            old(self).alive@[e as int],
        ensures
            final(self).wf(),
            final(self).sprites@ == old(self).sprites@.update(e as int, Some(s)),
            unchanged_except_sprites(*old(self), *final(self)),
    {
        self.sprites[e] = Some(s);
    }

    /// Gives an entity a collision box.  The collision set is co-registered
    /// at the same moment (empty until the next collision detection pass),
    /// which keeps the structural invariant that each implies the other.
    pub fn add_collider(&mut self, e: usize, c: BoxCollider)
        requires
            old(self).wf(),
            e < old(self).len(),
            old(self).alive@[e as int],
            old(self).transforms@[e as int] is Some,
            c.wf(),
        ensures
            final(self).wf(),
            final(self).colliders@ == old(self).colliders@.update(e as int, Some(c)),
            final(self).collision_sets@[e as int] is Some,
            final(self).collision_sets@[e as int].unwrap().overlapping@ == Seq::<usize>::empty(),
            forall|i: int|
                0 <= i < old(self).len() && i != e ==> final(self).collision_sets@[i] == old(
                    self,
                ).collision_sets@[i],
            final(self).collision_sets@.len() == old(self).collision_sets@.len(),
            unchanged_except_collider_slots(*old(self), *final(self)),
    {
        self.colliders[e] = Some(c);
        self.collision_sets[e] = Some(CollisionSet { overlapping: Vec::new() });
    }

    /// The current pose of an entity, for drawing and for scripts.
    pub fn get_transform(&self, e: usize) -> (t: &Transform)
        requires
            self.wf(),
            e < self.len(),
            self.transforms@[e as int] is Some,
        ensures
            *t == self.transforms@[e as int].unwrap(),
    {
        match &self.transforms[e] {
            Some(t) => t,
            None => vstd::pervasive::unreached(),
        }
    }

    /// Replaces an entity's transform, for world-construction scripts.
    pub fn set_transform(&mut self, e: usize, t: Transform)
        requires
            old(self).wf(),
            e < old(self).len(),
            old(self).alive@[e as int],
            old(self).transforms@[e as int] is Some,
            t.wf(),
        ensures
            final(self).wf(),
            final(self).transforms@ == old(self).transforms@.update(e as int, Some(t)),
            unchanged_except_transforms(*old(self), *final(self)),
    {
        self.transforms[e] = Some(t);
    }

    /// Stages an entity for removal.  Nothing is freed here: the staged id
    /// takes effect at the next maintenance point, so systems iterating
    /// this tick still see the entity.
    pub fn remove_entity(&mut self, e: usize)
        requires
            old(self).wf(),
            e < old(self).len(),
        ensures
            final(self).wf(),
            final(self).pending_removals@ == old(self).pending_removals@.push(e),
            unchanged_except_pending(*old(self), *final(self)),
    {
        self.pending_removals.push(e);
    }

    /// The tick-boundary maintenance point: applies every staged removal by
    /// clearing the slot, then forgets the staging list.  Ids never shift,
    /// so surviving entities keep their components untouched.
    #[verifier::rlimit(50)]
    pub fn maintain(&mut self)
        requires
            old(self).wf(),
        ensures
            final(self).wf(),
            final(self).pending_removals@.len() == 0,
            final(self).len() == old(self).len(),
            forall|i: int|
                0 <= i < old(self).len() && old(self).pending_removals@.contains(i as usize)
                    ==> {
                    &&& !final(self).alive@[i]
                    &&& final(self).transforms@[i] is None
                    &&& final(self).velocities@[i] is None
                    &&& final(self).colliders@[i] is None
                    &&& final(self).collision_sets@[i] is None
                    &&& final(self).players@[i] is None
                    &&& final(self).sprites@[i] is None
                },
            forall|i: int|
                0 <= i < old(self).len() && !old(self).pending_removals@.contains(i as usize)
                    ==> {
                    &&& final(self).alive@[i] == old(self).alive@[i]
                    &&& final(self).transforms@[i] == old(self).transforms@[i]
                    &&& final(self).velocities@[i] == old(self).velocities@[i]
                    &&& final(self).colliders@[i] == old(self).colliders@[i]
                    &&& final(self).collision_sets@[i] == old(self).collision_sets@[i]
                    &&& final(self).players@[i] == old(self).players@[i]
                    &&& final(self).sprites@[i] == old(self).sprites@[i]
                },
            final(self).delta_time == old(self).delta_time,
            final(self).debug_info == old(self).debug_info,
            final(self).actions == old(self).actions,
            final(self).options == old(self).options,
            final(self).input == old(self).input,
            final(self).bindings == old(self).bindings,
    {
        let mut k: usize = 0;
        while k < self.pending_removals.len()
            invariant
                self.wf(),
                self.len() == old(self).len(),
                self.pending_removals@ == old(self).pending_removals@,
                k <= self.pending_removals@.len(),
                forall|i: int|
                    0 <= i < old(self).len() && old(self).pending_removals@.subrange(
                        0,
                        k as int,
                    ).contains(i as usize) ==> {
                        &&& !self.alive@[i]
                        &&& self.transforms@[i] is None
                        &&& self.velocities@[i] is None
                        &&& self.colliders@[i] is None
                        &&& self.collision_sets@[i] is None
                        &&& self.players@[i] is None
                        &&& self.sprites@[i] is None
                    },
                forall|i: int|
                    0 <= i < old(self).len() && !old(self).pending_removals@.subrange(
                        0,
                        k as int,
                    ).contains(i as usize) ==> {
                        &&& self.alive@[i] == old(self).alive@[i]
                        &&& self.transforms@[i] == old(self).transforms@[i]
                        &&& self.velocities@[i] == old(self).velocities@[i]
                        &&& self.colliders@[i] == old(self).colliders@[i]
                        &&& self.collision_sets@[i] == old(self).collision_sets@[i]
                        &&& self.players@[i] == old(self).players@[i]
                        &&& self.sprites@[i] == old(self).sprites@[i]
                    },
                self.delta_time == old(self).delta_time,
                self.debug_info == old(self).debug_info,
                self.actions == old(self).actions,
                self.options == old(self).options,
                self.input == old(self).input,
                self.bindings == old(self).bindings,
            decreases self.pending_removals@.len() - k,
        {
            let e = self.pending_removals[k];
            if e < self.alive.len() {
                self.alive[e] = false;
                self.transforms[e] = None;
                self.velocities[e] = None;
                self.colliders[e] = None;
                self.collision_sets[e] = None;
                self.players[e] = None;
                self.sprites[e] = None;
            }
            proof {
                broadcast use vstd::seq_lib::lemma_seq_contains_after_push;

                let pre = old(self).pending_removals@;
                assert(pre.subrange(0, k + 1 as int) =~= pre.subrange(0, k as int).push(
                    pre[k as int],
                ));
            }
            k = k + 1;
        }
        proof {
            let pre = old(self).pending_removals@;
            assert(pre.subrange(0, pre.len() as int) =~= pre);
            assert forall|i: int|
                0 <= i < old(self).len() && pre.contains(i as usize) implies {
                &&& !self.alive@[i]
                &&& self.transforms@[i] is None
                &&& self.velocities@[i] is None
                &&& self.colliders@[i] is None
                &&& self.collision_sets@[i] is None
                &&& self.players@[i] is None
                &&& self.sprites@[i] is None
            } by {
                assert(k == pre.len());
                assert(pre.subrange(0, k as int) =~= pre);
                assert(pre.subrange(0, k as int).contains(i as usize));
            };
            assert forall|i: int|
                0 <= i < old(self).len() && !pre.contains(i as usize) implies {
                &&& self.alive@[i] == old(self).alive@[i]
                &&& self.transforms@[i] == old(self).transforms@[i]
                &&& self.velocities@[i] == old(self).velocities@[i]
                &&& self.colliders@[i] == old(self).colliders@[i]
                &&& self.collision_sets@[i] == old(self).collision_sets@[i]
                &&& self.players@[i] == old(self).players@[i]
                &&& self.sprites@[i] == old(self).sprites@[i]
            } by {
                assert(!pre.subrange(0, k as int).contains(i as usize));
            };
        }
        self.pending_removals.clear();
    }
}

/// Everything but the velocity container is untouched.
pub open spec fn unchanged_except_velocities(a: ECS, b: ECS) -> bool {
    &&& b.transforms@ == a.transforms@
    &&& b.colliders@ == a.colliders@
    &&& b.collision_sets@ == a.collision_sets@
    &&& b.players@ == a.players@
    &&& b.sprites@ == a.sprites@
    &&& b.alive@ == a.alive@
    &&& b.pending_removals@ == a.pending_removals@
    &&& b.delta_time == a.delta_time
    &&& b.debug_info == a.debug_info
    &&& b.actions == a.actions
    &&& b.options == a.options
    &&& b.input == a.input
    &&& b.bindings == a.bindings
}

/// Everything but the player container is untouched.
pub open spec fn unchanged_except_players(a: ECS, b: ECS) -> bool {
    &&& b.transforms@ == a.transforms@
    &&& b.velocities@ == a.velocities@
    &&& b.colliders@ == a.colliders@
    &&& b.collision_sets@ == a.collision_sets@
    &&& b.sprites@ == a.sprites@
    &&& b.alive@ == a.alive@
    &&& b.pending_removals@ == a.pending_removals@
    &&& b.delta_time == a.delta_time
    &&& b.debug_info == a.debug_info
    &&& b.actions == a.actions
    &&& b.options == a.options
    &&& b.input == a.input
    &&& b.bindings == a.bindings
}

/// Everything but the sprite container is untouched.
pub open spec fn unchanged_except_sprites(a: ECS, b: ECS) -> bool {
    &&& b.transforms@ == a.transforms@
    &&& b.velocities@ == a.velocities@
    &&& b.colliders@ == a.colliders@
    &&& b.collision_sets@ == a.collision_sets@
    &&& b.players@ == a.players@
    &&& b.alive@ == a.alive@
    &&& b.pending_removals@ == a.pending_removals@
    &&& b.delta_time == a.delta_time
    &&& b.debug_info == a.debug_info
    &&& b.actions == a.actions
    &&& b.options == a.options
    &&& b.input == a.input
    &&& b.bindings == a.bindings
}

/// Everything but the collider and collision-set containers is untouched.
pub open spec fn unchanged_except_collider_slots(a: ECS, b: ECS) -> bool {
    &&& b.transforms@ == a.transforms@
    &&& b.velocities@ == a.velocities@
    &&& b.players@ == a.players@
    &&& b.sprites@ == a.sprites@
    &&& b.alive@ == a.alive@
    &&& b.pending_removals@ == a.pending_removals@
    &&& b.delta_time == a.delta_time
    &&& b.debug_info == a.debug_info
    &&& b.actions == a.actions
    &&& b.options == a.options
    &&& b.input == a.input
    &&& b.bindings == a.bindings
}

/// Everything but the transform container is untouched.
pub open spec fn unchanged_except_transforms(a: ECS, b: ECS) -> bool {
    &&& b.velocities@ == a.velocities@
    &&& b.colliders@ == a.colliders@
    &&& b.collision_sets@ == a.collision_sets@
    &&& b.players@ == a.players@
    &&& b.sprites@ == a.sprites@
    &&& b.alive@ == a.alive@
    &&& b.pending_removals@ == a.pending_removals@
    &&& b.delta_time == a.delta_time
    &&& b.debug_info == a.debug_info
    &&& b.actions == a.actions
    &&& b.options == a.options
    &&& b.input == a.input
    &&& b.bindings == a.bindings
}

/// Everything but the staged-removal list is untouched.
pub open spec fn unchanged_except_pending(a: ECS, b: ECS) -> bool {
    &&& b.transforms@ == a.transforms@
    &&& b.velocities@ == a.velocities@
    &&& b.colliders@ == a.colliders@
    &&& b.collision_sets@ == a.collision_sets@
    &&& b.players@ == a.players@
    &&& b.sprites@ == a.sprites@
    &&& b.alive@ == a.alive@
    &&& b.delta_time == a.delta_time
    &&& b.debug_info == a.debug_info
    &&& b.actions == a.actions
    &&& b.options == a.options
    &&& b.input == a.input
    &&& b.bindings == a.bindings
}

} // verus!
