//! The table of all simulated bodies.
use crate::fixed::Fixed;
use crate::physics::component::{
    views, Body, BodyView, Collider, ColliderView, CollidingDirections, CollidingEntities, Entity,
    PhysicsBodyBundle, Velocity,
};
use crate::physics::simulation::{after_frame, frame, lemma_tick_frame, PhysicsConfig};
use crate::player::component::PlayerBundle;
use crate::player::controller::{
    check_controller, handle_movement, spec_moved_state, spec_moved_velocity, spec_on_floor,
    spec_sampled, spec_sensed, update_input, update_movement_state, InputSample,
};
use crate::state::GameState;
use crate::vector::Vec2;
use vstd::prelude::*;

verus! {

/// Owns every simulated body and hands out their identities.
///
/// Bodies are kept in the order in which they were spawned. No two bodies of
/// a registry share an identity, and an identity is never given out twice.
pub struct BodyRegistry {
    bodies: Vec<Body>,
    next_id: u64,
}

/// Whether a body of the table has the given identity.
pub open spec fn alive(bodies: Seq<BodyView>, entity: Entity) -> bool {
    exists|k: int| 0 <= k < bodies.len() && (#[trigger] bodies[k]).entity == entity
}

/// The place in the table of the body with the given identity.
pub open spec fn place_of(bodies: Seq<BodyView>, entity: Entity) -> int {
    choose|k: int| 0 <= k < bodies.len() && (#[trigger] bodies[k]).entity == entity
}

/// A newly spawned body: it keeps no collision state yet.
pub open spec fn spawned(entity: Entity, bundle: PhysicsBodyBundle, collider: ColliderView) -> BodyView {
    BodyView {
        entity,
        position: bundle.position,
        body: bundle.body,
        velocity: bundle.velocity.0,
        friction: bundle.friction.0,
        gravity_scale: bundle.gravity_scale.0,
        collider,
        colliding_directions: None,
        colliding_entities: None,
    }
}

/// Whether no two bodies share an identity and every identity is below
/// `next`.
pub open spec fn identities_in_order(bodies: Seq<BodyView>, next: Entity) -> bool {
    &&& forall|a: int, b: int|
        0 <= a < b < bodies.len() ==> (#[trigger] bodies[a]).entity != (#[trigger] bodies[b]).entity
    &&& forall|k: int| 0 <= k < bodies.len() ==> (#[trigger] bodies[k]).entity.id < next.id
}

/// Where the identities are distinct, a body found under an identity is the
/// body of that identity.
pub proof fn lemma_place_is_unique(bodies: Seq<BodyView>, next: Entity, k: int)
    requires
        identities_in_order(bodies, next),
        0 <= k < bodies.len(),
    ensures
        alive(bodies, bodies[k].entity),
        place_of(bodies, bodies[k].entity) == k,
{
    let found = place_of(bodies, bodies[k].entity);
    if found < k {
        assert(bodies[found].entity != bodies[k].entity);
    } else if k < found {
        assert(bodies[k].entity != bodies[found].entity);
    }
}

/// Whether a player who controls the body with the given identity can move
/// it: the body lives and keeps its collision directions.
pub open spec fn spec_drives(bodies: Seq<BodyView>, entity: Entity) -> bool {
    alive(bodies, entity) && bodies[place_of(bodies, entity)].colliding_directions is Some
}

/// What a player carries after its tick on the body with the given identity.
///
/// The device is detected and the input sampled in any case. The movement
/// state is judged only if the body lives, and the movement stage is run only
/// if the player can move the body.
pub open spec fn spec_driven_bundle(
    bodies: Seq<BodyView>,
    entity: Entity,
    bundle: PlayerBundle,
    sample: InputSample,
    dt: Fixed,
) -> PlayerBundle {
    let body = bodies[place_of(bodies, entity)];
    let sensed = spec_sensed(bundle.player_state, sample, body.velocity);
    let state = if !alive(bodies, entity) {
        spec_sampled(bundle.player_state, sample)
    } else if body.colliding_directions is Some {
        spec_moved_state(
            sensed,
            bundle.player_movement_stats,
            spec_on_floor(body.colliding_directions->0),
            dt,
        )
    } else {
        sensed
    };
    PlayerBundle { player_state: state, ..bundle }
}

/// The table after a player's tick on the body with the given identity: the
/// body has the velocity that the movement stage gives it, if the player can
/// move it; nothing else is changed.
pub open spec fn spec_driven_bodies(
    bodies: Seq<BodyView>,
    entity: Entity,
    bundle: PlayerBundle,
    sample: InputSample,
    dt: Fixed,
) -> Seq<BodyView> {
    if spec_drives(bodies, entity) {
        let place = place_of(bodies, entity);
        let body = bodies[place];
        bodies.update(
            place,
            BodyView {
                velocity: spec_moved_velocity(
                    spec_sensed(bundle.player_state, sample, body.velocity),
                    body.velocity,
                    bundle.player_movement_stats,
                    spec_on_floor(body.colliding_directions->0),
                    dt,
                ),
                ..body
            },
        )
    } else {
        bodies
    }
}

impl BodyRegistry {
    /// The bodies as mathematical values, in spawning order.
    pub closed spec fn view(&self) -> Seq<BodyView> {
        views(self.bodies@)
    }

    /// The identity that the next spawned body will get.
    pub closed spec fn next_entity(&self) -> Entity {
        Entity { id: self.next_id }
    }

    /// Whether the registry is consistent: no two bodies share an identity,
    /// and every identity in use was given out before the next one. Every
    /// registry is.
    #[verifier::type_invariant]
    pub open spec fn wf(&self) -> bool {
        identities_in_order(self@, self.next_entity())
    }

    /// Takes the table out of the registry, which is left without bodies
    /// until the table is put back.
    fn take_bodies(&mut self) -> (bodies: Vec<Body>)
        ensures
            bodies == old(self).bodies,
            final(self).bodies@.len() == 0,
            final(self).next_id == old(self).next_id,
    {
        let mut bodies: Vec<Body> = Vec::new();
        core::mem::swap(&mut self.bodies, &mut bodies);
        bodies
    }

    /// Puts a table into the registry in place of the one it has.
    fn put_bodies(&mut self, bodies: Vec<Body>)
        requires
            identities_in_order(views(bodies@), old(self).next_entity()),
        ensures
            final(self).bodies == bodies,
            final(self).next_id == old(self).next_id,
    {
        let mut bodies = bodies;
        core::mem::swap(&mut self.bodies, &mut bodies);
    }

    /// A registry without bodies.
    pub fn new() -> (registry: BodyRegistry)
        ensures
            registry.wf(),
            registry@.len() == 0,
            registry.next_entity().id == 0,
    {
        BodyRegistry { bodies: Vec::new(), next_id: 0 }
    }

    /// The number of bodies.
    pub fn len(&self) -> (n: usize)
        ensures
            n == self@.len(),
    {
        self.bodies.len()
    }

    /// How many more bodies can be spawned before the identities are used
    /// up.
    pub fn identities_left(&self) -> (left: u64)
        ensures
            left == u64::MAX - self.next_entity().id,
    {
        u64::MAX - self.next_id
    }

    /// The place of the body with the given identity, if it lives.
    pub fn index_of(&self, entity: Entity) -> (place: Option<usize>)
        ensures
            place is Some == alive(self@, entity),
            place is Some ==> place->0 == place_of(self@, entity) && place->0 < self@.len(),
            place is Some ==> self@[place->0 as int].entity == entity,
            forall|k: int|
                0 <= k < self@.len() && (#[trigger] self@[k]).entity == entity ==> place == Some(
                    k as usize,
                ),
    {
        proof {
            use_type_invariant(&*self);
        }
        let mut k: usize = 0;
        while k < self.bodies.len()
            invariant
                k <= self.bodies.len(),
                self.wf(),
                forall|m: int| 0 <= m < k ==> (#[trigger] self@[m]).entity != entity,
            decreases self.bodies.len() - k,
        {
            if self.bodies[k].entity == entity {
                proof {
                    assert(self@[k as int].entity == entity);
                    lemma_place_is_unique(self@, self.next_entity(), k as int);
                }
                return Some(k);
            }
            k += 1;
        }
        None
    }

    /// Adds a body and returns its identity. The body keeps no collision
    /// state until it is told to.
    ///
    /// Returns `None`, and adds nothing, only when all identities are used
    /// up.
    pub fn spawn(&mut self, bundle: PhysicsBodyBundle, collider: Collider) -> (entity: Option<Entity>)
        ensures
            final(self).wf(),
            match entity {
                Some(entity) => {
                    &&& entity == old(self).next_entity()
                    &&& !alive(old(self)@, entity)
                    &&& final(self).next_entity().id == entity.id + 1
                    &&& final(self)@ == old(self)@.push(spawned(entity, bundle, collider@))
                },
                None => {
                    &&& old(self).next_entity().id == u64::MAX
                    &&& final(self)@ == old(self)@
                    &&& final(self).next_entity() == old(self).next_entity()
                },
            },
    {
        proof {
            use_type_invariant(&*self);
        }
        if self.next_id == u64::MAX {
            return None;
        }
        let entity = Entity { id: self.next_id };
        let ghost before = self@;
        let ghost shape = collider@;
        self.next_id = self.next_id + 1;
        let mut bodies = self.take_bodies();
        bodies.push(
            Body {
                entity,
                position: bundle.position,
                body: bundle.body,
                velocity: bundle.velocity,
                friction: bundle.friction,
                gravity_scale: bundle.gravity_scale,
                collider,
                colliding_directions: None,
                colliding_entities: None,
            },
        );
        proof {
            assert(views(bodies@) =~= before.push(spawned(entity, bundle, shape)));
            assert forall|k: int| 0 <= k < before.len() implies (#[trigger] before[k]).entity
                != entity by {}
        }
        self.put_bodies(bodies);
        Some(entity)
    }

    /// Removes the body with the given identity. Returns whether there was
    /// one.
    pub fn destroy(&mut self, entity: Entity) -> (removed: bool)
        ensures
            final(self).wf(),
            final(self).next_entity() == old(self).next_entity(),
            removed == alive(old(self)@, entity),
            removed ==> final(self)@ == old(self)@.remove(place_of(old(self)@, entity)),
            !removed ==> final(self)@ == old(self)@,
            !alive(final(self)@, entity),
    {
        proof {
            use_type_invariant(&*self);
        }
        match self.index_of(entity) {
            Some(k) => {
                let ghost before = self@;
                let mut bodies = self.take_bodies();
                bodies.remove(k);
                proof {
                    let after = views(bodies@);
                    assert(after =~= before.remove(k as int));
                    assert forall|m: int| 0 <= m < after.len() implies (#[trigger] after[m]).entity
                        != entity by {
                        if m < k {
                            assert(before[m].entity != before[k as int].entity);
                        } else {
                            assert(before[k as int].entity != before[m + 1].entity);
                        }
                    }
                }
                self.put_bodies(bodies);
                true
            },
            None => false,
        }
    }

    /// Makes the body with the given identity keep the directions of its
    /// collisions, starting with none. Returns whether the body lives.
    pub fn track_directions(&mut self, entity: Entity) -> (found: bool)
        ensures
            final(self).wf(),
            final(self).next_entity() == old(self).next_entity(),
            found == alive(old(self)@, entity),
            found ==> final(self)@ == old(self)@.update(
                place_of(old(self)@, entity),
                BodyView {
                    colliding_directions: Some(Seq::empty()),
                    ..old(self)@[place_of(old(self)@, entity)]
                },
            ),
            !found ==> final(self)@ == old(self)@,
    {
        proof {
            use_type_invariant(&*self);
        }
        match self.index_of(entity) {
            Some(k) => {
                let ghost before = self@;
                let mut bodies = self.take_bodies();
                bodies[k].colliding_directions = Some(CollidingDirections(Vec::new()));
                proof {
                    assert(views(bodies@) =~= before.update(
                        k as int,
                        BodyView { colliding_directions: Some(Seq::empty()), ..before[k as int] },
                    ));
                }
                self.put_bodies(bodies);
                true
            },
            None => false,
        }
    }

    /// Makes the body with the given identity keep the bodies it is in
    /// contact with, starting with none. Returns whether the body lives.
    pub fn track_contacts(&mut self, entity: Entity) -> (found: bool)
        ensures
            final(self).wf(),
            final(self).next_entity() == old(self).next_entity(),
            found == alive(old(self)@, entity),
            found ==> final(self)@ == old(self)@.update(
                place_of(old(self)@, entity),
                BodyView {
                    colliding_entities: Some(Seq::empty()),
                    ..old(self)@[place_of(old(self)@, entity)]
                },
            ),
            !found ==> final(self)@ == old(self)@,
    {
        proof {
            use_type_invariant(&*self);
        }
        match self.index_of(entity) {
            Some(k) => {
                let ghost before = self@;
                let mut bodies = self.take_bodies();
                bodies[k].colliding_entities = Some(CollidingEntities(Vec::new()));
                proof {
                    assert(views(bodies@) =~= before.update(
                        k as int,
                        BodyView { colliding_entities: Some(Seq::empty()), ..before[k as int] },
                    ));
                }
                self.put_bodies(bodies);
                true
            },
            None => false,
        }
    }

    /// The body with the given identity, if it lives.
    pub fn get(&self, entity: Entity) -> (body: Option<&Body>)
        ensures
            body is Some == alive(self@, entity),
            body is Some ==> body->0@ == self@[place_of(self@, entity)],
    {
        proof {
            use_type_invariant(&*self);
        }
        match self.index_of(entity) {
            Some(k) => Some(&self.bodies[k]),
            None => None,
        }
    }

    /// The position of the body with the given identity, if it lives.
    pub fn position(&self, entity: Entity) -> (position: Option<Vec2>)
        ensures
            position is Some == alive(self@, entity),
            position is Some ==> position->0 == self@[place_of(self@, entity)].position,
    {
        proof {
            use_type_invariant(&*self);
        }
        match self.index_of(entity) {
            Some(k) => Some(self.bodies[k].position),
            None => None,
        }
    }

    /// The velocity of the body with the given identity, if it lives.
    pub fn velocity(&self, entity: Entity) -> (velocity: Option<Velocity>)
        ensures
            velocity is Some == alive(self@, entity),
            velocity matches Some(Velocity(v)) ==> v == self@[place_of(self@, entity)].velocity,
    {
        proof {
            use_type_invariant(&*self);
        }
        match self.index_of(entity) {
            Some(k) => Some(self.bodies[k].velocity),
            None => None,
        }
    }

    /// Gives the body with the given identity a new velocity. Returns whether
    /// the body lives.
    pub fn set_velocity(&mut self, entity: Entity, velocity: Velocity) -> (found: bool)
        ensures
            final(self).wf(),
            final(self).next_entity() == old(self).next_entity(),
            found == alive(old(self)@, entity),
            found ==> final(self)@ == old(self)@.update(
                place_of(old(self)@, entity),
                BodyView { velocity: velocity.0, ..old(self)@[place_of(old(self)@, entity)] },
            ),
            !found ==> final(self)@ == old(self)@,
    {
        proof {
            use_type_invariant(&*self);
        }
        match self.index_of(entity) {
            Some(k) => {
                let ghost before = self@;
                let mut bodies = self.take_bodies();
                bodies[k].velocity = velocity;
                proof {
                    assert(views(bodies@) =~= before.update(
                        k as int,
                        BodyView { velocity: velocity.0, ..before[k as int] },
                    ));
                }
                self.put_bodies(bodies);
                true
            },
            None => false,
        }
    }

    /// The directions recorded in the last tick for the body with the given
    /// identity, if it lives and keeps them.
    pub fn colliding_directions(&self, entity: Entity) -> (directions: Option<&CollidingDirections>)
        ensures
            directions is Some == (alive(self@, entity) && self@[place_of(
                self@,
                entity,
            )].colliding_directions is Some),
            directions is Some ==> Some(directions->0@) == self@[place_of(
                self@,
                entity,
            )].colliding_directions,
    {
        proof {
            use_type_invariant(&*self);
        }
        match self.index_of(entity) {
            Some(k) => match &self.bodies[k].colliding_directions {
                Some(directions) => Some(directions),
                None => None,
            },
            None => None,
        }
    }

    /// The contacts recorded in the last tick for the body with the given
    /// identity, if it lives and keeps them.
    pub fn colliding_entities(&self, entity: Entity) -> (contacts: Option<&CollidingEntities>)
        ensures
            contacts is Some == (alive(self@, entity) && self@[place_of(
                self@,
                entity,
            )].colliding_entities is Some),
            contacts is Some ==> Some(contacts->0@) == self@[place_of(
                self@,
                entity,
            )].colliding_entities,
    {
        proof {
            use_type_invariant(&*self);
        }
        match self.index_of(entity) {
            Some(k) => match &self.bodies[k].colliding_entities {
                Some(contacts) => Some(contacts),
                None => None,
            },
            None => None,
        }
    }

    /// Advances all bodies by one frame: by one tick if the simulation is
    /// enabled and the game is being played, not at all otherwise.
    pub fn step(&mut self, config: &PhysicsConfig, state: GameState, dt: Fixed)
        ensures
            final(self).wf(),
            final(self).next_entity() == old(self).next_entity(),
            final(self)@ == after_frame(old(self)@, *config, state, dt),
    {
        proof {
            use_type_invariant(&*self);
            lemma_tick_frame(self@, config.gravity, dt);
        }
        let mut bodies = self.take_bodies();
        frame(&mut bodies, config, state, dt);
        self.put_bodies(bodies);
    }

    /// Runs a player's tick on the body that the player controls.
    ///
    /// The device is detected and the input sampled in any case. The
    /// movement state is judged only if the body lives, and the body's
    /// velocity is adjusted only if the body also keeps its collision
    /// directions; whether it was adjusted is returned.
    pub fn drive_player(
        &mut self,
        entity: Entity,
        bundle: &mut PlayerBundle,
        sample: &InputSample,
        dt: Fixed,
    ) -> (moved: bool)
        ensures
            final(self).wf(),
            final(self).next_entity() == old(self).next_entity(),
            moved == spec_drives(old(self)@, entity),
            *final(bundle) == spec_driven_bundle(old(self)@, entity, *old(bundle), *sample, dt),
            final(self)@ == spec_driven_bodies(old(self)@, entity, *old(bundle), *sample, dt),
    {
        proof {
            use_type_invariant(&*self);
        }
        let stats = bundle.player_movement_stats;
        check_controller(&mut bundle.player_state, sample.keyboard_active, sample.gamepad_active);
        update_input(&mut bundle.player_state, sample);
        match self.index_of(entity) {
            Some(k) => {
                let ghost before = self@;
                let mut velocity = self.bodies[k].velocity;
                update_movement_state(&mut bundle.player_state, &velocity);
                let moved = match &self.bodies[k].colliding_directions {
                    Some(directions) => {
                        handle_movement(
                            &mut bundle.player_state,
                            directions,
                            &stats,
                            &mut velocity,
                            dt,
                        );
                        true
                    },
                    None => false,
                };
                if moved {
                    let mut bodies = self.take_bodies();
                    bodies[k].velocity = velocity;
                    proof {
                        assert(views(bodies@) =~= before.update(
                            k as int,
                            BodyView { velocity: velocity.0, ..before[k as int] },
                        ));
                    }
                    self.put_bodies(bodies);
                }
                moved
            },
            None => false,
        }
    }
}

impl Default for BodyRegistry {
    /// A registry without bodies.
    fn default() -> (registry: BodyRegistry)
        ensures
            registry.wf(),
            registry@.len() == 0,
            registry.next_entity().id == 0,
    {
        BodyRegistry::new()
    }
}

} // verus!
