//! The attributes of a simulated body and its collision state.
use crate::fixed::Fixed;
use crate::vector::Vec2;
use vstd::prelude::*;

verus! {

/// Identifies a body for as long as it lives.
#[derive(Clone, Copy, Debug, PartialEq, Eq, Hash, Structural)]
pub struct Entity {
    pub id: u64,
}

/// How a body takes part in the simulation.
///
/// A dynamic body is moved by gravity, velocity and friction. A static body is
/// never moved but can still be run into.
#[derive(Clone, Copy, Debug, PartialEq, Eq, Structural)]
pub enum PhysicsBody {
    Dynamic,
    Static,
}

/// A body's velocity, in units per second.
#[derive(Clone, Copy, Debug, PartialEq, Eq, Structural)]
pub struct Velocity(pub Vec2);

/// A body's damping coefficients, one per axis, per second.
#[derive(Clone, Copy, Debug, PartialEq, Eq, Structural)]
pub struct Friction(pub Vec2);

/// The factor by which global gravity acts on a body.
#[derive(Clone, Copy, Debug, PartialEq, Eq, Structural)]
pub struct GravityScale(pub Fixed);

impl From<Vec2> for Velocity {
    /// The velocity with the given components.
    fn from(v: Vec2) -> (velocity: Velocity) {
        Velocity(v)
    }
}

impl vstd::std_specs::convert::FromSpecImpl<Vec2> for Velocity {
    open spec fn obeys_from_spec() -> bool {
        true
    }

    open spec fn from_spec(v: Vec2) -> Velocity {
        Velocity(v)
    }
}

impl From<Vec2> for Friction {
    /// The friction with the given coefficients.
    fn from(v: Vec2) -> (friction: Friction) {
        Friction(v)
    }
}

impl vstd::std_specs::convert::FromSpecImpl<Vec2> for Friction {
    open spec fn obeys_from_spec() -> bool {
        true
    }

    open spec fn from_spec(v: Vec2) -> Friction {
        Friction(v)
    }
}

/// The directions in which a body ran into others during the last tick, one
/// entry per contact, in the order the contacts were found. Each component of
/// an entry is minus one, zero or one.
#[derive(Clone, Debug)]
pub struct CollidingDirections(pub Vec<Vec2>);

/// The bodies that a body was in contact with during the last tick.
#[derive(Clone, Debug)]
pub struct CollidingEntities(pub Vec<Entity>);

/// An axis-aligned box centred on its body's position.
///
/// `tags` say what the body is. `colliding_tags` say what stops it: the body
/// is blocked by another exactly when each of its `colliding_tags` is among
/// the other's `tags`.
#[derive(Clone, Debug)]
pub struct Collider {
    pub tags: Vec<String>,
    pub colliding_tags: Vec<String>,
    pub half_extents: Vec2,
}

/// The attributes that every simulated body has.
#[derive(Clone, Copy, Debug, PartialEq, Eq, Structural)]
pub struct PhysicsBodyBundle {
    pub position: Vec2,
    pub body: PhysicsBody,
    pub velocity: Velocity,
    pub friction: Friction,
    pub gravity_scale: GravityScale,
}

/// One body of the simulation with everything the passes read and write.
///
/// The two collision-state fields are optional: a body without one of them
/// takes part in collisions all the same, but nothing is recorded for it.
#[derive(Clone, Debug)]
pub struct Body {
    pub entity: Entity,
    pub position: Vec2,
    pub body: PhysicsBody,
    pub velocity: Velocity,
    pub friction: Friction,
    pub gravity_scale: GravityScale,
    pub collider: Collider,
    pub colliding_directions: Option<CollidingDirections>,
    pub colliding_entities: Option<CollidingEntities>,
}

/// The labels of a tag list as plain character sequences.
pub open spec fn labels(tags: Seq<String>) -> Seq<Seq<char>> {
    Seq::new(tags.len(), |k: int| tags[k]@)
}

/// A collider as a mathematical value.
pub struct ColliderView {
    pub tags: Seq<Seq<char>>,
    pub colliding_tags: Seq<Seq<char>>,
    pub half_extents: Vec2,
}

/// A body as a mathematical value.
pub struct BodyView {
    pub entity: Entity,
    pub position: Vec2,
    pub body: PhysicsBody,
    pub velocity: Vec2,
    pub friction: Vec2,
    pub gravity_scale: Fixed,
    pub collider: ColliderView,
    pub colliding_directions: Option<Seq<Vec2>>,
    pub colliding_entities: Option<Seq<Entity>>,
}

impl View for CollidingDirections {
    type V = Seq<Vec2>;

    open spec fn view(&self) -> Seq<Vec2> {
        self.0@
    }
}

impl View for CollidingEntities {
    type V = Seq<Entity>;

    open spec fn view(&self) -> Seq<Entity> {
        self.0@
    }
}

impl View for Collider {
    type V = ColliderView;

    open spec fn view(&self) -> ColliderView {
        ColliderView {
            tags: labels(self.tags@),
            colliding_tags: labels(self.colliding_tags@),
            half_extents: self.half_extents,
        }
    }
}

impl View for Body {
    type V = BodyView;

    open spec fn view(&self) -> BodyView {
        BodyView {
            entity: self.entity,
            position: self.position,
            body: self.body,
            velocity: self.velocity.0,
            friction: self.friction.0,
            gravity_scale: self.gravity_scale.0,
            collider: self.collider@,
            colliding_directions: match self.colliding_directions {
                Some(d) => Some(d@),
                None => None,
            },
            colliding_entities: match self.colliding_entities {
                Some(e) => Some(e@),
                None => None,
            },
        }
    }
}

/// The bodies of a table as mathematical values, in table order.
pub open spec fn views(bodies: Seq<Body>) -> Seq<BodyView> {
    Seq::new(bodies.len(), |k: int| bodies[k]@)
}

impl Default for CollidingDirections {
    /// No directions.
    fn default() -> (directions: CollidingDirections)
        ensures
            directions@ == Seq::<Vec2>::empty(),
    {
        CollidingDirections(Vec::new())
    }
}

impl Default for CollidingEntities {
    /// No contacts.
    fn default() -> (contacts: CollidingEntities)
        ensures
            contacts@ == Seq::<Entity>::empty(),
    {
        CollidingEntities(Vec::new())
    }
}

/// The collider that a body has unless it is given another: a box without
/// extent and without tags that is blocked by the ground.
pub open spec fn spec_default_collider() -> ColliderView {
    ColliderView {
        tags: Seq::empty(),
        colliding_tags: seq!["ground"@],
        half_extents: Vec2::zero(),
    }
}

impl Default for Collider {
    /// A box without extent and without tags that is blocked by the ground.
    fn default() -> (collider: Collider)
        ensures
            collider@ == spec_default_collider(),
    {
        let collider = Collider {
            tags: Vec::new(),
            colliding_tags: vec!["ground".to_owned()],
            half_extents: Vec2::zero(),
        };
        assert(collider@.tags =~= Seq::empty());
        assert(collider@.colliding_tags =~= seq!["ground"@]);
        collider
    }
}

/// The attributes that a body has unless it is given others: a dynamic body
/// at the origin, at rest, without friction, under the full gravity.
pub open spec fn spec_default_bundle() -> PhysicsBodyBundle {
    PhysicsBodyBundle {
        position: Vec2::zero(),
        body: PhysicsBody::Dynamic,
        velocity: Velocity(Vec2::zero()),
        friction: Friction(Vec2::zero()),
        gravity_scale: GravityScale(Fixed::one()),
    }
}

impl Default for PhysicsBodyBundle {
    /// A dynamic body at the origin, at rest, without friction, under the
    /// full gravity.
    fn default() -> (bundle: PhysicsBodyBundle)
        ensures
            bundle == spec_default_bundle(),
    {
        PhysicsBodyBundle {
            position: Vec2::zero(),
            body: PhysicsBody::Dynamic,
            velocity: Velocity(Vec2::zero()),
            friction: Friction(Vec2::zero()),
            gravity_scale: GravityScale(Fixed::one()),
        }
    }
}

} // verus!
