//! The three integration passes: gravity, motion and friction.
//!
//! Each pass goes over the whole table and changes dynamic bodies only.
use crate::fixed::Fixed;
use crate::physics::component::{views, Body, BodyView, PhysicsBody, Velocity};
use crate::vector::Vec2;
use vstd::prelude::*;

verus! {

/// A velocity after gravity, scaled for the body, has acted on it for `dt`.
pub open spec fn spec_accelerated(velocity: Vec2, gravity: Vec2, scale: Fixed, dt: Fixed) -> Vec2 {
    velocity.plus(gravity.scaled(scale).scaled(dt))
}

/// A position after moving at `velocity` for `dt`.
pub open spec fn spec_advanced(position: Vec2, velocity: Vec2, dt: Fixed) -> Vec2 {
    Vec2 {
        x: position.x.plus(velocity.x.times(dt)),
        y: position.y.plus(velocity.y.times(dt)),
    }
}

/// One velocity component after friction has pulled it toward zero for `dt`.
pub open spec fn spec_damped_component(velocity: Fixed, friction: Fixed, dt: Fixed) -> Fixed {
    velocity.plus(friction.times(dt).times(Fixed::zero().minus(velocity)))
}

/// A velocity after friction has acted on each axis for `dt`.
pub open spec fn spec_damped(velocity: Vec2, friction: Vec2, dt: Fixed) -> Vec2 {
    Vec2 {
        x: spec_damped_component(velocity.x, friction.x, dt),
        y: spec_damped_component(velocity.y, friction.y, dt),
    }
}

/// The body after the gravity pass.
pub open spec fn with_gravity(body: BodyView, gravity: Vec2, dt: Fixed) -> BodyView {
    if body.body == PhysicsBody::Dynamic {
        BodyView {
            velocity: spec_accelerated(body.velocity, gravity, body.gravity_scale, dt),
            ..body
        }
    } else {
        body
    }
}

/// The body after the motion pass.
pub open spec fn with_motion(body: BodyView, dt: Fixed) -> BodyView {
    if body.body == PhysicsBody::Dynamic {
        BodyView { position: spec_advanced(body.position, body.velocity, dt), ..body }
    } else {
        body
    }
}

/// The body after the friction pass.
pub open spec fn with_friction(body: BodyView, dt: Fixed) -> BodyView {
    if body.body == PhysicsBody::Dynamic {
        BodyView { velocity: spec_damped(body.velocity, body.friction, dt), ..body }
    } else {
        body
    }
}

/// The table after the gravity pass.
pub open spec fn after_gravity(bodies: Seq<BodyView>, gravity: Vec2, dt: Fixed) -> Seq<BodyView> {
    Seq::new(bodies.len(), |k: int| with_gravity(bodies[k], gravity, dt))
}

/// The table after the motion pass.
pub open spec fn after_motion(bodies: Seq<BodyView>, dt: Fixed) -> Seq<BodyView> {
    Seq::new(bodies.len(), |k: int| with_motion(bodies[k], dt))
}

/// The table after the friction pass.
pub open spec fn after_friction(bodies: Seq<BodyView>, dt: Fixed) -> Seq<BodyView> {
    Seq::new(bodies.len(), |k: int| with_friction(bodies[k], dt))
}

/// A velocity after gravity, scaled for the body, has acted on it for `dt`.
#[verifier::when_used_as_spec(spec_accelerated)]
pub fn accelerated(velocity: Vec2, gravity: Vec2, scale: Fixed, dt: Fixed) -> (next: Vec2)
    ensures
        next == spec_accelerated(velocity, gravity, scale, dt),
{
    velocity.plus(gravity.scaled(scale).scaled(dt))
}

/// A position after moving at `velocity` for `dt`.
#[verifier::when_used_as_spec(spec_advanced)]
pub fn advanced(position: Vec2, velocity: Vec2, dt: Fixed) -> (next: Vec2)
    ensures
        next == spec_advanced(position, velocity, dt),
{
    Vec2 {
        x: position.x.plus(velocity.x.times(dt)),
        y: position.y.plus(velocity.y.times(dt)),
    }
}

/// One velocity component after friction has pulled it toward zero for `dt`.
#[verifier::when_used_as_spec(spec_damped_component)]
pub fn damped_component(velocity: Fixed, friction: Fixed, dt: Fixed) -> (next: Fixed)
    ensures
        next == spec_damped_component(velocity, friction, dt),
{
    velocity.plus(friction.times(dt).times(Fixed::zero().minus(velocity)))
}

/// A velocity after friction has acted on each axis for `dt`.
#[verifier::when_used_as_spec(spec_damped)]
pub fn damped(velocity: Vec2, friction: Vec2, dt: Fixed) -> (next: Vec2)
    ensures
        next == spec_damped(velocity, friction, dt),
{
    Vec2 {
        x: damped_component(velocity.x, friction.x, dt),
        y: damped_component(velocity.y, friction.y, dt),
    }
}

/// Adds gravity to the velocity of every dynamic body.
pub fn apply_gravity(bodies: &mut Vec<Body>, gravity: Vec2, dt: Fixed)
    ensures
        views(final(bodies)@) == after_gravity(views(old(bodies)@), gravity, dt),
        final(bodies).len() == old(bodies).len(),
{
    let n = bodies.len();
    let mut k: usize = 0;
    while k < n
        invariant
            k <= n,
            bodies.len() == n,
            n == old(bodies).len(),
            forall|m: int|
                0 <= m < k ==> bodies[m]@ == with_gravity(#[trigger] old(bodies)[m]@, gravity, dt),
            forall|m: int| k <= m < n ==> bodies[m] == #[trigger] old(bodies)[m],
        decreases n - k,
    {
        if bodies[k].body == PhysicsBody::Dynamic {
            let next = accelerated(bodies[k].velocity.0, gravity, bodies[k].gravity_scale.0, dt);
            bodies[k].velocity = Velocity(next);
        }
        k += 1;
    }
    assert(views(bodies@) =~= after_gravity(views(old(bodies)@), gravity, dt));
}

/// Moves every dynamic body by its velocity.
pub fn apply_velocity(bodies: &mut Vec<Body>, dt: Fixed)
    ensures
        views(final(bodies)@) == after_motion(views(old(bodies)@), dt),
        final(bodies).len() == old(bodies).len(),
{
    let n = bodies.len();
    let mut k: usize = 0;
    while k < n
        invariant
            k <= n,
            bodies.len() == n,
            n == old(bodies).len(),
            forall|m: int| 0 <= m < k ==> bodies[m]@ == with_motion(#[trigger] old(bodies)[m]@, dt),
            forall|m: int| k <= m < n ==> bodies[m] == #[trigger] old(bodies)[m],
        decreases n - k,
    {
        if bodies[k].body == PhysicsBody::Dynamic {
            let next = advanced(bodies[k].position, bodies[k].velocity.0, dt);
            bodies[k].position = next;
        }
        k += 1;
    }
    assert(views(bodies@) =~= after_motion(views(old(bodies)@), dt));
}

/// Damps the velocity of every dynamic body by its friction.
pub fn apply_friction(bodies: &mut Vec<Body>, dt: Fixed)
    ensures
        views(final(bodies)@) == after_friction(views(old(bodies)@), dt),
        final(bodies).len() == old(bodies).len(),
{
    let n = bodies.len();
    let mut k: usize = 0;
    while k < n
        invariant
            k <= n,
            bodies.len() == n,
            n == old(bodies).len(),
            forall|m: int|
                0 <= m < k ==> bodies[m]@ == with_friction(#[trigger] old(bodies)[m]@, dt),
            forall|m: int| k <= m < n ==> bodies[m] == #[trigger] old(bodies)[m],
        decreases n - k,
    {
        if bodies[k].body == PhysicsBody::Dynamic {
            let next = damped(bodies[k].velocity.0, bodies[k].friction.0, dt);
            bodies[k].velocity = Velocity(next);
        }
        k += 1;
    }
    assert(views(bodies@) =~= after_friction(views(old(bodies)@), dt));
}

} // verus!
