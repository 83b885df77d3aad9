//! What holds of a single contact and of the integration passes.
use crate::fixed::{Fixed, SCALE};
use crate::physics::collision::{blocked_by, contact_between, hits_x, hits_y};
use crate::physics::component::{BodyView, PhysicsBody};
use crate::physics::integrator::{
    after_gravity, spec_damped_component, with_friction, with_gravity,
};
use crate::player::controller::spec_down;
use crate::vector::Vec2;
use vstd::prelude::*;

verus! {

/// A body that is blocked loses its velocity on exactly the axes whose test
/// met the other box. The velocity on an axis whose test did not meet it is
/// left as it was, and a body that is not blocked keeps its whole velocity.
pub proof fn lemma_contact_stops_blocked_axes_only(mover: BodyView, other: BodyView, dt: Fixed)
    ensures
        ({
            let contact = contact_between(mover, other, dt);
            let blocked = blocked_by(mover, other);
            &&& blocked && hits_x(mover, other, dt) ==> contact.velocity.x@ == 0
            &&& blocked && hits_y(mover, other, dt) ==> contact.velocity.y@ == 0
            &&& !hits_x(mover, other, dt) ==> contact.velocity.x == mover.velocity.x
            &&& !hits_y(mover, other, dt) ==> contact.velocity.y == mover.velocity.y
            &&& !blocked ==> contact.velocity == mover.velocity
        }),
{
}

/// What a contact does to the mover depends on the mover's colliding tags and
/// the other body's tags alone: the tags that the other body collides with,
/// and the mover's own tags, play no part. So where the first of two bodies
/// is blocked by the second but not the second by the first, only the first
/// is stopped.
pub proof fn lemma_blocking_is_directional(mover: BodyView, other: BodyView, dt: Fixed)
    requires
        blocked_by(mover, other),
        !blocked_by(other, mover),
    ensures
        hits_x(mover, other, dt) ==> contact_between(mover, other, dt).velocity.x@ == 0,
        hits_y(mover, other, dt) ==> contact_between(mover, other, dt).velocity.y@ == 0,
        contact_between(other, mover, dt).velocity == other.velocity,
{
}

/// A contact records the straight-down direction exactly when the mover is
/// falling, its box advanced vertically meets the other box, and no
/// horizontal direction is recorded with it: either its box advanced
/// horizontally does not meet the other box, or it is not moving
/// horizontally.
pub proof fn lemma_contact_points_down(mover: BodyView, other: BodyView, dt: Fixed)
    ensures
        ({
            let contact = contact_between(mover, other, dt);
            (contact.touched && contact.direction == spec_down()) <==> (mover.velocity.y@ < 0
                && hits_y(mover, other, dt) && (hits_x(mover, other, dt) ==> mover.velocity.x@
                == 0))
        }),
{
}

/// Every component of a recorded direction is minus one, zero or one.
pub proof fn lemma_direction_components(mover: BodyView, other: BodyView, dt: Fixed)
    ensures
        ({
            let direction = contact_between(mover, other, dt).direction;
            &&& direction.x@ == -SCALE || direction.x@ == 0 || direction.x@ == SCALE
            &&& direction.y@ == -SCALE || direction.y@ == 0 || direction.y@ == SCALE
        }),
{
}

/// Gravity does nothing to a body whose gravity scale is zero.
pub proof fn lemma_zero_scale_cancels_gravity(body: BodyView, gravity: Vec2, dt: Fixed)
    requires
        body.gravity_scale@ == 0,
    ensures
        with_gravity(body, gravity, dt) == body,
{
    assert(gravity.x@ * 0 == 0);
    assert(gravity.y@ * 0 == 0);
    assert(gravity.x.times(body.gravity_scale)@ == 0);
    assert(gravity.y.times(body.gravity_scale)@ == 0);
    assert(0 * dt@ == 0);
    assert(gravity.x.times(body.gravity_scale).times(dt)@ == 0);
    assert(gravity.y.times(body.gravity_scale).times(dt)@ == 0);
}

/// The gravity pass leaves every body with a zero gravity scale, and every
/// static body, as it was.
pub proof fn lemma_gravity_pass_spares(bodies: Seq<BodyView>, gravity: Vec2, dt: Fixed, k: int)
    requires
        0 <= k < bodies.len(),
        bodies[k].gravity_scale@ == 0 || bodies[k].body == PhysicsBody::Static,
    ensures
        after_gravity(bodies, gravity, dt)[k] == bodies[k],
{
    if bodies[k].gravity_scale@ == 0 {
        lemma_zero_scale_cancels_gravity(bodies[k], gravity, dt);
    }
}

/// For a coefficient below one, a quantity shrunk by it does not outgrow
/// itself.
proof fn lemma_shrunk(c: int, x: int)
    requires
        0 <= c < 1_000_000,
        0 <= x,
    ensures
        0 <= (c * x) / 1_000_000 <= x,
{
    assert(0 <= c * x <= 1_000_000 * x) by (nonlinear_arith)
        requires
            0 <= c < 1_000_000,
            0 <= x,
    ;
}

/// The product of two numbers of the same sign is not negative, and that of
/// two numbers of opposite sign is not positive.
proof fn lemma_product_sign(c: int, x: int)
    ensures
        (c >= 0 && x >= 0) || (c <= 0 && x <= 0) ==> c * x >= 0,
        (c >= 0 && x <= 0) || (c <= 0 && x >= 0) ==> c * x <= 0,
{
    assert((c >= 0 && x >= 0) || (c <= 0 && x <= 0) ==> c * x >= 0) by (nonlinear_arith);
    assert((c >= 0 && x <= 0) || (c <= 0 && x >= 0) ==> c * x <= 0) by (nonlinear_arith);
}

/// In one tick friction never turns a velocity component round: as long as
/// the friction coefficient times the tick length is below one, a positive
/// component does not become negative, a negative one does not become
/// positive, and zero stays zero. If that product is not negative either, the
/// component does not grow in magnitude.
pub proof fn lemma_friction_keeps_direction(velocity: Fixed, friction: Fixed, dt: Fixed)
    requires
        friction.times(dt)@ < SCALE,
    ensures
        ({
            let next = spec_damped_component(velocity, friction, dt);
            &&& velocity@ > 0 ==> next@ >= 0
            &&& velocity@ < 0 ==> next@ <= 0
            &&& velocity@ == 0 ==> next@ == 0
            &&& friction.times(dt)@ >= 0 && velocity@ >= 0 ==> next@ <= velocity@
            &&& friction.times(dt)@ >= 0 && velocity@ <= 0 ==> next@ >= velocity@
        }),
{
    let c = friction.times(dt)@;
    let w = Fixed::zero().minus(velocity)@;
    lemma_product_sign(c, w);
    if c >= 0 {
        if w >= 0 {
            lemma_shrunk(c, w);
        } else {
            lemma_shrunk(c, -w);
            assert(c * (-w) == -(c * w)) by (nonlinear_arith);
        }
    }
}

/// The friction pass never turns a body's velocity round on either axis, as
/// long as each friction coefficient times the tick length is below one.
pub proof fn lemma_friction_pass_keeps_direction(body: BodyView, dt: Fixed)
    requires
        body.friction.x.times(dt)@ < SCALE,
        body.friction.y.times(dt)@ < SCALE,
    ensures
        ({
            let next = with_friction(body, dt).velocity;
            &&& body.velocity.x@ > 0 ==> next.x@ >= 0
            &&& body.velocity.x@ < 0 ==> next.x@ <= 0
            &&& body.velocity.x@ == 0 ==> next.x@ == 0
            &&& body.velocity.y@ > 0 ==> next.y@ >= 0
            &&& body.velocity.y@ < 0 ==> next.y@ <= 0
            &&& body.velocity.y@ == 0 ==> next.y@ == 0
        }),
{
    lemma_friction_keeps_direction(body.velocity.x, body.friction.x, dt);
    lemma_friction_keeps_direction(body.velocity.y, body.friction.y, dt);
}

} // verus!
