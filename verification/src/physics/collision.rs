//! Contact between two boxes: detection on each axis and its effect on the
//! moving body.
use crate::fixed::Fixed;
use crate::physics::component::{labels, Body, BodyView, Velocity};
use crate::vector::Vec2;
use vstd::prelude::*;

verus! {

/// What one body found when it was tested against another.
#[derive(Clone, Copy, Debug, PartialEq, Eq, Structural)]
pub struct Contact {
    /// Whether the boxes met on either axis test.
    pub touched: bool,
    /// The sign of the mover's velocity on each axis whose test met the other
    /// box, zero on an axis whose test did not.
    pub direction: Vec2,
    /// The mover's velocity after the contact.
    pub velocity: Vec2,
}

/// Whether every required label is among the present ones.
pub open spec fn tags_satisfied(required: Seq<Seq<char>>, present: Seq<Seq<char>>) -> bool {
    forall|k: int| 0 <= k < required.len() ==> present.contains(#[trigger] required[k])
}

/// Whether two boxes, each given by its centre and half extents, touch or
/// overlap: on neither axis are the centres further apart than the half
/// extents add up to.
pub open spec fn spec_boxes_meet(a_center: Vec2, a_half: Vec2, b_center: Vec2, b_half: Vec2) -> bool {
    &&& a_center.x.minus(b_center.x).magnitude()@ <= a_half.x.plus(b_half.x)@
    &&& a_center.y.minus(b_center.y).magnitude()@ <= a_half.y.plus(b_half.y)@
}

/// Where a coordinate will be after `dt` at the given velocity.
pub open spec fn spec_predicted(position: Fixed, velocity: Fixed, dt: Fixed) -> Fixed {
    position.plus(velocity.times(dt))
}

/// Whether the mover, advanced along the horizontal axis only, meets the
/// other body's box.
pub open spec fn hits_x(mover: BodyView, other: BodyView, dt: Fixed) -> bool {
    spec_boxes_meet(
        Vec2 { x: spec_predicted(mover.position.x, mover.velocity.x, dt), y: mover.position.y },
        mover.collider.half_extents,
        other.position,
        other.collider.half_extents,
    )
}

/// Whether the mover, advanced along the vertical axis only, meets the other
/// body's box.
pub open spec fn hits_y(mover: BodyView, other: BodyView, dt: Fixed) -> bool {
    spec_boxes_meet(
        Vec2 { x: mover.position.x, y: spec_predicted(mover.position.y, mover.velocity.y, dt) },
        mover.collider.half_extents,
        other.position,
        other.collider.half_extents,
    )
}

/// Whether the other body stops the mover: each of the mover's colliding tags
/// is one of the other's tags.
pub open spec fn blocked_by(mover: BodyView, other: BodyView) -> bool {
    tags_satisfied(mover.collider.colliding_tags, other.collider.tags)
}

/// The outcome of testing the mover against the other body.
///
/// The two axes are tested independently, each from the mover's current
/// position and velocity, so a mover that is stopped on one axis can still
/// slide along the other.
pub open spec fn contact_between(mover: BodyView, other: BodyView, dt: Fixed) -> Contact {
    let hit_x = hits_x(mover, other, dt);
    let hit_y = hits_y(mover, other, dt);
    let blocked = blocked_by(mover, other);
    Contact {
        touched: hit_x || hit_y,
        direction: Vec2 {
            x: if hit_x { mover.velocity.x.signum() } else { Fixed::zero() },
            y: if hit_y { mover.velocity.y.signum() } else { Fixed::zero() },
        },
        velocity: Vec2 {
            x: if hit_x && blocked { Fixed::zero() } else { mover.velocity.x },
            y: if hit_y && blocked { Fixed::zero() } else { mover.velocity.y },
        },
    }
}

/// Whether `tag` is one of `tags`.
pub fn has_tag(tags: &Vec<String>, tag: &String) -> (found: bool)
    ensures
        found == labels(tags@).contains(tag@),
{
    let mut k: usize = 0;
    while k < tags.len()
        invariant
            k <= tags.len(),
            forall|m: int| 0 <= m < k ==> labels(tags@)[m] != tag@,
        decreases tags.len() - k,
    {
        if tags[k] == *tag {
            assert(labels(tags@)[k as int] == tag@);
            return true;
        }
        k += 1;
    }
    false
}

/// Whether every one of `required` is among `present`.
pub fn all_tags_present(required: &Vec<String>, present: &Vec<String>) -> (ok: bool)
    ensures
        ok == tags_satisfied(labels(required@), labels(present@)),
{
    let mut k: usize = 0;
    while k < required.len()
        invariant
            k <= required.len(),
            forall|m: int|
                0 <= m < k ==> labels(present@).contains(#[trigger] labels(required@)[m]),
        decreases required.len() - k,
    {
        if !has_tag(present, &required[k]) {
            assert(!labels(present@).contains(labels(required@)[k as int]));
            return false;
        }
        k += 1;
    }
    true
}

/// Whether two boxes, each given by its centre and half extents, touch or
/// overlap.
#[verifier::when_used_as_spec(spec_boxes_meet)]
pub fn boxes_meet(a_center: Vec2, a_half: Vec2, b_center: Vec2, b_half: Vec2) -> (meet: bool)
    ensures
        meet == spec_boxes_meet(a_center, a_half, b_center, b_half),
{
    !a_center.x.minus(b_center.x).magnitude().exceeds(a_half.x.plus(b_half.x))
        && !a_center.y.minus(b_center.y).magnitude().exceeds(a_half.y.plus(b_half.y))
}

/// Where a coordinate will be after `dt` at the given velocity.
#[verifier::when_used_as_spec(spec_predicted)]
pub fn predicted(position: Fixed, velocity: Fixed, dt: Fixed) -> (next: Fixed)
    ensures
        next == spec_predicted(position, velocity, dt),
{
    position.plus(velocity.times(dt))
}

impl Contact {
    /// Tests `mover` against `other` for a tick of length `dt`.
    pub fn between(mover: &Body, other: &Body, dt: Fixed) -> (c: Contact)
        ensures
            c == contact_between(mover@, other@, dt),
    {
        let Velocity(velocity) = mover.velocity;
        let next_x = predicted(mover.position.x, velocity.x, dt);
        let next_y = predicted(mover.position.y, velocity.y, dt);
        let hit_x = boxes_meet(
            Vec2 { x: next_x, y: mover.position.y },
            mover.collider.half_extents,
            other.position,
            other.collider.half_extents,
        );
        let hit_y = boxes_meet(
            Vec2 { x: mover.position.x, y: next_y },
            mover.collider.half_extents,
            other.position,
            other.collider.half_extents,
        );
        let mut direction = Vec2::zero();
        let mut resolved = velocity;
        if hit_x || hit_y {
            let blocked = all_tags_present(&mover.collider.colliding_tags, &other.collider.tags);
            if hit_x {
                direction.x = velocity.x.signum();
                if blocked {
                    resolved.x = Fixed::zero();
                }
            }
            if hit_y {
                direction.y = velocity.y.signum();
                if blocked {
                    resolved.y = Fixed::zero();
                }
            }
        }
        Contact { touched: hit_x || hit_y, direction, velocity: resolved }
    }
}

} // verus!
