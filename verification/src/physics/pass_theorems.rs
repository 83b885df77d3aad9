//! What holds of the velocities after a whole collision pass.
use crate::fixed::Fixed;
use crate::physics::collision::{blocked_by, contact_between, hits_x, hits_y};
use crate::physics::component::BodyView;
use crate::physics::induction::{gains, keeps, lemma_pass_induction};
use crate::physics::resolver::{after_pair, cleared, resolved};
use crate::vector::Vec2;
use vstd::prelude::*;

verus! {

/// Whether `now` is what a collision pass can have made of `start`: the same
/// body in the same place, with the same attributes and the same collision
/// lists kept, and on each axis either its old velocity or none.
pub open spec fn same_body(start: BodyView, now: BodyView) -> bool {
    &&& now.entity == start.entity
    &&& now.position == start.position
    &&& now.body == start.body
    &&& now.friction == start.friction
    &&& now.gravity_scale == start.gravity_scale
    &&& now.collider == start.collider
    &&& (now.colliding_directions is Some) == (start.colliding_directions is Some)
    &&& (now.colliding_entities is Some) == (start.colliding_entities is Some)
    &&& now.velocity.x == start.velocity.x || now.velocity.x@ == 0
    &&& now.velocity.y == start.velocity.y || now.velocity.y@ == 0
}

/// Whether each body of `now` is what a collision pass can have made of the
/// body at the same place in `start`.
pub open spec fn same_bodies(start: Seq<BodyView>, now: Seq<BodyView>) -> bool {
    &&& now.len() == start.len()
    &&& forall|k: int| 0 <= k < start.len() ==> same_body(start[k], #[trigger] now[k])
}

/// Pushing an element makes a sequence contain it and keeps what it
/// contained.
pub proof fn lemma_push_contains<T>(s: Seq<T>, pushed: T, sought: T)
    ensures
        s.push(pushed).contains(sought) <==> s.contains(sought) || pushed == sought,
{
    if s.contains(sought) {
        let m = choose|m: int| 0 <= m < s.len() && s[m] == sought;
        assert(s.push(pushed)[m] == sought);
    }
    if pushed == sought {
        assert(s.push(pushed)[s.len() as int] == sought);
    }
}

/// Resolving a pair leaves every body what a collision pass can have made of
/// it, and leaves the bodies outside the pair alone.
pub proof fn lemma_pair_frame(bodies: Seq<BodyView>, first: int, second: int, dt: Fixed)
    requires
        0 <= first < bodies.len(),
        0 <= second < bodies.len(),
        first != second,
    ensures
        same_bodies(bodies, after_pair(bodies, first, second, dt)),
        forall|k: int|
            0 <= k < bodies.len() && k != first && k != second ==> after_pair(
                bodies,
                first,
                second,
                dt,
            )[k] == bodies[k],
        after_pair(bodies, first, second, dt)[first].velocity == contact_between(
            bodies[first],
            bodies[second],
            dt,
        ).velocity,
        after_pair(bodies, first, second, dt)[second].velocity == contact_between(
            bodies[second],
            bodies[first],
            dt,
        ).velocity,
{
}

/// Resolving a pair in which the first body is blocked by the second, but
/// not the second by the first, stops the first body on the axes whose test
/// met the second body's box and leaves the second body's velocity alone.
/// The same holds with the two bodies exchanged.
pub proof fn lemma_pair_blocking_is_directional(
    bodies: Seq<BodyView>,
    first: int,
    second: int,
    dt: Fixed,
)
    requires
        0 <= first < bodies.len(),
        0 <= second < bodies.len(),
        first != second,
    ensures
        ({
            let after = after_pair(bodies, first, second, dt);
            &&& !blocked_by(bodies[first], bodies[second]) ==> after[first].velocity
                == bodies[first].velocity
            &&& !blocked_by(bodies[second], bodies[first]) ==> after[second].velocity
                == bodies[second].velocity
            &&& blocked_by(bodies[first], bodies[second]) ==> after[first].velocity == (Vec2 {
                x: if hits_x(bodies[first], bodies[second], dt) {
                    Fixed::zero()
                } else {
                    bodies[first].velocity.x
                },
                y: if hits_y(bodies[first], bodies[second], dt) {
                    Fixed::zero()
                } else {
                    bodies[first].velocity.y
                },
            })
            &&& blocked_by(bodies[second], bodies[first]) ==> after[second].velocity == (Vec2 {
                x: if hits_x(bodies[second], bodies[first], dt) {
                    Fixed::zero()
                } else {
                    bodies[second].velocity.x
                },
                y: if hits_y(bodies[second], bodies[first], dt) {
                    Fixed::zero()
                } else {
                    bodies[second].velocity.y
                },
            })
        }),
{
    lemma_pair_frame(bodies, first, second, dt);
}

/// A collision pass changes nothing but velocities and collision state: each
/// body stays the same body in the same place with the same attributes, and
/// on each axis its velocity is either what it was or zero.
pub proof fn lemma_pass_frame(bodies: Seq<BodyView>, dt: Fixed)
    ensures
        same_bodies(bodies, resolved(bodies, dt)),
{
    let start = cleared(bodies);
    let kept = |s: Seq<BodyView>| same_bodies(start, s);
    let gained = |s: Seq<BodyView>, a: int, b: int| true;
    assert forall|s: Seq<BodyView>, i: int, j: int|
        s.len() == start.len() && keeps(kept, s) && 0 <= i < j < s.len() implies keeps(
        kept,
        #[trigger] after_pair(s, i, j, dt),
    ) && gains(gained, after_pair(s, i, j, dt), i, j) by {
        lemma_pair_frame(s, i, j, dt);
    }
    lemma_pass_induction(start, start.len() as int, dt, kept, gained);
}

/// Whether no other body of the table blocks the body at `k`.
pub open spec fn unblocked(bodies: Seq<BodyView>, k: int) -> bool {
    forall|j: int|
        0 <= j < bodies.len() && j != k ==> !blocked_by(bodies[k], #[trigger] bodies[j])
}

/// Whether the box of the body at `k`, advanced horizontally, meets no other
/// box of the table.
pub open spec fn clear_ahead(bodies: Seq<BodyView>, k: int, dt: Fixed) -> bool {
    forall|j: int|
        0 <= j < bodies.len() && j != k ==> !hits_x(bodies[k], #[trigger] bodies[j], dt)
}

/// Whether the box of the body at `k`, advanced vertically, meets no other
/// box of the table.
pub open spec fn clear_above_and_below(bodies: Seq<BodyView>, k: int, dt: Fixed) -> bool {
    forall|j: int|
        0 <= j < bodies.len() && j != k ==> !hits_y(bodies[k], #[trigger] bodies[j], dt)
}

/// A collision pass leaves the velocity of a body that no other body blocks
/// as it was, whatever the body runs into and whatever runs into it.
pub proof fn lemma_unblocked_body_keeps_velocity(bodies: Seq<BodyView>, k: int, dt: Fixed)
    requires
        0 <= k < bodies.len(),
        unblocked(bodies, k),
    ensures
        resolved(bodies, dt)[k].velocity == bodies[k].velocity,
{
    let start = cleared(bodies);
    let kept = |s: Seq<BodyView>| same_bodies(start, s) && s[k].velocity == start[k].velocity;
    let gained = |s: Seq<BodyView>, a: int, b: int| true;
    assert forall|s: Seq<BodyView>, i: int, j: int|
        s.len() == start.len() && keeps(kept, s) && 0 <= i < j < s.len() implies keeps(
        kept,
        #[trigger] after_pair(s, i, j, dt),
    ) && gains(gained, after_pair(s, i, j, dt), i, j) by {
        lemma_pair_frame(s, i, j, dt);
        if k == i {
            assert(!blocked_by(bodies[k], bodies[j]));
        } else if k == j {
            assert(!blocked_by(bodies[k], bodies[i]));
        }
    }
    lemma_pass_induction(start, start.len() as int, dt, kept, gained);
}

/// A collision pass leaves the velocity of a body untouched on an axis along
/// which the body, advanced by its velocity, meets no other body: the
/// horizontal velocity if nothing is met ahead, the vertical velocity if
/// nothing is met above or below.
pub proof fn lemma_axis_without_contact_is_untouched(bodies: Seq<BodyView>, k: int, dt: Fixed)
    requires
        0 <= k < bodies.len(),
    ensures
        clear_ahead(bodies, k, dt) ==> resolved(bodies, dt)[k].velocity.x == bodies[k].velocity.x,
        clear_above_and_below(bodies, k, dt) ==> resolved(bodies, dt)[k].velocity.y
            == bodies[k].velocity.y,
{
    let start = cleared(bodies);
    let gained = |s: Seq<BodyView>, a: int, b: int| true;
    if clear_ahead(bodies, k, dt) {
        let kept = |s: Seq<BodyView>|
            same_bodies(start, s) && s[k].velocity.x == start[k].velocity.x;
        assert forall|s: Seq<BodyView>, i: int, j: int|
            s.len() == start.len() && keeps(kept, s) && 0 <= i < j < s.len() implies keeps(
            kept,
            #[trigger] after_pair(s, i, j, dt),
        ) && gains(gained, after_pair(s, i, j, dt), i, j) by {
            lemma_pair_frame(s, i, j, dt);
            if k == i {
                assert(!hits_x(bodies[k], bodies[j], dt));
            } else if k == j {
                assert(!hits_x(bodies[k], bodies[i], dt));
            }
        }
        lemma_pass_induction(start, start.len() as int, dt, kept, gained);
    }
    if clear_above_and_below(bodies, k, dt) {
        let kept = |s: Seq<BodyView>|
            same_bodies(start, s) && s[k].velocity.y == start[k].velocity.y;
        assert forall|s: Seq<BodyView>, i: int, j: int|
            s.len() == start.len() && keeps(kept, s) && 0 <= i < j < s.len() implies keeps(
            kept,
            #[trigger] after_pair(s, i, j, dt),
        ) && gains(gained, after_pair(s, i, j, dt), i, j) by {
            lemma_pair_frame(s, i, j, dt);
            if k == i {
                assert(!hits_y(bodies[k], bodies[j], dt));
            } else if k == j {
                assert(!hits_y(bodies[k], bodies[i], dt));
            }
        }
        lemma_pass_induction(start, start.len() as int, dt, kept, gained);
    }
}

/// Whether the body at `k` has no horizontal velocity if its box, advanced
/// horizontally in `start`, met the box of the body at `j`, and no vertical
/// velocity if its box, advanced vertically, met it.
pub open spec fn stopped_by(
    start: Seq<BodyView>,
    now: Seq<BodyView>,
    k: int,
    j: int,
    dt: Fixed,
) -> bool {
    &&& hits_x(start[k], start[j], dt) ==> now[k].velocity.x@ == 0
    &&& hits_y(start[k], start[j], dt) ==> now[k].velocity.y@ == 0
}

/// After a collision pass a body has no velocity left on an axis along which
/// it, advanced by its velocity, met a body that blocks it. This holds
/// whatever else the two bodies met, and in whatever order.
pub proof fn lemma_blocked_axis_is_stopped(bodies: Seq<BodyView>, k: int, j: int, dt: Fixed)
    requires
        0 <= k < bodies.len(),
        0 <= j < bodies.len(),
        k != j,
        blocked_by(bodies[k], bodies[j]),
    ensures
        hits_x(bodies[k], bodies[j], dt) ==> resolved(bodies, dt)[k].velocity.x@ == 0,
        hits_y(bodies[k], bodies[j], dt) ==> resolved(bodies, dt)[k].velocity.y@ == 0,
{
    let start = cleared(bodies);
    let kept = |s: Seq<BodyView>| same_bodies(start, s);
    let gained = |s: Seq<BodyView>, a: int, b: int|
        (a == k && b == j) || (a == j && b == k) ==> stopped_by(start, s, k, j, dt);
    assert forall|s: Seq<BodyView>, a: int, b: int|
        s.len() == start.len() && keeps(kept, s) && 0 <= a < b < s.len() implies keeps(
        kept,
        #[trigger] after_pair(s, a, b, dt),
    ) && gains(gained, after_pair(s, a, b, dt), a, b) by {
        lemma_pair_frame(s, a, b, dt);
    }
    assert forall|s: Seq<BodyView>, i: int, m: int, a: int, b: int|
        s.len() == start.len() && keeps(kept, s) && 0 <= i < m < s.len() && 0 <= a < b
            < s.len() && #[trigger] gains(gained, s, a, b) implies gains(
        gained,
        #[trigger] after_pair(s, i, m, dt),
        a,
        b,
    ) by {
        lemma_pair_frame(s, i, m, dt);
    }
    lemma_pass_induction(start, start.len() as int, dt, kept, gained);
    let end = resolved(bodies, dt);
    if k < j {
        assert(gains(gained, end, k, j));
    } else {
        assert(gains(gained, end, j, k));
    }
}

} // verus!
