//! Collision resolution over a whole table of bodies.
//!
//! Every unordered pair of bodies is tested once, in table order. For each
//! pair the first body is tested against the second and then the second
//! against the first, because what blocks one need not block the other.
use crate::fixed::Fixed;
use crate::physics::collision::{contact_between, Contact};
use crate::physics::component::{views, Body, BodyView, Velocity};
use vstd::prelude::*;

verus! {

/// The body with both collision-state lists emptied, where it has them.
pub open spec fn cleared_body(body: BodyView) -> BodyView {
    BodyView {
        colliding_directions: match body.colliding_directions {
            Some(_) => Some(Seq::empty()),
            None => None,
        },
        colliding_entities: match body.colliding_entities {
            Some(_) => Some(Seq::empty()),
            None => None,
        },
        ..body
    }
}

/// The table with every body's collision state emptied.
pub open spec fn cleared(bodies: Seq<BodyView>) -> Seq<BodyView> {
    Seq::new(bodies.len(), |k: int| cleared_body(bodies[k]))
}

/// A collision-state list with one more entry, if the list is kept at all.
pub open spec fn appended<T>(list: Option<Seq<T>>, entry: T) -> Option<Seq<T>> {
    match list {
        Some(entries) => Some(entries.push(entry)),
        None => None,
    }
}

/// The mover after `contact`, found by testing it against `other`, has been
/// written to it: it takes the resolved velocity and, if the boxes met, the
/// direction is appended to its directions and the other body to its
/// contacts.
pub open spec fn mover_after(mover: BodyView, other: BodyView, contact: Contact) -> BodyView {
    if contact.touched {
        BodyView {
            velocity: contact.velocity,
            colliding_directions: appended(mover.colliding_directions, contact.direction),
            colliding_entities: appended(mover.colliding_entities, other.entity),
            ..mover
        }
    } else {
        BodyView { velocity: contact.velocity, ..mover }
    }
}

/// The other body after `contact`, found by testing `mover` against it, has
/// been written: if the boxes met and the mover keeps contacts, the mover is
/// appended to the other body's contacts.
pub open spec fn other_after(mover: BodyView, other: BodyView, contact: Contact) -> BodyView {
    if contact.touched && mover.colliding_entities is Some {
        BodyView { colliding_entities: appended(other.colliding_entities, mover.entity), ..other }
    } else {
        other
    }
}

/// The table after the contact `contact`, found by testing the body at
/// `mover` against the body at `other`, has been written to it.
///
/// A body that does not keep one of the collision-state lists is skipped for
/// that list; if the mover keeps no contacts, none is recorded for the other
/// body either.
pub open spec fn with_contact(
    bodies: Seq<BodyView>,
    mover: int,
    other: int,
    contact: Contact,
) -> Seq<BodyView> {
    bodies.update(mover, mover_after(bodies[mover], bodies[other], contact)).update(
        other,
        other_after(bodies[mover], bodies[other], contact),
    )
}

/// The first body of a pair after the pair has been resolved: tested against
/// the second, then touched by the second's test against it.
pub open spec fn first_after_pair(first: BodyView, second: BodyView, dt: Fixed) -> BodyView {
    let forth = contact_between(first, second, dt);
    let back = contact_between(second, first, dt);
    other_after(
        other_after(first, second, forth),
        mover_after(first, second, forth),
        back,
    )
}

/// The second body of a pair after the pair has been resolved: touched by the
/// first's test against it, then tested against the first.
pub open spec fn second_after_pair(first: BodyView, second: BodyView, dt: Fixed) -> BodyView {
    let forth = contact_between(first, second, dt);
    let back = contact_between(second, first, dt);
    mover_after(
        other_after(first, second, forth),
        mover_after(first, second, forth),
        back,
    )
}

/// The table after the pair of bodies at `first` and `second` has been
/// resolved: `first` against `second`, then `second` against `first`.
pub open spec fn after_pair(bodies: Seq<BodyView>, first: int, second: int, dt: Fixed) -> Seq<
    BodyView,
> {
    bodies.update(first, first_after_pair(bodies[first], bodies[second], dt)).update(
        second,
        second_after_pair(bodies[first], bodies[second], dt),
    )
}

/// The table after the body at `first` has been paired with each later body
/// up to, but not including, the one at `upto`.
pub open spec fn after_row(bodies: Seq<BodyView>, first: int, upto: int, dt: Fixed) -> Seq<
    BodyView,
>
    decreases upto - first,
{
    if upto <= first + 1 {
        bodies
    } else {
        after_pair(after_row(bodies, first, upto - 1, dt), first, upto - 1, dt)
    }
}

/// The table after each of the first `rows` bodies has been paired with every
/// later body.
pub open spec fn after_rows(bodies: Seq<BodyView>, rows: int, dt: Fixed) -> Seq<BodyView>
    decreases rows,
{
    if rows <= 0 {
        bodies
    } else {
        after_row(after_rows(bodies, rows - 1, dt), rows - 1, bodies.len() as int, dt)
    }
}

/// The table after a whole collision pass: collision state emptied, then
/// every unordered pair resolved in table order.
pub open spec fn resolved(bodies: Seq<BodyView>, dt: Fixed) -> Seq<BodyView> {
    after_rows(cleared(bodies), bodies.len() as int, dt)
}

/// Empties the collision state of every body that keeps any.
pub fn clear_collision_state(bodies: &mut Vec<Body>)
    ensures
        views(final(bodies)@) == cleared(views(old(bodies)@)),
        final(bodies).len() == old(bodies).len(),
{
    let n = bodies.len();
    let mut k: usize = 0;
    while k < n
        invariant
            k <= n,
            bodies.len() == n,
            n == old(bodies).len(),
            forall|m: int| 0 <= m < k ==> bodies[m]@ == cleared_body(#[trigger] old(bodies)[m]@),
            forall|m: int| k <= m < n ==> bodies[m] == #[trigger] old(bodies)[m],
        decreases n - k,
    {
        match &mut bodies[k].colliding_directions {
            Some(directions) => {
                directions.0.clear();
            },
            None => {},
        }
        match &mut bodies[k].colliding_entities {
            Some(entities) => {
                entities.0.clear();
            },
            None => {},
        }
        proof {
            let now = bodies[k as int]@;
            let want = cleared_body(old(bodies)[k as int]@);
            assert(now.colliding_directions == want.colliding_directions);
            assert(now.colliding_entities == want.colliding_entities);
        }
        k += 1;
    }
    assert(views(bodies@) =~= cleared(views(old(bodies)@)));
}

/// Writes `contact`, found by testing the body at `mover` against the body at
/// `other`, to the table.
pub fn record_contact(bodies: &mut Vec<Body>, mover: usize, other: usize, contact: Contact)
    requires
        mover < old(bodies).len(),
        other < old(bodies).len(),
        mover != other,
    ensures
        views(final(bodies)@) == with_contact(
            views(old(bodies)@),
            mover as int,
            other as int,
            contact,
        ),
        final(bodies).len() == old(bodies).len(),
{
    let ghost start = views(bodies@);
    bodies[mover].velocity = Velocity(contact.velocity);
    if contact.touched {
        let mover_id = bodies[mover].entity;
        let other_id = bodies[other].entity;
        match &mut bodies[mover].colliding_directions {
            Some(directions) => {
                directions.0.push(contact.direction);
            },
            None => {},
        }
        let recorded = match &mut bodies[mover].colliding_entities {
            Some(entities) => {
                entities.0.push(other_id);
                true
            },
            None => false,
        };
        if recorded {
            match &mut bodies[other].colliding_entities {
                Some(entities) => {
                    entities.0.push(mover_id);
                },
                None => {},
            }
        }
    }
    assert(views(bodies@) =~= with_contact(start, mover as int, other as int, contact));
}

/// Resolves the pair of bodies at `first` and `second`: tests `first` against
/// `second` and records the outcome, then does the same the other way round.
pub fn resolve_pair(bodies: &mut Vec<Body>, first: usize, second: usize, dt: Fixed)
    requires
        first < old(bodies).len(),
        second < old(bodies).len(),
        first != second,
    ensures
        views(final(bodies)@) == after_pair(views(old(bodies)@), first as int, second as int, dt),
        final(bodies).len() == old(bodies).len(),
{
    let forth = Contact::between(&bodies[first], &bodies[second], dt);
    record_contact(bodies, first, second, forth);
    let back = Contact::between(&bodies[second], &bodies[first], dt);
    record_contact(bodies, second, first, back);
}

/// Runs one collision pass over the table.
///
/// All collision state is emptied first. Then every unordered pair of bodies
/// is resolved, in table order. Velocities are zeroed on blocked axes;
/// positions are not touched.
pub fn handle_collisions(bodies: &mut Vec<Body>, dt: Fixed)
    ensures
        views(final(bodies)@) == resolved(views(old(bodies)@), dt),
        final(bodies).len() == old(bodies).len(),
{
    clear_collision_state(bodies);
    let ghost start = views(bodies@);
    let n = bodies.len();
    let mut first: usize = 0;
    while first < n
        invariant
            first <= n,
            bodies.len() == n,
            start.len() == n,
            views(bodies@) == after_rows(start, first as int, dt),
        decreases n - first,
    {
        let ghost row_start = views(bodies@);
        let mut second: usize = first + 1;
        while second < n
            invariant
                first < second <= n,
                bodies.len() == n,
                views(bodies@) == after_row(row_start, first as int, second as int, dt),
            decreases n - second,
        {
            resolve_pair(bodies, first, second, dt);
            second += 1;
        }
        first += 1;
    }
}

} // verus!
