//! What holds of the contacts that a collision pass records.
use crate::fixed::Fixed;
use crate::physics::collision::{contact_between, hits_x, hits_y};
use crate::physics::component::{BodyView, Entity};
use crate::physics::induction::{gains, keeps, lemma_pass_induction};
use crate::physics::pass_theorems::{
    lemma_pair_frame, lemma_push_contains, same_bodies, same_body,
};
use crate::physics::resolver::{
    after_pair, cleared, cleared_body, first_after_pair, resolved, second_after_pair,
};
use crate::vector::Vec2;
use vstd::prelude::*;

verus! {

/// Whether no two bodies of the table share an identity.
pub open spec fn distinct_entities(bodies: Seq<BodyView>) -> bool {
    forall|a: int, b: int|
        0 <= a < b < bodies.len() ==> (#[trigger] bodies[a]).entity != (#[trigger] bodies[b]).entity
}

/// Whether a body records the body `other` among its contacts.
pub open spec fn records(body: BodyView, other: Entity) -> bool {
    body.colliding_entities is Some && body.colliding_entities->0.contains(other)
}

/// The body brought to rest where it is.
pub open spec fn at_rest(body: BodyView) -> BodyView {
    BodyView { velocity: Vec2::zero(), ..body }
}

/// Whether the mover cannot meet the other body in this tick: neither its box
/// where it is, nor its box advanced along either axis, meets the other box.
pub open spec fn out_of_reach(mover: BodyView, other: BodyView, dt: Fixed) -> bool {
    &&& !hits_x(mover, other, dt)
    &&& !hits_y(mover, other, dt)
    &&& !hits_x(at_rest(mover), other, dt)
    &&& !hits_y(at_rest(mover), other, dt)
}

/// Whether the body at `k` and every other body of the table are out of each
/// other's reach.
pub open spec fn isolated(bodies: Seq<BodyView>, k: int, dt: Fixed) -> bool {
    forall|j: int|
        0 <= j < bodies.len() && j != k ==> out_of_reach(bodies[k], #[trigger] bodies[j], dt)
            && out_of_reach(bodies[j], bodies[k], dt)
}

/// Whether any two bodies that both keep contacts record each other or
/// neither records the other.
pub open spec fn contacts_mutual(bodies: Seq<BodyView>) -> bool {
    forall|a: int, b: int|
        0 <= a < bodies.len() && 0 <= b < bodies.len() && a != b
            && bodies[a].colliding_entities is Some && bodies[b].colliding_entities is Some
            ==> (#[trigger] records(bodies[a], bodies[b].entity) <==> records(
            bodies[b],
            bodies[a].entity,
        ))
}

/// Which bodies the two bodies of a pair record after the pair has been
/// resolved: those they recorded before, and each other if either's test met
/// the other's box and the body whose test it was keeps contacts.
proof fn lemma_pair_bodies_contacts(first: BodyView, second: BodyView, sought: Entity, dt: Fixed)
    ensures
        records(first_after_pair(first, second, dt), sought) <==> records(first, sought) || (
        first.colliding_entities is Some && sought == second.entity && (contact_between(
            first,
            second,
            dt,
        ).touched || (contact_between(second, first, dt).touched
            && second.colliding_entities is Some))),
        records(second_after_pair(first, second, dt), sought) <==> records(second, sought) || (
        second.colliding_entities is Some && sought == first.entity && (contact_between(
            second,
            first,
            dt,
        ).touched || (contact_between(first, second, dt).touched
            && first.colliding_entities is Some))),
{
    let forth = contact_between(first, second, dt);
    let back = contact_between(second, first, dt);
    if first.colliding_entities is Some {
        let before = first.colliding_entities->0;
        lemma_push_contains(before, second.entity, sought);
        lemma_push_contains(before.push(second.entity), second.entity, sought);
    }
    if second.colliding_entities is Some {
        let before = second.colliding_entities->0;
        lemma_push_contains(before, first.entity, sought);
        lemma_push_contains(before.push(first.entity), first.entity, sought);
    }
}

/// Contact is mutual: after a collision pass over bodies with distinct
/// identities, of two bodies that both keep contacts either each records the
/// other or neither does.
pub proof fn lemma_contacts_are_mutual(bodies: Seq<BodyView>, dt: Fixed)
    requires
        distinct_entities(bodies),
    ensures
        contacts_mutual(resolved(bodies, dt)),
{
    let start = cleared(bodies);
    let kept = |s: Seq<BodyView>| same_bodies(start, s) && contacts_mutual(s);
    let gained = |s: Seq<BodyView>, a: int, b: int| true;
    assert(keeps(kept, start)) by {
        assert forall|a: int, b: int|
            0 <= a < start.len() && 0 <= b < start.len() implies !#[trigger] records(
            start[a],
            start[b].entity,
        ) by {
            if start[a].colliding_entities is Some {
                assert(start[a].colliding_entities->0.len() == 0);
            }
        }
    }
    assert forall|s: Seq<BodyView>, i: int, j: int|
        s.len() == start.len() && keeps(kept, s) && 0 <= i < j < s.len() implies keeps(
        kept,
        #[trigger] after_pair(s, i, j, dt),
    ) && gains(gained, after_pair(s, i, j, dt), i, j) by {
        lemma_pair_frame(s, i, j, dt);
        let after = after_pair(s, i, j, dt);
        assert forall|a: int, b: int|
            0 <= a < after.len() && 0 <= b < after.len() && a != b
                && after[a].colliding_entities is Some
                && after[b].colliding_entities is Some implies (#[trigger] records(
            after[a],
            after[b].entity,
        ) <==> records(after[b], after[a].entity)) by {
            assert(records(s[a], s[b].entity) <==> records(s[b], s[a].entity));
            assert(bodies[a].entity != bodies[b].entity) by {
                if a < b {
                    assert(bodies[a].entity != bodies[b].entity);
                } else {
                    assert(bodies[b].entity != bodies[a].entity);
                }
            }
            assert(bodies[i].entity != bodies[j].entity);
            lemma_pair_bodies_contacts(s[i], s[j], s[a].entity, dt);
            lemma_pair_bodies_contacts(s[i], s[j], s[b].entity, dt);
            if a != i && a != j {
                assert(bodies[a].entity != bodies[i].entity) by {
                    if a < i {
                        assert(bodies[a].entity != bodies[i].entity);
                    } else {
                        assert(bodies[i].entity != bodies[a].entity);
                    }
                }
                assert(bodies[a].entity != bodies[j].entity) by {
                    if a < j {
                        assert(bodies[a].entity != bodies[j].entity);
                    } else {
                        assert(bodies[j].entity != bodies[a].entity);
                    }
                }
            }
            if b != i && b != j {
                assert(bodies[b].entity != bodies[i].entity) by {
                    if b < i {
                        assert(bodies[b].entity != bodies[i].entity);
                    } else {
                        assert(bodies[i].entity != bodies[b].entity);
                    }
                }
                assert(bodies[b].entity != bodies[j].entity) by {
                    if b < j {
                        assert(bodies[b].entity != bodies[j].entity);
                    } else {
                        assert(bodies[j].entity != bodies[b].entity);
                    }
                }
            }
        }
    }
    lemma_pass_induction(start, start.len() as int, dt, kept, gained);
}

/// A body that is out of reach of every other body, and they of it, comes out
/// of a collision pass as it went in, but for its collision state, which is
/// empty.
pub proof fn lemma_isolated_body_is_untouched(bodies: Seq<BodyView>, k: int, dt: Fixed)
    requires
        0 <= k < bodies.len(),
        isolated(bodies, k, dt),
    ensures
        resolved(bodies, dt)[k] == cleared_body(bodies[k]),
{
    let start = cleared(bodies);
    let kept = |s: Seq<BodyView>| same_bodies(start, s) && s[k] == start[k];
    let gained = |s: Seq<BodyView>, a: int, b: int| true;
    assert forall|s: Seq<BodyView>, i: int, j: int|
        s.len() == start.len() && keeps(kept, s) && 0 <= i < j < s.len() implies keeps(
        kept,
        #[trigger] after_pair(s, i, j, dt),
    ) && gains(gained, after_pair(s, i, j, dt), i, j) by {
        lemma_pair_frame(s, i, j, dt);
        if k == i {
            assert(out_of_reach(bodies[k], bodies[j], dt) && out_of_reach(bodies[j], bodies[k], dt));
            lemma_unreachable_pair(start[k], start[j], s[k], s[j], dt);
        } else if k == j {
            assert(out_of_reach(bodies[k], bodies[i], dt) && out_of_reach(bodies[i], bodies[k], dt));
            lemma_unreachable_pair(start[i], start[k], s[i], s[k], dt);
        }
    }
    lemma_pass_induction(start, start.len() as int, dt, kept, gained);
}

/// Two bodies that were out of each other's reach at the start of a pass do
/// not touch when their pair is resolved, whatever the pass has made of them
/// by then.
proof fn lemma_unreachable_pair(
    first_start: BodyView,
    second_start: BodyView,
    first: BodyView,
    second: BodyView,
    dt: Fixed,
)
    requires
        same_body(first_start, first),
        same_body(second_start, second),
        out_of_reach(first_start, second_start, dt),
        out_of_reach(second_start, first_start, dt),
    ensures
        !contact_between(first, second, dt).touched,
        !contact_between(second, first, dt).touched,
        first_after_pair(first, second, dt) == first,
        second_after_pair(first, second, dt) == second,
{
}

} // verus!
