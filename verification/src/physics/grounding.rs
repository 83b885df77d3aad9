//! When a collision pass finds a body standing on something.
use crate::fixed::Fixed;
use crate::physics::collision::{contact_between, hits_x, hits_y};
use crate::physics::component::BodyView;
use crate::physics::induction::{gains, keeps, lemma_pass_induction};
use crate::physics::pass_theorems::{
    clear_ahead, lemma_pair_frame, lemma_push_contains, same_bodies,
};
use crate::physics::resolver::{
    after_pair, cleared, first_after_pair, resolved, second_after_pair,
};
use crate::physics::theorems::lemma_contact_points_down;
use crate::player::controller::{spec_down, spec_on_floor};
use vstd::prelude::*;

verus! {

/// Whether the body at `k` is falling and its box, advanced vertically, meets
/// the box of the body at `j`.
pub open spec fn lands_on(bodies: Seq<BodyView>, k: int, j: int, dt: Fixed) -> bool {
    &&& 0 <= k < bodies.len()
    &&& 0 <= j < bodies.len()
    &&& j != k
    &&& bodies[k].velocity.y@ < 0
    &&& hits_y(bodies[k], bodies[j], dt)
}

/// Whether the body at `k` is falling and its box, advanced vertically, meets
/// the box of some other body.
pub open spec fn lands(bodies: Seq<BodyView>, k: int, dt: Fixed) -> bool {
    exists|j: int| lands_on(bodies, k, j, dt)
}

/// Whether the recorded directions of a body include the straight-down one.
pub open spec fn grounded(body: BodyView) -> bool {
    body.colliding_directions is Some && spec_on_floor(body.colliding_directions->0)
}

/// Whether a contact of the mover with the other body records no horizontal
/// direction: the mover is not moving horizontally, or its box, advanced
/// horizontally, does not meet the other box.
pub open spec fn straight(mover: BodyView, other: BodyView, dt: Fixed) -> bool {
    mover.velocity.x@ == 0 || !hits_x(mover, other, dt)
}

/// Whether every straight-down direction recorded in `now` is accounted for
/// by a landing in `start`.
pub open spec fn downs_are_landings(start: Seq<BodyView>, now: Seq<BodyView>, dt: Fixed) -> bool {
    forall|k: int| 0 <= k < start.len() && grounded(#[trigger] now[k]) ==> lands(start, k, dt)
}

/// A body of a pair is grounded after the pair has been resolved exactly when
/// it was grounded before or keeps its directions and its own test recorded
/// the straight-down direction.
proof fn lemma_pair_bodies_grounding(first: BodyView, second: BodyView, dt: Fixed)
    ensures
        grounded(first_after_pair(first, second, dt)) <==> grounded(first) || (
        first.colliding_directions is Some && contact_between(first, second, dt).touched
            && contact_between(first, second, dt).direction == spec_down()),
        grounded(second_after_pair(first, second, dt)) <==> grounded(second) || (
        second.colliding_directions is Some && contact_between(second, first, dt).touched
            && contact_between(second, first, dt).direction == spec_down()),
{
    let forth = contact_between(first, second, dt);
    let back = contact_between(second, first, dt);
    if first.colliding_directions is Some {
        lemma_push_contains(first.colliding_directions->0, forth.direction, spec_down());
    }
    if second.colliding_directions is Some {
        lemma_push_contains(second.colliding_directions->0, back.direction, spec_down());
    }
}

/// What resolving a pair does to the grounding of its bodies: a body that was
/// grounded stays so; a body becomes grounded only by landing on the other;
/// and a body that lands on the other, with no horizontal direction recorded,
/// becomes grounded if it keeps its directions. Bodies outside the pair are
/// as grounded as before.
pub proof fn lemma_pair_grounding(bodies: Seq<BodyView>, first: int, second: int, dt: Fixed)
    requires
        0 <= first < bodies.len(),
        0 <= second < bodies.len(),
        first != second,
    ensures
        ({
            let after = after_pair(bodies, first, second, dt);
            &&& forall|k: int|
                0 <= k < bodies.len() && grounded(#[trigger] bodies[k]) ==> grounded(after[k])
            &&& forall|k: int|
                0 <= k < bodies.len() && k != first && k != second ==> grounded(#[trigger] after[k])
                    == grounded(bodies[k])
            &&& grounded(after[first]) && !grounded(bodies[first]) ==> lands_on(
                bodies,
                first,
                second,
                dt,
            )
            &&& grounded(after[second]) && !grounded(bodies[second]) ==> lands_on(
                bodies,
                second,
                first,
                dt,
            )
            &&& bodies[first].colliding_directions is Some && straight(
                bodies[first],
                bodies[second],
                dt,
            ) && lands_on(bodies, first, second, dt) ==> grounded(after[first])
            &&& bodies[second].colliding_directions is Some && straight(
                bodies[second],
                bodies[first],
                dt,
            ) && lands_on(bodies, second, first, dt) ==> grounded(after[second])
        }),
{
    lemma_pair_bodies_grounding(bodies[first], bodies[second], dt);
    lemma_contact_points_down(bodies[first], bodies[second], dt);
    lemma_contact_points_down(bodies[second], bodies[first], dt);
}

/// A straight-down direction is recorded for a body only if the body was
/// falling when the pass began and its box, advanced vertically, met the box
/// of another body.
pub proof fn lemma_grounded_only_by_landing(bodies: Seq<BodyView>, k: int, dt: Fixed)
    requires
        0 <= k < bodies.len(),
        grounded(resolved(bodies, dt)[k]),
    ensures
        lands(bodies, k, dt),
{
    let start = cleared(bodies);
    let kept = |s: Seq<BodyView>| same_bodies(start, s) && downs_are_landings(start, s, dt);
    let gained = |s: Seq<BodyView>, a: int, b: int| true;
    assert(keeps(kept, start)) by {
        assert forall|m: int| 0 <= m < start.len() implies !grounded(#[trigger] start[m]) by {
            if start[m].colliding_directions is Some {
                assert(start[m].colliding_directions->0.len() == 0);
            }
        }
    }
    assert forall|s: Seq<BodyView>, i: int, j: int|
        s.len() == start.len() && keeps(kept, s) && 0 <= i < j < s.len() implies keeps(
        kept,
        #[trigger] after_pair(s, i, j, dt),
    ) && gains(gained, after_pair(s, i, j, dt), i, j) by {
        lemma_pair_frame(s, i, j, dt);
        let after = after_pair(s, i, j, dt);
        assert forall|m: int| 0 <= m < start.len() && grounded(#[trigger] after[m]) implies lands(
            start,
            m,
            dt,
        ) by {
            lemma_pair_grounding(s, i, j, dt);
            if grounded(s[m]) {
            } else if m == i {
                assert(lands_on(s, i, j, dt));
                assert(lands_on(start, i, j, dt));
            } else {
                assert(m == j);
                assert(lands_on(s, j, i, dt));
                assert(lands_on(start, j, i, dt));
            }
        }
    }
    lemma_pass_induction(start, start.len() as int, dt, kept, gained);
    let j = choose|j: int| lands_on(start, k, j, dt);
    assert(lands_on(bodies, k, j, dt));
}

/// Whether the pass has done nothing yet to the body at `k` that could keep
/// a landing from being recorded: where nothing is met ahead, the body still
/// has its horizontal velocity; and if it has lost its fall, the
/// straight-down direction is recorded.
pub open spec fn landing_still_shows(
    start: Seq<BodyView>,
    now: Seq<BodyView>,
    k: int,
    dt: Fixed,
) -> bool {
    &&& clear_ahead(start, k, dt) ==> now[k].velocity.x == start[k].velocity.x
    &&& start[k].velocity.y@ < 0 && now[k].velocity.y != start[k].velocity.y ==> grounded(now[k])
}

/// Whether the body at `k` is grounded in `now` in case the pair at `a` and
/// `b` is the pair of `k` and a body that `k` landed on in `start`.
pub open spec fn landing_recorded(
    start: Seq<BodyView>,
    now: Seq<BodyView>,
    k: int,
    a: int,
    b: int,
    dt: Fixed,
) -> bool {
    (a == k && lands_on(start, k, b, dt)) || (b == k && lands_on(start, k, a, dt)) ==> grounded(
        now[k],
    )
}

/// What resolving a pair does to a body that keeps its directions and that
/// either does not move horizontally or meets nothing ahead: a landing that
/// still showed before the pair still shows after it, and if the pair is that
/// of the body and a body it landed on, the body is grounded.
proof fn lemma_pair_landing(
    start: Seq<BodyView>,
    s: Seq<BodyView>,
    k: int,
    i: int,
    j: int,
    dt: Fixed,
)
    requires
        0 <= k < start.len(),
        0 <= i < j < start.len(),
        start[k].colliding_directions is Some,
        start[k].velocity.x@ == 0 || clear_ahead(start, k, dt),
        same_bodies(start, s),
        landing_still_shows(start, s, k, dt),
    ensures
        same_bodies(start, after_pair(s, i, j, dt)),
        landing_still_shows(start, after_pair(s, i, j, dt), k, dt),
        landing_recorded(start, after_pair(s, i, j, dt), k, i, j, dt),
        grounded(s[k]) ==> grounded(after_pair(s, i, j, dt)[k]),
{
    lemma_pair_frame(s, i, j, dt);
    lemma_pair_grounding(s, i, j, dt);
    if k == i || k == j {
        let other = if k == i { j } else { i };
        if clear_ahead(start, k, dt) {
            assert(!hits_x(start[k], start[other], dt));
        }
        if s[k].velocity.y == start[k].velocity.y {
            assert(straight(s[k], s[other], dt));
            assert(lands_on(start, k, other, dt) ==> lands_on(s, k, other, dt));
            lemma_contact_points_down(s[k], s[other], dt);
        }
    }
}

/// A body that keeps its collision directions, and that either is not moving
/// horizontally or meets nothing ahead, has the straight-down direction
/// recorded by a collision pass exactly when it was falling and its box,
/// advanced vertically, met the box of another body.
pub proof fn lemma_grounded_iff_landing(bodies: Seq<BodyView>, k: int, dt: Fixed)
    requires
        0 <= k < bodies.len(),
        bodies[k].colliding_directions is Some,
        bodies[k].velocity.x@ == 0 || clear_ahead(bodies, k, dt),
    ensures
        grounded(resolved(bodies, dt)[k]) <==> lands(bodies, k, dt),
{
    if grounded(resolved(bodies, dt)[k]) {
        lemma_grounded_only_by_landing(bodies, k, dt);
    }
    if lands(bodies, k, dt) {
        let other = choose|j: int| lands_on(bodies, k, j, dt);
        let start = cleared(bodies);
        assert(lands_on(start, k, other, dt));
        assert(clear_ahead(bodies, k, dt) ==> clear_ahead(start, k, dt)) by {
            if clear_ahead(bodies, k, dt) {
                assert forall|j: int| 0 <= j < start.len() && j != k implies !hits_x(
                    start[k],
                    #[trigger] start[j],
                    dt,
                ) by {
                    assert(!hits_x(bodies[k], bodies[j], dt));
                }
            }
        }
        let kept = |s: Seq<BodyView>|
            same_bodies(start, s) && landing_still_shows(start, s, k, dt);
        let gained = |s: Seq<BodyView>, a: int, b: int| landing_recorded(start, s, k, a, b, dt);
        assert forall|s: Seq<BodyView>, i: int, j: int|
            s.len() == start.len() && keeps(kept, s) && 0 <= i < j < s.len() implies keeps(
            kept,
            #[trigger] after_pair(s, i, j, dt),
        ) && gains(gained, after_pair(s, i, j, dt), i, j) by {
            lemma_pair_landing(start, s, k, i, j, dt);
        }
        assert forall|s: Seq<BodyView>, i: int, j: int, a: int, b: int|
            s.len() == start.len() && keeps(kept, s) && 0 <= i < j < s.len() && 0 <= a < b
                < s.len() && #[trigger] gains(gained, s, a, b) implies gains(
            gained,
            #[trigger] after_pair(s, i, j, dt),
            a,
            b,
        ) by {
            lemma_pair_landing(start, s, k, i, j, dt);
        }
        lemma_pass_induction(start, start.len() as int, dt, kept, gained);
        let end = resolved(bodies, dt);
        if k < other {
            assert(gains(gained, end, k, other));
        } else {
            assert(gains(gained, end, other, k));
        }
    }
}

} // verus!
