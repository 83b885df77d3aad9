//! Induction over the pairs of a collision pass.
//!
//! A pass resolves the pairs of a table one after another. What is to be
//! shown of a whole pass is therefore shown of a single pair, and carried over
//! all pairs by the lemmas of this file. They speak of two predicates: one
//! that every pair keeps, and one that each pair brings about for itself and
//! that no other pair undoes.
use crate::fixed::Fixed;
use crate::physics::component::BodyView;
use crate::physics::resolver::{after_pair, after_row, after_rows};
use vstd::prelude::*;

verus! {

/// Resolving a pair does not change the length of the table.
pub proof fn lemma_pair_keeps_length(bodies: Seq<BodyView>, first: int, second: int, dt: Fixed)
    requires
        0 <= first < bodies.len(),
        0 <= second < bodies.len(),
    ensures
        after_pair(bodies, first, second, dt).len() == bodies.len(),
{
}

/// Whether `kept` holds of the table.
pub open spec fn keeps(kept: spec_fn(Seq<BodyView>) -> bool, bodies: Seq<BodyView>) -> bool {
    kept(bodies)
}

/// Whether `gained` holds of the table for the pair at `a` and `b`.
pub open spec fn gains(
    gained: spec_fn(Seq<BodyView>, int, int) -> bool,
    bodies: Seq<BodyView>,
    a: int,
    b: int,
) -> bool {
    gained(bodies, a, b)
}

/// Whether resolving any pair of a table of the given length keeps `kept`
/// and brings `gained` about for that pair.
pub open spec fn every_pair_keeps_and_gains(
    length: nat,
    dt: Fixed,
    kept: spec_fn(Seq<BodyView>) -> bool,
    gained: spec_fn(Seq<BodyView>, int, int) -> bool,
) -> bool {
    forall|s: Seq<BodyView>, i: int, j: int|
        s.len() == length && keeps(kept, s) && 0 <= i < j < s.len() ==> keeps(
            kept,
            #[trigger] after_pair(s, i, j, dt),
        ) && gains(gained, after_pair(s, i, j, dt), i, j)
}

/// Whether resolving any pair of a table of the given length leaves `gained`
/// standing for every pair for which it held.
pub open spec fn no_pair_undoes(
    length: nat,
    dt: Fixed,
    kept: spec_fn(Seq<BodyView>) -> bool,
    gained: spec_fn(Seq<BodyView>, int, int) -> bool,
) -> bool {
    forall|s: Seq<BodyView>, i: int, j: int, a: int, b: int|
        s.len() == length && keeps(kept, s) && 0 <= i < j < s.len() && 0 <= a < b < s.len()
            && #[trigger] gains(gained, s, a, b) ==> gains(
            gained,
            #[trigger] after_pair(s, i, j, dt),
            a,
            b,
        )
}

/// What is kept by every pair is kept by a row of pairs, and what every pair
/// brings about for itself, and no later pair undoes, holds of each pair of
/// the row afterwards.
proof fn lemma_row_induction(
    bodies: Seq<BodyView>,
    first: int,
    upto: int,
    dt: Fixed,
    kept: spec_fn(Seq<BodyView>) -> bool,
    gained: spec_fn(Seq<BodyView>, int, int) -> bool,
)
    requires
        0 <= first < upto <= bodies.len(),
        keeps(kept, bodies),
        every_pair_keeps_and_gains(bodies.len(), dt, kept, gained),
        no_pair_undoes(bodies.len(), dt, kept, gained),
    ensures
        after_row(bodies, first, upto, dt).len() == bodies.len(),
        keeps(kept, after_row(bodies, first, upto, dt)),
        forall|b: int|
            first < b < upto ==> gains(gained, after_row(bodies, first, upto, dt), first, b),
        forall|a: int, b: int|
            0 <= a < b < bodies.len() && gains(gained, bodies, a, b) ==> gains(
                gained,
                after_row(bodies, first, upto, dt),
                a,
                b,
            ),
    decreases upto - first,
{
    if upto > first + 1 {
        lemma_row_induction(bodies, first, upto - 1, dt, kept, gained);
        let before = after_row(bodies, first, upto - 1, dt);
        lemma_pair_keeps_length(before, first, upto - 1, dt);
        let after = after_pair(before, first, upto - 1, dt);
        assert(after == after_row(bodies, first, upto, dt));
        assert(keeps(kept, after) && gains(gained, after, first, upto - 1));
        assert forall|b: int| first < b < upto implies gains(gained, after, first, b) by {
            if b < upto - 1 {
                assert(gains(gained, before, first, b));
            }
        }
        assert forall|a: int, b: int|
            0 <= a < b < bodies.len() && gains(gained, bodies, a, b) implies gains(
            gained,
            after,
            a,
            b,
        ) by {
            assert(gains(gained, before, a, b));
        }
    }
}

/// What holds of a table and is kept by every pair holds after any number of
/// rows; and what every pair brings about for itself, and no later pair
/// undoes, holds afterwards of every pair that has been resolved.
pub proof fn lemma_pass_induction(
    bodies: Seq<BodyView>,
    rows: int,
    dt: Fixed,
    kept: spec_fn(Seq<BodyView>) -> bool,
    gained: spec_fn(Seq<BodyView>, int, int) -> bool,
)
    requires
        0 <= rows <= bodies.len(),
        keeps(kept, bodies),
        every_pair_keeps_and_gains(bodies.len(), dt, kept, gained),
        no_pair_undoes(bodies.len(), dt, kept, gained),
    ensures
        after_rows(bodies, rows, dt).len() == bodies.len(),
        keeps(kept, after_rows(bodies, rows, dt)),
        forall|a: int, b: int|
            0 <= a < rows && a < b < bodies.len() ==> gains(
                gained,
                after_rows(bodies, rows, dt),
                a,
                b,
            ),
    decreases rows,
{
    if rows > 0 {
        lemma_pass_induction(bodies, rows - 1, dt, kept, gained);
        let before = after_rows(bodies, rows - 1, dt);
        let after = after_row(before, rows - 1, bodies.len() as int, dt);
        assert(after == after_rows(bodies, rows, dt));
        lemma_row_induction(before, rows - 1, bodies.len() as int, dt, kept, gained);
        assert forall|a: int, b: int| 0 <= a < rows && a < b < bodies.len() implies gains(
            gained,
            after,
            a,
            b,
        ) by {
            if a < rows - 1 {
                assert(gains(gained, before, a, b));
            }
        }
    }
}

} // verus!
