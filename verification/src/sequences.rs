//! Facts about sequences that the laws of the tables rest on.

use vstd::prelude::*;

verus! {

/// A value is in one sequence followed by another where it is in either.
pub proof fn lemma_concat_contains<A>(front: Seq<A>, back: Seq<A>, value: A)
    ensures
        (front + back).contains(value) <==> front.contains(value) || back.contains(value),
{
    let all = front + back;
    if all.contains(value) {
        let at = choose|at: int| 0 <= at < all.len() && all[at] == value;
        if at < front.len() {
            assert(front[at] == value);
        } else {
            assert(back[at - front.len()] == value);
        }
    }
    if front.contains(value) {
        let at = choose|at: int| 0 <= at < front.len() && front[at] == value;
        assert(all[at] == value);
    }
    if back.contains(value) {
        let at = choose|at: int| 0 <= at < back.len() && back[at] == value;
        assert(all[front.len() + at] == value);
    }
}

/// What `select` picks from a row of `rows` is among what it picks from all
/// of them.
pub proof fn lemma_filter_map_holds<A, B>(rows: Seq<A>, select: spec_fn(A) -> Option<B>, k: int)
    requires
        0 <= k < rows.len(),
        select(rows[k]) is Some,
    ensures
        rows.filter_map(select).contains(select(rows[k])->0),
    decreases rows.len(),
{
    let picked = select(rows[k])->0;
    let rest = rows.drop_last().filter_map(select);
    if k == rows.len() - 1 {
        let all = rest + seq![picked];
        assert(all[rest.len() as int] == picked);
    } else {
        lemma_filter_map_holds(rows.drop_last(), select, k);
        let at = choose|at: int| 0 <= at < rest.len() && rest[at] == picked;
        match select(rows.last()) {
            Some(last) => {
                assert((rest + seq![last])[at] == picked);
            },
            None => {},
        }
    }
}

} // verus!
