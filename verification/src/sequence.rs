//! Searching and filtering sequences.

use vstd::prelude::*;

verus! {

/// The place of the first `mark` in `items`, or the length of `items` where
/// they hold none.
pub open spec fn first_index_of<A>(items: Seq<A>, mark: A) -> int
    decreases items.len(),
{
    if items.len() == 0 {
        0
    } else if items[0] == mark {
        0
    } else {
        1 + first_index_of(items.drop_first(), mark)
    }
}

/// `first_index_of` is the place of a `mark` with none before it, exactly
/// where the sequence holds one, and the length otherwise.
pub proof fn lemma_first_index_of<A>(items: Seq<A>, mark: A)
    ensures
        0 <= first_index_of(items, mark) <= items.len(),
        forall|j: int| 0 <= j < first_index_of(items, mark) ==> items[j] != mark,
        first_index_of(items, mark) < items.len() ==> items[first_index_of(items, mark)] == mark,
        first_index_of(items, mark) < items.len() <==> items.contains(mark),
    decreases items.len(),
{
    if items.len() > 0 && items[0] != mark {
        let rest = items.drop_first();
        lemma_first_index_of(rest, mark);
        let at = first_index_of(rest, mark);
        assert forall|j: int| 0 <= j < at + 1 implies items[j] != mark by {
            if j > 0 {
                assert(rest[j - 1] == items[j]);
            }
        }
    }
}

/// A sequence with `mark` at `at` and none before it has its first `mark` at
/// `at`.
pub proof fn lemma_first_index_is<A>(items: Seq<A>, mark: A, at: int)
    requires
        0 <= at < items.len(),
        items[at] == mark,
        forall|j: int| 0 <= j < at ==> items[j] != mark,
    ensures
        first_index_of(items, mark) == at,
{
    lemma_first_index_of(items, mark);
}

/// A sequence without `mark` has its first index at its length.
pub proof fn lemma_first_index_none<A>(items: Seq<A>, mark: A)
    requires
        forall|j: int| 0 <= j < items.len() ==> items[j] != mark,
    ensures
        first_index_of(items, mark) == items.len(),
        !items.contains(mark),
{
    lemma_first_index_of(items, mark);
}

/// Filtering a sequence in which exactly the item at `at` fails the test
/// removes that item.
pub proof fn lemma_filter_drops_one<A>(items: Seq<A>, at: int, keep: spec_fn(A) -> bool)
    requires
        0 <= at < items.len(),
        !keep(items[at]),
        forall|i: int| 0 <= i < items.len() && i != at ==> keep(items[i]),
    ensures
        items.filter(keep) == items.remove(at),
    decreases items.len(),
{
    reveal(Seq::filter);
    let front = items.drop_last();
    if at == items.len() - 1 {
        lemma_filter_keeps_all(front, keep);
    } else {
        lemma_filter_drops_one(front, at, keep);
    }
}

/// Filtering a sequence in which every item passes the test changes nothing.
pub proof fn lemma_filter_keeps_all<A>(items: Seq<A>, keep: spec_fn(A) -> bool)
    requires
        forall|i: int| 0 <= i < items.len() ==> keep(items[i]),
    ensures
        items.filter(keep) == items,
    decreases items.len(),
{
    reveal(Seq::filter);
    if items.len() > 0 {
        lemma_filter_keeps_all(items.drop_last(), keep);
    }
}

} // verus!
