//! Sequences: taking the first items, and what a filter keeps of a start.

use vstd::prelude::*;

verus! {

/// The first `n` of `items`, or all of them if they are fewer.
pub open spec fn first_n<A>(items: Seq<A>, n: nat) -> Seq<A> {
    if items.len() <= n {
        items
    } else {
        items.take(n as int)
    }
}

/// Filtering one item more of a sequence either adds that item to what was
/// kept of the items before it, or leaves that as it is.
pub proof fn lemma_filter_one_more<A>(items: Seq<A>, i: int, pred: spec_fn(A) -> bool)
    requires
        0 <= i < items.len(),
    ensures
        items.take(i + 1).filter(pred) == (if pred(items[i]) {
            items.take(i).filter(pred).push(items[i])
        } else {
            items.take(i).filter(pred)
        }),
{
    reveal(Seq::filter);
    assert(items.take(i + 1).drop_last() =~= items.take(i));
    assert(items.take(i + 1).last() == items[i]);
}

/// What is kept of the first `i` items is the start of what is kept of all
/// of them.
pub proof fn lemma_filter_of_prefix<A>(items: Seq<A>, i: int, pred: spec_fn(A) -> bool)
    requires
        0 <= i <= items.len(),
    ensures
        items.take(i).filter(pred).len() <= items.filter(pred).len(),
        items.take(i).filter(pred) == items.filter(pred).take(
            items.take(i).filter(pred).len() as int,
        ),
{
    assert(items =~= items.take(i) + items.skip(i));
    Seq::filter_distributes_over_add(items.take(i), items.skip(i), pred);
    assert(items.filter(pred).take(items.take(i).filter(pred).len() as int) =~= items.take(
        i,
    ).filter(pred));
}

} // verus!
