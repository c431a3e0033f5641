//! Facts about `Seq::filter` that the table's proofs lean on.

use vstd::prelude::*;

verus! {

/// Filtering one element more: the next element is appended if it passes.
pub(crate) proof fn lemma_filter_next<A>(items: Seq<A>, keep: spec_fn(A) -> bool, end: int)
    requires
        0 <= end < items.len(),
    ensures
        items.take(end + 1).filter(keep) == if keep(items[end]) {
            items.take(end).filter(keep).push(items[end])
        } else {
            items.take(end).filter(keep)
        },
{
    reveal(Seq::filter);
    assert(items.take(end + 1).drop_last() =~= items.take(end));
}

/// A filter that every element passes changes nothing.
pub(crate) proof fn lemma_filter_all<A>(items: Seq<A>, keep: spec_fn(A) -> bool)
    requires
        forall|i: int| 0 <= i < items.len() ==> keep(#[trigger] items[i]),
    ensures
        items.filter(keep) == items,
    decreases items.len(),
{
    reveal(Seq::filter);
    if items.len() > 0 {
        lemma_filter_all(items.drop_last(), keep);
        assert(items.drop_last().push(items.last()) =~= items);
    }
}

/// A filter that no element passes leaves nothing.
pub(crate) proof fn lemma_filter_none<A>(items: Seq<A>, keep: spec_fn(A) -> bool)
    requires
        forall|i: int| 0 <= i < items.len() ==> !keep(#[trigger] items[i]),
    ensures
        items.filter(keep) == Seq::<A>::empty(),
    decreases items.len(),
{
    reveal(Seq::filter);
    if items.len() > 0 {
        lemma_filter_none(items.drop_last(), keep);
    }
}

/// A filter that exactly one element fails removes that element.
pub(crate) proof fn lemma_filter_one_out<A>(items: Seq<A>, keep: spec_fn(A) -> bool, out: int)
    requires
        0 <= out < items.len(),
        !keep(items[out]),
        forall|i: int| 0 <= i < items.len() && i != out ==> keep(#[trigger] items[i]),
    ensures
        items.filter(keep) == items.remove(out),
{
    let before = items.take(out);
    let one = seq![items[out]];
    let after = items.skip(out + 1);
    assert(items =~= before + one + after);
    Seq::filter_distributes_over_add(before + one, after, keep);
    Seq::filter_distributes_over_add(before, one, keep);
    lemma_filter_all(before, keep);
    lemma_filter_none(one, keep);
    assert forall|i: int| 0 <= i < after.len() implies keep(#[trigger] after[i]) by {
        assert(after[i] == items[out + 1 + i]);
    }
    lemma_filter_all(after, keep);
    assert(items.remove(out) =~= before + Seq::<A>::empty() + after);
}

} // verus!
