//! Facts about passing a run of items through a rule that keeps some of
//! them: what every producer and the consumer do with their input.

use vstd::prelude::*;

verus! {

/// One more item adds what the rule makes of it, if anything, at the end.
pub proof fn lemma_filter_map_push<A, B>(items: Seq<A>, item: A, rule: spec_fn(A) -> Option<B>)
    ensures
        items.push(item).filter_map(rule) == match rule(item) {
            Some(kept) => items.filter_map(rule).push(kept),
            None => items.filter_map(rule),
        },
{
    assert(items.push(item).drop_last() =~= items);
    assert(items.filter_map(rule) + seq![rule(item)->0] =~= items.filter_map(rule).push(
        rule(item)->0,
    ));
}

/// Where the rule keeps nothing of any item, nothing comes out.
pub proof fn lemma_filter_map_none<A, B>(items: Seq<A>, rule: spec_fn(A) -> Option<B>)
    requires
        forall|i: int| 0 <= i < items.len() ==> rule(#[trigger] items[i]) is None,
    ensures
        items.filter_map(rule).len() == 0,
    decreases items.len(),
{
    if items.len() > 0 {
        lemma_filter_map_none(items.drop_last(), rule);
    }
}

} // verus!
