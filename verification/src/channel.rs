//! The channel between the producers and the consumer: each producer's
//! records stay in the order in which it sent them, and the records of
//! different producers fall between one another in any way.

use vstd::prelude::*;
use crate::dispatch::lines_of;
use crate::json::line_of;
use crate::record::Record;

verus! {

/// `merged` is made of the items of `first` and the items of `second`, each
/// run in its own order, with nothing added and nothing lost.
pub open spec fn interleaves<T>(merged: Seq<T>, first: Seq<T>, second: Seq<T>) -> bool
    decreases merged.len(),
{
    if merged.len() == 0 {
        first.len() == 0 && second.len() == 0
    } else {
        ||| first.len() > 0 && first.last() == merged.last() && interleaves(
            merged.drop_last(),
            first.drop_last(),
            second,
        )
        ||| second.len() > 0 && second.last() == merged.last() && interleaves(
            merged.drop_last(),
            first,
            second.drop_last(),
        )
    }
}

/// Nothing is lost or added between the producers and the channel.
pub proof fn lemma_interleaves_len<T>(merged: Seq<T>, first: Seq<T>, second: Seq<T>)
    requires
        interleaves(merged, first, second),
    ensures
        merged.len() == first.len() + second.len(),
    decreases merged.len(),
{
    if merged.len() > 0 {
        if first.len() > 0 && first.last() == merged.last() && interleaves(
            merged.drop_last(),
            first.drop_last(),
            second,
        ) {
            lemma_interleaves_len(merged.drop_last(), first.drop_last(), second);
        } else {
            lemma_interleaves_len(merged.drop_last(), first, second.drop_last());
        }
    }
}

/// However the records of two producers fall between one another on the
/// channel, the lines that come out are the lines of the one producer and
/// the lines of the other, each run in its own order, with nothing added
/// and nothing lost: as many lines as the two producers' records give
/// between them.
pub proof fn lemma_lines_interleave(merged: Seq<Record>, first: Seq<Record>, second: Seq<Record>)
    requires
        interleaves(merged, first, second),
    ensures
        interleaves(lines_of(merged), lines_of(first), lines_of(second)),
        lines_of(merged).len() == lines_of(first).len() + lines_of(second).len(),
{
    lemma_lines_interleave_step(merged, first, second);
    lemma_interleaves_len(lines_of(merged), lines_of(first), lines_of(second));
}

/// The induction behind `lemma_lines_interleave`, record by record from the
/// end of the channel.
proof fn lemma_lines_interleave_step(
    merged: Seq<Record>,
    first: Seq<Record>,
    second: Seq<Record>,
)
    requires
        interleaves(merged, first, second),
    ensures
        interleaves(lines_of(merged), lines_of(first), lines_of(second)),
    decreases merged.len(),
{
    if merged.len() > 0 {
        let last = merged.last();
        let init = merged.drop_last();
        assert(lines_of(merged) =~= lines_of(init).push(line_of(last)));
        if first.len() > 0 && first.last() == last && interleaves(init, first.drop_last(), second) {
            lemma_lines_interleave_step(init, first.drop_last(), second);
            assert(lines_of(first) =~= lines_of(first.drop_last()).push(line_of(last)));
            lemma_push_interleaves_first(
                lines_of(init),
                lines_of(first.drop_last()),
                lines_of(second),
                line_of(last),
            );
        } else {
            lemma_lines_interleave_step(init, first, second.drop_last());
            assert(lines_of(second) =~= lines_of(second.drop_last()).push(line_of(last)));
            lemma_push_interleaves_second(
                lines_of(init),
                lines_of(first),
                lines_of(second.drop_last()),
                line_of(last),
            );
        }
    }
}

/// An item that the first run sends next falls at the end of the channel.
proof fn lemma_push_interleaves_first<T>(
    merged: Seq<T>,
    first: Seq<T>,
    second: Seq<T>,
    item: T,
)
    requires
        interleaves(merged, first, second),
    ensures
        interleaves(merged.push(item), first.push(item), second),
{
    assert(merged.push(item).drop_last() =~= merged);
    assert(first.push(item).drop_last() =~= first);
}

/// An item that the second run sends next falls at the end of the channel.
proof fn lemma_push_interleaves_second<T>(
    merged: Seq<T>,
    first: Seq<T>,
    second: Seq<T>,
    item: T,
)
    requires
        interleaves(merged, first, second),
    ensures
        interleaves(merged.push(item), first, second.push(item)),
{
    assert(merged.push(item).drop_last() =~= merged);
    assert(second.push(item).drop_last() =~= second);
}

} // verus!
