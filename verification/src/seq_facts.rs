//! Small facts about sequences that the loops of the simulation rely on.

use vstd::prelude::*;

verus! {

/// The first `i + 1` items are the first `i` items followed by item `i`.
pub proof fn lemma_take_next<A>(s: Seq<A>, i: int)
    requires
        0 <= i < s.len(),
    ensures
        s.take(i + 1) == s.take(i).push(s[i]),
{
}

/// Taking every item gives the sequence itself.
pub proof fn lemma_take_all<A>(s: Seq<A>)
    ensures
        s.take(s.len() as int) == s,
{
}

/// Filtering the first `i + 1` items keeps what filtering the first `i` kept, and item `i`
/// after it if it passes.
pub proof fn lemma_filter_take_next<A>(s: Seq<A>, pred: spec_fn(A) -> bool, i: int)
    requires
        0 <= i < s.len(),
    ensures
        s.take(i + 1).filter(pred) == if pred(s[i]) {
            s.take(i).filter(pred).push(s[i])
        } else {
            s.take(i).filter(pred)
        },
{
    lemma_take_next(s, i);
    s.take(i).lemma_filter_push(s[i], pred);
}

/// Filtering nothing keeps nothing.
pub proof fn lemma_filter_empty<A>(pred: spec_fn(A) -> bool)
    ensures
        Seq::<A>::empty().filter(pred) == Seq::<A>::empty(),
{
    reveal(Seq::filter);
}

/// Filtering a single item keeps it exactly when it passes.
pub proof fn lemma_filter_single<A>(item: A, pred: spec_fn(A) -> bool)
    ensures
        seq![item].filter(pred) == if pred(item) {
            seq![item]
        } else {
            Seq::<A>::empty()
        },
{
    Seq::<A>::empty().lemma_filter_push(item, pred);
}

/// Filtering a sequence whose items all pass keeps the sequence as it is.
pub proof fn lemma_filter_keeps_all<A>(s: Seq<A>, pred: spec_fn(A) -> bool)
    requires
        forall|i: int| 0 <= i < s.len() ==> pred(#[trigger] s[i]),
    ensures
        s.filter(pred) == s,
    decreases s.len(),
{
    if s.len() > 0 {
        lemma_filter_keeps_all(s.drop_last(), pred);
        s.drop_last().lemma_filter_push(s.last(), pred);
        assert(s.drop_last().push(s.last()) =~= s);
    }
}

/// Filtering a sequence of which no item passes keeps nothing.
pub proof fn lemma_filter_keeps_none<A>(s: Seq<A>, pred: spec_fn(A) -> bool)
    requires
        forall|i: int| 0 <= i < s.len() ==> !pred(#[trigger] s[i]),
    ensures
        s.filter(pred) == Seq::<A>::empty(),
    decreases s.len(),
{
    if s.len() > 0 {
        lemma_filter_keeps_none(s.drop_last(), pred);
        s.drop_last().lemma_filter_push(s.last(), pred);
        assert(s.drop_last().push(s.last()) =~= s);
    }
}

/// Every item is either kept by a filter or kept by its opposite.
pub proof fn lemma_filter_splits<A>(s: Seq<A>, pred: spec_fn(A) -> bool, other: spec_fn(A) -> bool)
    requires
        forall|item: A| #[trigger] other(item) == !pred(item),
    ensures
        s.filter(pred).len() + s.filter(other).len() == s.len(),
    decreases s.len(),
{
    if s.len() > 0 {
        lemma_filter_splits(s.drop_last(), pred, other);
        s.drop_last().lemma_filter_push(s.last(), pred);
        s.drop_last().lemma_filter_push(s.last(), other);
        assert(s.drop_last().push(s.last()) =~= s);
    }
}

/// What a filter keeps passes the filter and was in the sequence before.
pub proof fn lemma_filter_members<A>(s: Seq<A>, pred: spec_fn(A) -> bool, item: A)
    requires
        s.filter(pred).contains(item),
    ensures
        s.contains(item),
        pred(item),
    decreases s.len(),
{
    if s.len() > 0 {
        let front = s.drop_last();
        front.lemma_filter_push(s.last(), pred);
        assert(front.push(s.last()) =~= s);
        let k = choose|k: int| 0 <= k < s.filter(pred).len() && s.filter(pred)[k] == item;
        if k < front.filter(pred).len() {
            lemma_filter_members(front, pred, item);
        }
    }
}

} // verus!
