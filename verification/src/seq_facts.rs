//! General facts about filtered and reversed sequences, used by the range
//! scans and the sorted-table operations.

use vstd::prelude::*;

verus! {

/// A filter over a sequence keeps a prefix exactly when the predicate holds
/// on the whole prefix and nowhere after it.
pub proof fn lemma_filter_is_take<A>(s: Seq<A>, pred: spec_fn(A) -> bool, i: int)
    requires
        0 <= i <= s.len(),
        forall|k: int| 0 <= k < i ==> pred(s[k]),
        forall|k: int| i <= k < s.len() ==> !pred(s[k]),
    ensures
        s.filter(pred) == s.take(i),
    decreases s.len(),
{
    reveal(Seq::filter);
    if s.len() == 0 {
        assert(s.filter(pred) =~= s.take(i));
    } else if i == s.len() {
        lemma_filter_is_take(s.drop_last(), pred, i - 1);
        assert(pred(s.last()));
        assert(s.drop_last().take(i - 1) =~= s.drop_last());
        assert(s.take(i) =~= s.drop_last().push(s.last()));
    } else {
        lemma_filter_is_take(s.drop_last(), pred, i);
        assert(!pred(s.last()));
        assert(s.drop_last().take(i) =~= s.take(i));
    }
}

/// A filter over a sequence keeps a suffix exactly when the predicate fails
/// on the whole prefix and holds from the split point on.
pub proof fn lemma_filter_is_skip<A>(s: Seq<A>, pred: spec_fn(A) -> bool, i: int)
    requires
        0 <= i <= s.len(),
        forall|k: int| 0 <= k < i ==> !pred(s[k]),
        forall|k: int| i <= k < s.len() ==> pred(s[k]),
    ensures
        s.filter(pred) == s.skip(i),
    decreases s.len(),
{
    reveal(Seq::filter);
    if s.len() == 0 {
        assert(s.filter(pred) =~= s.skip(i));
    } else if i == s.len() {
        lemma_filter_is_take(s, pred, 0);
        assert(s.take(0) =~= s.skip(i));
    } else {
        lemma_filter_is_skip(s.drop_last(), pred, i);
        assert(pred(s.last()));
        assert(s.drop_last().skip(i).push(s.last()) =~= s.skip(i));
    }
}

/// Appending one element to the scanned sequence extends its filter by that
/// element exactly when the predicate accepts it.
pub proof fn lemma_filter_push<A>(s: Seq<A>, pred: spec_fn(A) -> bool, x: A)
    ensures
        s.push(x).filter(pred) == if pred(x) {
            s.filter(pred).push(x)
        } else {
            s.filter(pred)
        },
{
    reveal(Seq::filter);
    assert(s.push(x).drop_last() =~= s);
    assert(s.push(x).last() == x);
}

/// Splitting a sequence at any point splits its filter.
pub proof fn lemma_filter_split<A>(s: Seq<A>, pred: spec_fn(A) -> bool, i: int)
    requires
        0 <= i <= s.len(),
    ensures
        s.filter(pred) == s.take(i).filter(pred) + s.skip(i).filter(pred),
{
    assert(s =~= s.take(i) + s.skip(i));
    Seq::<A>::filter_distributes_over_add(s.take(i), s.skip(i), pred);
}

/// Two predicates that agree on every element of a sequence filter it to
/// the same thing.
pub proof fn lemma_filter_congruent<A>(s: Seq<A>, p: spec_fn(A) -> bool, q: spec_fn(A) -> bool)
    requires
        forall|i: int| 0 <= i < s.len() ==> p(s[i]) == q(s[i]),
    ensures
        s.filter(p) == s.filter(q),
    decreases s.len(),
{
    reveal(Seq::filter);
    if s.len() > 0 {
        lemma_filter_congruent(s.drop_last(), p, q);
    }
}

/// A property that holds of every element of a sequence holds of every
/// element of any filter of it.
pub proof fn lemma_filter_all<A>(s: Seq<A>, pred: spec_fn(A) -> bool, q: spec_fn(A) -> bool)
    requires
        forall|i: int| 0 <= i < s.len() ==> q(s[i]),
    ensures
        forall|i: int| 0 <= i < s.filter(pred).len() ==> q(#[trigger] s.filter(pred)[i]),
    decreases s.len(),
{
    reveal(Seq::filter);
    if s.len() > 0 {
        assert(forall|i: int| 0 <= i < s.drop_last().len() ==> q(#[trigger] s.drop_last()[i]));
        lemma_filter_all(s.drop_last(), pred, q);
        let sub = s.drop_last().filter(pred);
        assert forall|i: int| 0 <= i < s.filter(pred).len() implies q(s.filter(pred)[i]) by {
            if pred(s.last()) {
                assert(s.filter(pred) == sub.push(s.last()));
                if i < sub.len() {
                    assert(s.filter(pred)[i] == sub[i]);
                } else {
                    assert(s.filter(pred)[i] == s.last());
                }
            } else {
                assert(s.filter(pred) == sub);
            }
        }
    }
}

/// Filtering keeps a strict order: whenever a sequence is strictly
/// increasing under `key`, so is any filter of it.
pub proof fn lemma_filter_keeps_order<A>(s: Seq<A>, pred: spec_fn(A) -> bool, key: spec_fn(A) -> int)
    requires
        forall|i: int, j: int| 0 <= i < j < s.len() ==> key(s[i]) < key(s[j]),
    ensures
        forall|i: int, j: int|
            0 <= i < j < s.filter(pred).len() ==> key(#[trigger] s.filter(pred)[i]) < key(
                #[trigger] s.filter(pred)[j],
            ),
    decreases s.len(),
{
    reveal(Seq::filter);
    if s.len() > 0 {
        assert(forall|i: int, j: int|
            0 <= i < j < s.drop_last().len() ==> key(#[trigger] s.drop_last()[i]) < key(
                #[trigger] s.drop_last()[j],
            ));
        lemma_filter_keeps_order(s.drop_last(), pred, key);
        let sub = s.drop_last().filter(pred);
        if pred(s.last()) {
            lemma_filter_all(s.drop_last(), pred, |x: A| key(x) < key(s.last()));
            assert forall|i: int, j: int|
                0 <= i < j < s.filter(pred).len() implies key(s.filter(pred)[i]) < key(
                s.filter(pred)[j],
            ) by {
                assert(s.filter(pred) == sub.push(s.last()));
                if j < sub.len() {
                    assert(s.filter(pred)[i] == sub[i] && s.filter(pred)[j] == sub[j]);
                } else {
                    assert(s.filter(pred)[i] == sub[i] && s.filter(pred)[j] == s.last());
                }
            }
        } else {
            assert(s.filter(pred) == sub);
        }
    }
}

/// The reverse of a concatenation is the concatenation of the reverses,
/// swapped.
pub proof fn lemma_reverse_add<A>(a: Seq<A>, b: Seq<A>)
    ensures
        (a + b).reverse() == b.reverse() + a.reverse(),
{
    assert((a + b).reverse() =~= b.reverse() + a.reverse());
}

} // verus!
