//! An ascending sort of `i64` samples, with a sequence-level model.
//!
//! The quartile policies all begin by sorting a private copy of the sample.
//! `sort_seq` is the mathematical sort used in their contracts, and
//! `sort_values` is the verified executable sort that realises it.

use vstd::prelude::*;
use vstd::relations::{sorted_by, total_ordering};
use vstd::seq_lib::lemma_sorted_unique;

verus! {

/// The `<=` ordering on `i64`, as a spec-level relation.
pub open spec fn i64_le() -> spec_fn(i64, i64) -> bool {
    |a: i64, b: i64| a <= b
}

/// Ascending order: every element is at most each element after it.
pub open spec fn is_sorted(s: Seq<i64>) -> bool {
    forall|i: int, j: int| 0 <= i <= j < s.len() ==> s[i] <= s[j]
}

/// The ascending rearrangement of a sequence.
pub open spec fn sort_seq(s: Seq<i64>) -> Seq<i64> {
    s.sort_by(i64_le())
}

/// `<=` on `i64` is a total order.
pub proof fn lemma_i64_le_total_ordering()
    ensures
        total_ordering(i64_le()),
{
    assert(vstd::relations::reflexive(i64_le()));
    assert(vstd::relations::antisymmetric(i64_le()));
    assert(vstd::relations::transitive(i64_le()));
    assert(vstd::relations::strongly_connected(i64_le()));
}

/// `sort_seq` rearranges its input into ascending order: the result has the
/// same length and the same multiset of elements, and is sorted.
pub proof fn lemma_sort_seq_ensures(s: Seq<i64>)
    ensures
        sort_seq(s).to_multiset() == s.to_multiset(),
        sort_seq(s).len() == s.len(),
        is_sorted(sort_seq(s)),
{
    broadcast use vstd::seq_lib::group_to_multiset_ensures;

    lemma_i64_le_total_ordering();
    s.lemma_sort_by_ensures(i64_le());
    assert(s.to_multiset().len() == s.len());
    assert(sort_seq(s).to_multiset().len() == sort_seq(s).len());
    assert forall|i: int, j: int|
        0 <= i <= j < sort_seq(s).len() implies sort_seq(s)[i] <= sort_seq(s)[j] by {
        if i < j {
            assert(i64_le()(sort_seq(s)[i], sort_seq(s)[j]));
        }
    }
}

/// Two sorted sequences holding the same multiset of elements are equal.
pub proof fn lemma_sorted_permutation_unique(x: Seq<i64>, y: Seq<i64>)
    requires
        is_sorted(x),
        is_sorted(y),
        x.to_multiset() == y.to_multiset(),
    ensures
        x == y,
{
    lemma_i64_le_total_ordering();
    assert(sorted_by(x, i64_le()));
    assert(sorted_by(y, i64_le()));
    lemma_sorted_unique(x, y, i64_le());
}

/// A sorted sequence with the elements of `s` is exactly `sort_seq(s)`.
pub proof fn lemma_sort_seq_unique(s: Seq<i64>, v: Seq<i64>)
    requires
        is_sorted(v),
        v.to_multiset() == s.to_multiset(),
    ensures
        v == sort_seq(s),
{
    lemma_sort_seq_ensures(s);
    lemma_sorted_permutation_unique(v, sort_seq(s));
}

/// Insertion sort: rearranges `v` into ascending order in place.
pub fn sort_values(v: &mut Vec<i64>)
    ensures
        final(v)@ == sort_seq(old(v)@),
{
    broadcast use vstd::seq_lib::group_to_multiset_ensures;
    broadcast use vstd::multiset::group_multiset_axioms;

    let ghost orig: Seq<i64> = v@;
    let mut i: usize = 1;
    while i < v.len()
        invariant
            1 <= i,
            v@.len() == orig.len(),
            v@.to_multiset() == orig.to_multiset(),
            forall|a: int, b: int| 0 <= a <= b < i && b < v@.len() ==> v@[a] <= v@[b],
        decreases v@.len() - i,
    {
        let mut j: usize = i;
        while j > 0 && v[j - 1] > v[j]
            invariant
                j <= i < v@.len(),
                v@.len() == orig.len(),
                v@.to_multiset() == orig.to_multiset(),
                forall|a: int, b: int|
                    0 <= a <= b <= i && a != j && b != j ==> v@[a] <= v@[b],
                forall|b: int| j < b <= i ==> v@[j as int] <= v@[b],
            decreases j,
        {
            let ghost pre: Seq<i64> = v@;
            let x: i64 = v[j - 1];
            let y: i64 = v[j];
            v.set(j - 1, y);
            v.set(j, x);
            proof {
                let jj: int = j as int;
                let mid: Seq<i64> = pre.update(jj - 1, y);
                assert(v@ == mid.update(jj, x));
                assert(pre[jj - 1] == x);
                assert(pre.contains(x));
                assert(mid[jj - 1] == y);
                assert(mid.contains(y));
                vstd::seq_lib::to_multiset_update(pre, jj - 1, y);
                vstd::seq_lib::to_multiset_update(mid, jj, x);
                vstd::seq_lib::to_multiset_contains(pre, x);
                vstd::seq_lib::to_multiset_contains(mid, y);
                assert(pre.to_multiset().count(x) > 0);
                assert(mid.to_multiset().count(y) > 0);
                assert(mid.to_multiset() == pre.to_multiset().insert(y).remove(x));
                assert(v@.to_multiset() == mid.to_multiset().insert(x).remove(y));
                assert(v@.to_multiset() =~= pre.to_multiset());
                assert(v@.to_multiset() == orig.to_multiset());
            }
            j = j - 1;
        }
        i = i + 1;
    }
    proof {
        lemma_sort_seq_unique(orig, v@);
    }
}

} // verus!
