//! Proved laws of the quartile model.
//!
//! The central facts: every interpolated value lies between the sample
//! extrema; interpolation is monotone in its rank parameter; hence every
//! summary satisfies `lower_fence <= lower <= median <= upper <= upper_fence`;
//! the "fair" fences never leave the sample range; the summaries depend only
//! on the multiset of sample values; and a one-element sample yields its
//! element in all five positions under every policy.

use vstd::prelude::*;

use crate::model::{
    fair_summary, linear_summary, percentile200, rank_quartile200, real_summary, Summary,
};
use crate::sorting::{is_sorted, lemma_sort_seq_ensures, lemma_sort_seq_unique, sort_seq};

verus! {

/// The summary whose five entries all equal the value `x`, scaled by 200.
pub open spec fn constant_summary(x: i64) -> Summary {
    (200 * x, 200 * x, 200 * x, 200 * x, 200 * x)
}

/// An interpolated percentile of a sorted sample lies between the first and
/// the last element.
pub proof fn lemma_percentile200_in_range(t: Seq<i64>, pct: int)
    requires
        t.len() >= 1,
        is_sorted(t),
        0 <= pct <= 100,
    ensures
        200 * t[0] <= percentile200(t, pct),
        percentile200(t, pct) <= 200 * t[t.len() - 1],
{
    let n: int = t.len() as int;
    if n == 1 {
    } else if pct == 100 {
        assert(t[0] <= t[n - 1]);
    } else {
        let rank: int = pct * (n - 1);
        assert(0 <= rank && rank <= 99 * (n - 1)) by (nonlinear_arith)
            requires
                0 <= pct <= 99,
                n - 1 >= 1,
                rank == pct * (n - 1),
        ;
        let idx: int = rank / 100;
        let frac: int = rank % 100;
        assert(rank < 100 * (n - 1));
        assert(0 <= idx < n - 1);
        let d: int = t[idx + 1] - t[idx];
        assert(d >= 0);
        assert(0 <= 2 * frac * d && 2 * frac * d <= 200 * d) by (nonlinear_arith)
            requires
                0 <= frac <= 99,
                d >= 0,
        ;
        assert(t[0] <= t[idx]);
        assert(t[idx + 1] <= t[n - 1]);
    }
}

/// Percentile interpolation on a sorted sample is monotone in the requested
/// percentile.
pub proof fn lemma_percentile200_monotone(t: Seq<i64>, p1: int, p2: int)
    requires
        t.len() >= 1,
        is_sorted(t),
        0 <= p1 <= p2 <= 100,
    ensures
        percentile200(t, p1) <= percentile200(t, p2),
{
    let n: int = t.len() as int;
    if n == 1 || p1 == p2 {
    } else if p2 == 100 {
        lemma_percentile200_in_range(t, p1);
    } else {
        let r1: int = p1 * (n - 1);
        let r2: int = p2 * (n - 1);
        assert(0 <= r1 && r1 <= r2 && r2 <= 99 * (n - 1)) by (nonlinear_arith)
            requires
                0 <= p1 <= p2 <= 99,
                n - 1 >= 1,
                r1 == p1 * (n - 1),
                r2 == p2 * (n - 1),
        ;
        let i1: int = r1 / 100;
        let f1: int = r1 % 100;
        let i2: int = r2 / 100;
        let f2: int = r2 % 100;
        assert(r2 < 100 * (n - 1));
        assert(0 <= i1 <= i2 < n - 1);
        let d1: int = t[i1 + 1] - t[i1];
        let d2: int = t[i2 + 1] - t[i2];
        assert(d1 >= 0 && d2 >= 0);
        if i1 == i2 {
            assert(f1 <= f2);
            assert(2 * f1 * d1 <= 2 * f2 * d1) by (nonlinear_arith)
                requires
                    f1 <= f2,
                    d1 >= 0,
            ;
        } else {
            assert(i1 + 1 <= i2);
            assert(2 * f1 * d1 <= 200 * d1) by (nonlinear_arith)
                requires
                    f1 <= 99,
                    d1 >= 0,
            ;
            assert(2 * f2 * d2 >= 0) by (nonlinear_arith)
                requires
                    f2 >= 0,
                    d2 >= 0,
            ;
            assert(t[i1 + 1] <= t[i2]);
        }
    }
}

/// A rank-formula quartile of a sorted sample lies between the first and the
/// last element.
pub proof fn lemma_rank_quartile200_in_range(t: Seq<i64>, p: int)
    requires
        t.len() >= 1,
        is_sorted(t),
        0 <= p <= 4,
    ensures
        200 * t[0] <= rank_quartile200(t, p),
        rank_quartile200(t, p) <= 200 * t[t.len() - 1],
{
    let n: int = t.len() as int;
    let quarters: int = p * (n + 1);
    assert(0 <= quarters) by (nonlinear_arith)
        requires
            p >= 0,
            n + 1 >= 1,
            quarters == p * (n + 1),
    ;
    let k: int = quarters / 4;
    let frac: int = quarters % 4;
    assert(t[0] <= t[n - 1]);
    if k == 0 {
    } else if k - 1 >= n - 1 {
    } else {
        assert(1 <= k <= n - 1);
        let d: int = t[k] - t[k - 1];
        assert(d >= 0);
        assert(0 <= 50 * frac * d && 50 * frac * d <= 200 * d) by (nonlinear_arith)
            requires
                0 <= frac <= 3,
                d >= 0,
        ;
        assert(t[0] <= t[k - 1]);
        assert(t[k] <= t[n - 1]);
    }
}

/// The rank-formula quartile of a sorted sample is monotone in its rank
/// index.
pub proof fn lemma_rank_quartile200_monotone(t: Seq<i64>, p1: int, p2: int)
    requires
        t.len() >= 1,
        is_sorted(t),
        0 <= p1 <= p2 <= 4,
    ensures
        rank_quartile200(t, p1) <= rank_quartile200(t, p2),
{
    let n: int = t.len() as int;
    let q1: int = p1 * (n + 1);
    let q2: int = p2 * (n + 1);
    assert(0 <= q1 && q1 <= q2) by (nonlinear_arith)
        requires
            0 <= p1 <= p2,
            n + 1 >= 1,
            q1 == p1 * (n + 1),
            q2 == p2 * (n + 1),
    ;
    let k1: int = q1 / 4;
    let k2: int = q2 / 4;
    assert(0 <= k1 <= k2);
    if k1 == 0 {
        lemma_rank_quartile200_in_range(t, p2);
    } else if k2 - 1 >= n - 1 {
        lemma_rank_quartile200_in_range(t, p1);
    } else {
        assert(1 <= k1 <= k2 <= n - 1);
        let f1: int = q1 % 4;
        let f2: int = q2 % 4;
        let d1: int = t[k1] - t[k1 - 1];
        let d2: int = t[k2] - t[k2 - 1];
        assert(d1 >= 0 && d2 >= 0);
        if k1 == k2 {
            assert(f1 <= f2);
            assert(50 * f1 * d1 <= 50 * f2 * d1) by (nonlinear_arith)
                requires
                    f1 <= f2,
                    d1 >= 0,
            ;
        } else {
            assert(50 * f1 * d1 <= 200 * d1) by (nonlinear_arith)
                requires
                    f1 <= 3,
                    d1 >= 0,
            ;
            assert(50 * f2 * d2 >= 0) by (nonlinear_arith)
                requires
                    f2 >= 0,
                    d2 >= 0,
            ;
            assert(t[k1] <= t[k2 - 1]);
        }
    }
}

/// Law: a "linear percentile" summary is monotone:
/// `lower_fence <= lower <= median <= upper <= upper_fence`.
pub proof fn lemma_linear_summary_monotone(t: Seq<i64>)
    requires
        t.len() >= 1,
        is_sorted(t),
    ensures
        linear_summary(t).0 <= linear_summary(t).1,
        linear_summary(t).1 <= linear_summary(t).2,
        linear_summary(t).2 <= linear_summary(t).3,
        linear_summary(t).3 <= linear_summary(t).4,
{
    lemma_percentile200_monotone(t, 25, 50);
    lemma_percentile200_monotone(t, 50, 75);
}

/// Law: a "real" summary is monotone:
/// `lower_fence <= lower <= median <= upper <= upper_fence`.
pub proof fn lemma_real_summary_monotone(t: Seq<i64>)
    requires
        t.len() >= 1,
        is_sorted(t),
    ensures
        real_summary(t).0 <= real_summary(t).1,
        real_summary(t).1 <= real_summary(t).2,
        real_summary(t).2 <= real_summary(t).3,
        real_summary(t).3 <= real_summary(t).4,
{
    lemma_rank_quartile200_monotone(t, 0, 1);
    lemma_rank_quartile200_monotone(t, 1, 2);
    lemma_rank_quartile200_monotone(t, 2, 3);
    lemma_rank_quartile200_monotone(t, 3, 4);
}

/// Law: a "fair" summary is monotone:
/// `lower_fence <= lower <= median <= upper <= upper_fence`.
pub proof fn lemma_fair_summary_monotone(t: Seq<i64>)
    requires
        t.len() >= 1,
        is_sorted(t),
    ensures
        fair_summary(t).0 <= fair_summary(t).1,
        fair_summary(t).1 <= fair_summary(t).2,
        fair_summary(t).2 <= fair_summary(t).3,
        fair_summary(t).3 <= fair_summary(t).4,
{
    lemma_rank_quartile200_monotone(t, 1, 2);
    lemma_rank_quartile200_monotone(t, 2, 3);
    lemma_rank_quartile200_in_range(t, 1);
    lemma_rank_quartile200_in_range(t, 3);
}

/// Law: the fences of a "fair" summary never leave the closed range between
/// the sample minimum and the sample maximum.
pub proof fn lemma_fair_fences_within_extrema(t: Seq<i64>)
    requires
        t.len() >= 1,
        is_sorted(t),
    ensures
        200 * t[0] <= fair_summary(t).0,
        fair_summary(t).0 <= 200 * t[t.len() - 1],
        200 * t[0] <= fair_summary(t).4,
        fair_summary(t).4 <= 200 * t[t.len() - 1],
{
    lemma_fair_summary_monotone(t);
    lemma_rank_quartile200_in_range(t, 1);
    lemma_rank_quartile200_in_range(t, 3);
}

/// Law: the three summaries depend only on the multiset of sample values, so
/// rearranging a sample never changes them.
pub proof fn lemma_summary_order_invariant(s1: Seq<i64>, s2: Seq<i64>)
    requires
        s1.to_multiset() == s2.to_multiset(),
    ensures
        sort_seq(s1) == sort_seq(s2),
        linear_summary(sort_seq(s1)) == linear_summary(sort_seq(s2)),
        real_summary(sort_seq(s1)) == real_summary(sort_seq(s2)),
        fair_summary(sort_seq(s1)) == fair_summary(sort_seq(s2)),
{
    lemma_sort_seq_ensures(s1);
    lemma_sort_seq_unique(s2, sort_seq(s1));
}

/// Law: on a one-element sample, every policy puts that element, scaled by
/// 200, in all five positions of the summary.
pub proof fn lemma_single_value_summary(x: i64)
    ensures
        sort_seq(seq![x]) == seq![x],
        linear_summary(seq![x]) == constant_summary(x),
        real_summary(seq![x]) == constant_summary(x),
        fair_summary(seq![x]) == constant_summary(x),
{
    let t: Seq<i64> = seq![x];
    lemma_sort_seq_unique(t, t);
    assert(t.len() == 1);
    assert(rank_quartile200(t, 0) == 200 * x);
    assert(rank_quartile200(t, 1) == 200 * x);
    assert(rank_quartile200(t, 2) == 200 * x);
    assert(rank_quartile200(t, 3) == 200 * x);
    assert(rank_quartile200(t, 4) == 200 * x);
}

} // verus!
