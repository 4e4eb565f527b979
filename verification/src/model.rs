//! The mathematical model of the three quartile policies.
//!
//! All computation is exact.  A statistical value derived from an integer
//! sample by any of the three policies is a rational number whose denominator
//! divides 200, so the model represents each value by its numerator over the
//! fixed denominator 200: the integer `200 * v` stands for the value `v`.
//!
//! Each spec function below takes the *sorted* sample.  The executable
//! functions sort first and are specified against these functions applied to
//! `sort_seq` of their input.

use vstd::prelude::*;

verus! {

/// A five-number summary, scaled by 200:
/// `(lower_fence, lower quartile, median, upper quartile, upper_fence)`.
pub type Summary = (int, int, int, int, int);

/// The value at percentile `pct` of the sorted sample `t`, scaled by 200,
/// under linear interpolation over the rank `(pct / 100) * (len - 1)`.
///
/// A single-element sample yields its element for every percentile, and
/// percentile 100 yields the last element directly.
pub open spec fn percentile200(t: Seq<i64>, pct: int) -> int
    recommends
        t.len() >= 1,
        0 <= pct <= 100,
{
    if t.len() == 1 {
        200 * t[0]
    } else if pct == 100 {
        200 * t[t.len() - 1]
    } else {
        // rank = pct * (len - 1) / 100; interpolate between the elements
        // at floor(rank) and floor(rank) + 1 with the fractional remainder.
        let rank: int = pct * (t.len() - 1);
        let idx: int = rank / 100;
        let frac: int = rank % 100;
        200 * t[idx] + 2 * frac * (t[idx + 1] - t[idx])
    }
}

/// The quartile of the sorted sample `t` at index `p` of the rank formula
/// `alpha = p * (len + 1) / 4`, scaled by 200.
///
/// `p` runs over 0 to 4: 0 is the minimum-side position, 1 to 3 the lower
/// quartile, median and upper quartile, 4 the maximum-side position.  A rank
/// at or below the first element yields the minimum, one at or beyond the
/// last element yields the maximum, and any other rank interpolates between
/// the elements at `k - 1` and `k` with the fractional part of `alpha`.
pub open spec fn rank_quartile200(t: Seq<i64>, p: int) -> int
    recommends
        t.len() >= 1,
        0 <= p <= 4,
{
    let quarters: int = p * (t.len() + 1);
    let k: int = quarters / 4;
    let frac: int = quarters % 4;
    if k == 0 {
        200 * t[0]
    } else if k - 1 >= t.len() - 1 {
        200 * t[t.len() - 1]
    } else {
        200 * t[k - 1] + 50 * frac * (t[k] - t[k - 1])
    }
}

/// The Tukey whisker offset: 1.5 times the interquartile range, scaled by
/// 200.  Exact whenever `iqr200` is even, which holds for every interquartile
/// range either interpolation formula produces.
pub open spec fn whisker200(iqr200: int) -> int {
    (3 * iqr200) / 2
}

/// Policy "linear percentile": quartiles at percentiles 25, 50 and 75, and
/// Tukey fences 1.5 interquartile ranges beyond the outer quartiles.
pub open spec fn linear_summary(t: Seq<i64>) -> Summary
    recommends
        t.len() >= 1,
{
    let lower: int = percentile200(t, 25);
    let mid: int = percentile200(t, 50);
    let upper: int = percentile200(t, 75);
    let whisker: int = whisker200(upper - lower);
    (lower - whisker, lower, mid, upper, upper + whisker)
}

/// Policy "real": quartiles by the `(len + 1) / 4` rank formula, and fences
/// that are the true sample extrema.
pub open spec fn real_summary(t: Seq<i64>) -> Summary
    recommends
        t.len() >= 1,
{
    (
        rank_quartile200(t, 0),
        rank_quartile200(t, 1),
        rank_quartile200(t, 2),
        rank_quartile200(t, 3),
        rank_quartile200(t, 4),
    )
}

/// Policy "fair": quartiles as in policy "real", Tukey fences as in policy
/// "linear percentile", but clamped to the sample extrema.
pub open spec fn fair_summary(t: Seq<i64>) -> Summary
    recommends
        t.len() >= 1,
{
    let lower: int = rank_quartile200(t, 1);
    let mid: int = rank_quartile200(t, 2);
    let upper: int = rank_quartile200(t, 3);
    let whisker: int = whisker200(upper - lower);
    let low_fence: int = if lower - whisker >= rank_quartile200(t, 0) {
        lower - whisker
    } else {
        rank_quartile200(t, 0)
    };
    let high_fence: int = if upper + whisker <= rank_quartile200(t, 4) {
        upper + whisker
    } else {
        rank_quartile200(t, 4)
    };
    (low_fence, lower, mid, upper, high_fence)
}

} // verus!
