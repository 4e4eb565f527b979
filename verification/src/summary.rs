//! The `Quartiles` type: a five-number summary computed from a sample.
//!
//! A summary holds `[lower_fence, lower, median, upper, upper_fence]`, each
//! value scaled by 200 so that every result of the three interpolation
//! policies is exact (see the crate root).  A sample must be non-empty; the
//! constructors state that precondition rather than failing at run time.

use vstd::prelude::*;
use vstd::slice::slice_to_vec;

use crate::laws::{
    lemma_fair_fences_within_extrema, lemma_fair_summary_monotone, lemma_linear_summary_monotone,
    lemma_percentile200_in_range, lemma_percentile200_monotone, lemma_rank_quartile200_in_range,
    lemma_rank_quartile200_monotone, lemma_real_summary_monotone,
};
use crate::model::{fair_summary, linear_summary, percentile200, rank_quartile200, real_summary, Summary};
use crate::sorting::{lemma_sort_seq_ensures, sort_seq, sort_values};

verus! {

/// A five-number summary of a sample: Tukey or extremal fences around the
/// three quartiles, each value scaled by 200.
#[derive(Clone, Copy, Debug)]
pub struct Quartiles {
    pub lower_fence: i128,
    pub lower: i128,
    pub median: i128,
    pub upper: i128,
    pub upper_fence: i128,
}

impl Quartiles {
    /// The five values as mathematical integers, in summary order.
    pub open spec fn model(self) -> Summary {
        (
            self.lower_fence as int,
            self.lower as int,
            self.median as int,
            self.upper as int,
            self.upper_fence as int,
        )
    }

    /// The five values ascend from the lower fence to the upper fence.
    pub open spec fn wf(self) -> bool {
        self.lower_fence <= self.lower <= self.median <= self.upper <= self.upper_fence
    }

    /// The value at percentile `pct` of the sorted sample `s`, scaled by 200,
    /// by linear interpolation over the rank `(pct / 100) * (len - 1)`.
    fn percentile_of_sorted(s: &Vec<i64>, pct: u8) -> (r: i128)
        requires
            s@.len() >= 1,
            pct <= 100,
        ensures
            r as int == percentile200(s@, pct as int),
    {
        let n: usize = s.len();
        if n == 1 {
            return 200 * (s[0] as i128);
        }
        if pct == 100 {
            return 200 * (s[n - 1] as i128);
        }
        proof {
            assert((pct as int) * (n as int - 1) <= 99 * (n as int - 1)) by (nonlinear_arith)
                requires
                    0 <= pct <= 99,
                    n as int - 1 >= 1,
            ;
            assert((pct as int) * (n as int - 1) >= 0) by (nonlinear_arith)
                requires
                    0 <= pct,
                    n as int - 1 >= 1,
            ;
        }
        let rank: u128 = (pct as u128) * ((n - 1) as u128);
        let idx_wide: u128 = rank / 100;
        let frac: u128 = rank % 100;
        proof {
            assert(rank < 100 * (n as int - 1));
            assert(idx_wide < n as int - 1);
        }
        let idx: usize = idx_wide as usize;
        let lo: i128 = s[idx] as i128;
        let hi: i128 = s[idx + 1] as i128;
        let d: i128 = hi - lo;
        proof {
            let ff: int = frac as int;
            let dd: int = d as int;
            assert(2 * ff * dd <= 200 * 0x2_0000_0000_0000_0000 && 2 * ff * dd >= -200
                * 0x2_0000_0000_0000_0000) by (nonlinear_arith)
                requires
                    0 <= ff <= 99,
                    -0x2_0000_0000_0000_0000 <= dd <= 0x2_0000_0000_0000_0000,
            ;
        }
        200 * lo + 2 * (frac as i128) * d
    }

    /// The quartile of the sorted sample `s` at index `p` of the rank formula
    /// `alpha = p * (len + 1) / 4`, scaled by 200.
    fn rank_quartile_of_sorted(s: &Vec<i64>, p: u8) -> (r: i128)
        requires
            s@.len() >= 1,
            p <= 4,
        ensures
            r as int == rank_quartile200(s@, p as int),
    {
        let n: usize = s.len();
        proof {
            assert(0 <= (p as int) * (n as int + 1) && (p as int) * (n as int + 1) <= 4 * (
            n as int + 1)) by (nonlinear_arith)
                requires
                    0 <= p <= 4,
                    n as int + 1 >= 1,
            ;
        }
        let quarters: u128 = (p as u128) * ((n as u128) + 1);
        let k: u128 = quarters / 4;
        let frac: u128 = quarters % 4;
        if k == 0 {
            return 200 * (s[0] as i128);
        }
        if k - 1 >= ((n - 1) as u128) {
            return 200 * (s[n - 1] as i128);
        }
        let idx: usize = (k - 1) as usize;
        let lo: i128 = s[idx] as i128;
        let hi: i128 = s[idx + 1] as i128;
        let d: i128 = hi - lo;
        proof {
            let ff: int = frac as int;
            let dd: int = d as int;
            assert(50 * ff * dd <= 200 * 0x2_0000_0000_0000_0000 && 50 * ff * dd >= -200
                * 0x2_0000_0000_0000_0000) by (nonlinear_arith)
                requires
                    0 <= ff <= 3,
                    -0x2_0000_0000_0000_0000 <= dd <= 0x2_0000_0000_0000_0000,
            ;
        }
        200 * lo + 50 * (frac as i128) * d
    }

    /// The Tukey whisker length `1.5 * iqr`, scaled by 200.
    fn whisker_of_iqr(iqr: i128) -> (r: i128)
        requires
            0 <= iqr <= 400 * 0x8000_0000_0000_0000,
        ensures
            r as int == crate::model::whisker200(iqr as int),
    {
        let wide: u128 = (3 * (iqr as u128)) / 2;
        wide as i128
    }

    /// Summarise `s` under the "linear percentile" policy: quartiles at
    /// percentiles 25, 50 and 75 of the sorted sample, and Tukey fences 1.5
    /// interquartile ranges beyond the outer quartiles.
    ///
    /// The sample must be non-empty.
    pub fn new(s: &[i64]) -> (q: Quartiles)
        requires
            s@.len() >= 1,
        ensures
            q.model() == linear_summary(sort_seq(s@)),
            q.wf(),
    {
        let mut v: Vec<i64> = slice_to_vec(s);
        sort_values(&mut v);
        proof {
            lemma_sort_seq_ensures(s@);
            lemma_percentile200_in_range(v@, 25);
            lemma_percentile200_in_range(v@, 75);
            lemma_percentile200_monotone(v@, 25, 75);
            lemma_linear_summary_monotone(v@);
        }
        let lower: i128 = Self::percentile_of_sorted(&v, 25);
        let mid: i128 = Self::percentile_of_sorted(&v, 50);
        let upper: i128 = Self::percentile_of_sorted(&v, 75);
        let whisker: i128 = Self::whisker_of_iqr(upper - lower);
        Quartiles {
            lower_fence: lower - whisker,
            lower,
            median: mid,
            upper,
            upper_fence: upper + whisker,
        }
    }

    /// Summarise `s` under the "real" policy: quartiles by the
    /// `(len + 1) / 4` rank formula on the sorted sample, and fences that are
    /// the sample extrema.
    ///
    /// The sample must be non-empty.
    pub fn real_fences(s: &[i64]) -> (q: Quartiles)
        requires
            s@.len() >= 1,
        ensures
            q.model() == real_summary(sort_seq(s@)),
            q.wf(),
    {
        let mut v: Vec<i64> = slice_to_vec(s);
        sort_values(&mut v);
        proof {
            lemma_sort_seq_ensures(s@);
            lemma_real_summary_monotone(v@);
        }
        let lower_fence: i128 = Self::rank_quartile_of_sorted(&v, 0);
        let lower: i128 = Self::rank_quartile_of_sorted(&v, 1);
        let mid: i128 = Self::rank_quartile_of_sorted(&v, 2);
        let upper: i128 = Self::rank_quartile_of_sorted(&v, 3);
        let upper_fence: i128 = Self::rank_quartile_of_sorted(&v, 4);
        Quartiles { lower_fence, lower, median: mid, upper, upper_fence }
    }

    /// Summarise `s` under the "fair" policy: quartiles as in
    /// [`Self::real_fences`],
    /// Tukey fences as in [`Self::new`], but clamped so that neither fence
    /// leaves the range of the sample.
    ///
    /// The sample must be non-empty.
    pub fn fair(s: &[i64]) -> (q: Quartiles)
        requires
            s@.len() >= 1,
        ensures
            q.model() == fair_summary(sort_seq(s@)),
            q.wf(),
    {
        let mut v: Vec<i64> = slice_to_vec(s);
        sort_values(&mut v);
        proof {
            lemma_sort_seq_ensures(s@);
            lemma_rank_quartile200_in_range(v@, 1);
            lemma_rank_quartile200_in_range(v@, 3);
            lemma_rank_quartile200_monotone(v@, 1, 3);
            lemma_fair_summary_monotone(v@);
            lemma_fair_fences_within_extrema(v@);
        }
        let lower: i128 = Self::rank_quartile_of_sorted(&v, 1);
        let mid: i128 = Self::rank_quartile_of_sorted(&v, 2);
        let upper: i128 = Self::rank_quartile_of_sorted(&v, 3);
        let whisker: i128 = Self::whisker_of_iqr(upper - lower);
        let low_extreme: i128 = Self::rank_quartile_of_sorted(&v, 0);
        let high_extreme: i128 = Self::rank_quartile_of_sorted(&v, 4);
        let tukey_low: i128 = lower - whisker;
        let tukey_high: i128 = upper + whisker;
        let lower_fence: i128 = if tukey_low >= low_extreme {
            tukey_low
        } else {
            low_extreme
        };
        let upper_fence: i128 = if tukey_high <= high_extreme {
            tukey_high
        } else {
            high_extreme
        };
        Quartiles { lower_fence, lower, median: mid, upper, upper_fence }
    }

    /// The five values, scaled by 200, in the order
    /// `[lower_fence, lower, median, upper, upper_fence]`.
    pub fn values(&self) -> (r: [i128; 5])
        ensures
            r@ == seq![
                self.lower_fence,
                self.lower,
                self.median,
                self.upper,
                self.upper_fence,
            ],
    {
        let r: [i128; 5] = [self.lower_fence, self.lower, self.median, self.upper, self.upper_fence];
        proof {
            assert(r@ =~= seq![
                self.lower_fence,
                self.lower,
                self.median,
                self.upper,
                self.upper_fence,
            ]);
        }
        r
    }

    /// The median, scaled by 200.
    pub fn median(&self) -> (r: i128)
        ensures
            r == self.median,
    {
        self.median
    }
}

} // verus!
