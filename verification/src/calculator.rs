//! Deterministic quantile-based score calculator.
//!
//! A metric's quantile position is a point in the closed band [0, 20]: 0 at
//! or below the first breakpoint, 20 at or above the last, and linear
//! interpolation inside the bracketing interval otherwise. Positions are held
//! in millionths of an index step; scores and impact estimates in hundredths.

use vstd::prelude::*;
use vstd::arithmetic::div_mod::{
    lemma_div_is_ordered, lemma_div_pos_is_pos, lemma_multiply_divide_lt, lemma_div_by_self,
};
use vstd::arithmetic::mul::{lemma_mul_inequality, lemma_mul_strict_inequality};
use crate::quantiles::{
    table_sorted, DOM_QUANTILES, GRADE_THRESHOLDS, REQUEST_QUANTILES, SIZE_QUANTILES,
};
use crate::metrics::PageMetrics;
use crate::ecoindex::EcoIndexResult;

verus! {

/// Millionths of an index step: the resolution of a quantile position.
pub const POSITION_SCALE: u64 = 1_000_000;

/// Largest admissible breakpoint; keeps the interpolation product within u64.
pub const BREAKPOINT_LIMIT: u64 = 18_000_000_000_000;

/// Linear interpolation, in millionths, of `v` within the interval [lo, hi).
pub open spec fn interp_micro(v: int, lo: int, hi: int) -> int {
    (v - lo) * (POSITION_SCALE as int) / (hi - lo)
}

/// Position of `v` in table `t` scanning from index `i` upward: the first
/// index whose breakpoint exceeds `v` closes the bracketing interval.
pub open spec fn scan_position(v: int, t: Seq<u64>, i: int) -> int
    decreases t.len() - i,
{
    if i < t.len() {
        if v < t[i] {
            (i - 1) * (POSITION_SCALE as int) + interp_micro(v, t[i - 1] as int, t[i] as int)
        } else {
            scan_position(v, t, i + 1)
        }
    } else {
        (t.len() - 1) * (POSITION_SCALE as int)
    }
}

/// The quantile position of `v` in table `t`, in millionths of an index step.
pub open spec fn quantile_position(v: int, t: Seq<u64>) -> int {
    if v <= t[0] {
        0
    } else if v >= t[t.len() - 1] {
        (t.len() - 1) * (POSITION_SCALE as int)
    } else {
        scan_position(v, t, 1)
    }
}

/// Weighted sum of the three quantile positions, in millionths:
/// DOM weight 3, requests weight 2, size weight 1. Raw DOM and request
/// counts are scaled to hundredths to match the tables.
pub open spec fn weighted_micro(dom: int, requests: int, size_centi: int) -> int {
    3 * quantile_position(100 * dom, DOM_QUANTILES@)
        + 2 * quantile_position(100 * requests, REQUEST_QUANTILES@)
        + quantile_position(size_centi, SIZE_QUANTILES@)
}

/// The score, in hundredths of a point: 100 - 5 * weighted / 6, where
/// weighted is the weighted quantile sum in index steps.
pub open spec fn score_centi(dom: int, requests: int, size_centi: int) -> int {
    10000 - weighted_micro(dom, requests, size_centi) / 12000
}

/// The grade of a score in hundredths: the letter of the first
/// grade-threshold entry, scanned in descending order, that the score
/// reaches.
pub open spec fn grade_of(score: int) -> char {
    if score >= 8100 {
        'A'
    } else if score >= 7100 {
        'B'
    } else if score >= 6100 {
        'C'
    } else if score >= 5100 {
        'D'
    } else if score >= 4100 {
        'E'
    } else if score >= 3100 {
        'F'
    } else {
        'G'
    }
}

/// Greenhouse-gas estimate in hundredths of a gram CO2e: 2 + 2*(100-s)/100.
pub open spec fn ghg_centi(score: int) -> int {
    200 + (10000 - score) / 50
}

/// Water-consumption estimate in hundredths of a centiliter: 3 + 3*(100-s)/100.
pub open spec fn water_centi(score: int) -> int {
    300 + 3 * (10000 - score) / 100
}

/// The three quantile tables are sorted, 21 entries each, and small enough
/// for exact interpolation arithmetic.
pub proof fn lemma_tables_wf()
    ensures
        table_sorted(DOM_QUANTILES@),
        table_sorted(REQUEST_QUANTILES@),
        table_sorted(SIZE_QUANTILES@),
        DOM_QUANTILES@.len() == 21,
        REQUEST_QUANTILES@.len() == 21,
        SIZE_QUANTILES@.len() == 21,
        DOM_QUANTILES@[20] <= BREAKPOINT_LIMIT,
        REQUEST_QUANTILES@[20] <= BREAKPOINT_LIMIT,
        SIZE_QUANTILES@[20] <= BREAKPOINT_LIMIT,
{
}

/// Within one scan, the position stays in the band the start index allows:
/// at least (i-1) steps and strictly below the last index, in millionths.
proof fn lemma_scan_bounds(v: int, t: Seq<u64>, i: int)
    requires
        table_sorted(t),
        1 <= i < t.len(),
        t[i - 1] <= v,
        v < t[t.len() - 1],
    ensures
        (i - 1) * (POSITION_SCALE as int) <= scan_position(v, t, i)
            < (t.len() - 1) * (POSITION_SCALE as int),
    decreases t.len() - i,
{
    let s = POSITION_SCALE as int;
    if v < t[i] {
        let lo = t[i - 1] as int;
        let hi = t[i] as int;
        lemma_div_pos_is_pos((v - lo) * s, hi - lo);
        lemma_mul_strict_inequality(v - lo, hi - lo, s);
        lemma_multiply_divide_lt((v - lo) * s, hi - lo, s);
        lemma_mul_inequality(i, t.len() - 1, s);
    } else {
        assert(i + 1 < t.len());
        lemma_scan_bounds(v, t, i + 1);
        lemma_mul_inequality(i - 1, i, s);
    }
}

/// Within one scan, a larger value never yields a smaller position.
proof fn lemma_scan_monotonic(v1: int, v2: int, t: Seq<u64>, i: int)
    requires
        table_sorted(t),
        1 <= i < t.len(),
        t[i - 1] <= v1 <= v2,
        v2 < t[t.len() - 1],
    ensures
        scan_position(v1, t, i) <= scan_position(v2, t, i),
    decreases t.len() - i,
{
    let s = POSITION_SCALE as int;
    let lo = t[i - 1] as int;
    let hi = t[i] as int;
    if v1 < t[i] {
        if v2 < t[i] {
            lemma_mul_inequality(v1 - lo, v2 - lo, s);
            lemma_div_is_ordered((v1 - lo) * s, (v2 - lo) * s, hi - lo);
        } else {
            lemma_mul_strict_inequality(v1 - lo, hi - lo, s);
            lemma_multiply_divide_lt((v1 - lo) * s, hi - lo, s);
            assert(i + 1 < t.len());
            lemma_scan_bounds(v2, t, i + 1);
        }
    } else {
        lemma_scan_monotonic(v1, v2, t, i + 1);
    }
}

/// A scan that rules out every breakpoint below `j` lands in the interval
/// closed by `j`.
proof fn lemma_scan_at_bracket(v: int, t: Seq<u64>, i: int, j: int)
    requires
        table_sorted(t),
        1 <= i <= j < t.len(),
        forall|k: int| i <= k < j ==> t[k] <= v,
        v < t[j],
    ensures
        scan_position(v, t, i) == (j - 1) * (POSITION_SCALE as int) + interp_micro(
            v,
            t[j - 1] as int,
            t[j] as int,
        ),
    decreases j - i,
{
    if i < j {
        lemma_scan_at_bracket(v, t, i + 1, j);
    }
}

/// Law: for a fixed sorted table, the quantile position is monotonically
/// non-decreasing in the value; it is 0 at or below the first breakpoint and
/// 20 steps at or above the last.
pub proof fn lemma_quantile_position_monotonic(v1: int, v2: int, t: Seq<u64>)
    requires
        table_sorted(t),
        t.len() == 21,
        v1 <= v2,
    ensures
        quantile_position(v1, t) <= quantile_position(v2, t),
        v1 <= t[0] ==> quantile_position(v1, t) == 0,
        v2 > t[0] && v2 >= t[20] ==> quantile_position(v2, t) == 20 * (POSITION_SCALE as int),
{
    if v1 <= t[0] {
        if t[0] < v2 < t[20] {
            lemma_scan_bounds(v2, t, 1);
        }
    } else if v2 >= t[20] {
        if t[0] < v1 < t[20] {
            lemma_scan_bounds(v1, t, 1);
        }
    } else {
        lemma_scan_monotonic(v1, v2, t, 1);
    }
}

/// Law: a value strictly between two consecutive breakpoints yields a
/// position strictly between their indices, provided the value clears the
/// interval's resolution floor: the offset into the interval, in millionths,
/// must reach the interval's width.
pub proof fn lemma_quantile_position_strictly_between(v: int, t: Seq<u64>, j: int)
    requires
        table_sorted(t),
        t.len() == 21,
        1 <= j <= 20,
        t[j - 1] < v < t[j],
        (v - t[j - 1]) * (POSITION_SCALE as int) >= t[j] - t[j - 1],
    ensures
        (j - 1) * (POSITION_SCALE as int) < quantile_position(v, t) < j * (
        POSITION_SCALE as int),
{
    let s = POSITION_SCALE as int;
    let lo = t[j - 1] as int;
    let hi = t[j] as int;
    assert(t[0] <= t[j - 1]);
    assert(t[j] <= t[20]);
    assert(forall|k: int| 1 <= k < j ==> t[k] <= v);
    lemma_scan_at_bracket(v, t, 1, j);
    lemma_div_is_ordered(hi - lo, (v - lo) * s, hi - lo);
    lemma_div_by_self(hi - lo);
    lemma_mul_strict_inequality(v - lo, hi - lo, s);
    lemma_multiply_divide_lt((v - lo) * s, hi - lo, s);
}

/// Calculator for scores, grades and impact estimates.
pub struct EcoIndexCalculator;

impl EcoIndexCalculator {
    /// Calculates the quantile position of a value within a sorted table.
    ///
    /// Value and table are in hundredths of the metric's unit; the result is
    /// in millionths of an index step, in [0, 20 * POSITION_SCALE].
    pub fn get_quantile_position(value: u64, quantiles: &[u64; 21]) -> (r: u64)
        requires
            table_sorted(quantiles@),
            quantiles@[20] <= BREAKPOINT_LIMIT,
        ensures
            r == quantile_position(value as int, quantiles@),
            r <= 20 * POSITION_SCALE,
            value <= quantiles@[0] ==> r == 0,
            value > quantiles@[0] && value >= quantiles@[20] ==> r == 20 * POSITION_SCALE,
    {
        if value <= quantiles[0] {
            return 0;
        }
        if value >= quantiles[20] {
            return 20 * POSITION_SCALE;
        }
        let mut i: usize = 1;
        loop
            invariant
                1 <= i < 21,
                table_sorted(quantiles@),
                quantiles@[20] <= BREAKPOINT_LIMIT,
                quantiles@[0] < value < quantiles@[20],
                forall|j: int| 1 <= j < i ==> quantiles@[j] <= value,
                scan_position(value as int, quantiles@, 1)
                    == scan_position(value as int, quantiles@, i as int),
            decreases 21 - i,
        {
            if value < quantiles[i] {
                let lower = quantiles[i - 1];
                let upper = quantiles[i];
                proof {
                    assert(lower <= value);
                    assert(upper <= quantiles@[20]);
                    lemma_mul_strict_inequality(
                        value - lower,
                        upper - lower,
                        POSITION_SCALE as int,
                    );
                    lemma_multiply_divide_lt(
                        (value - lower) * (POSITION_SCALE as int),
                        upper - lower,
                        POSITION_SCALE as int,
                    );
                    lemma_div_pos_is_pos(
                        (value - lower) * (POSITION_SCALE as int),
                        upper - lower,
                    );
                }
                let frac = (value - lower) * POSITION_SCALE / (upper - lower);
                return ((i as u64) - 1) * POSITION_SCALE + frac;
            }
            i += 1;
            if i == 21 {
                proof {
                    assert(quantiles@[20] <= value);
                    assert(false);
                }
                return 20 * POSITION_SCALE;
            }
        }
    }

    /// Computes the score, in hundredths of a point, from page metrics.
    ///
    /// Formula: 100 - 5 * (3*q_dom + 2*q_req + q_size) / 6, clamped to
    /// [0, 100]; with positions held in millionths the clamp is inherent.
    pub fn compute_score(metrics: &PageMetrics) -> (score: u64)
        ensures
            score == score_centi(
                metrics.dom_elements as int,
                metrics.requests as int,
                metrics.size_kb_centi as int,
            ),
            score <= 10000,
    {
        proof {
            lemma_tables_wf();
        }
        let q_dom = Self::get_quantile_position(
            (metrics.dom_elements as u64) * 100,
            &DOM_QUANTILES,
        );
        let q_req = Self::get_quantile_position(
            (metrics.requests as u64) * 100,
            &REQUEST_QUANTILES,
        );
        let q_size = Self::get_quantile_position(metrics.size_kb_centi, &SIZE_QUANTILES);

        let weighted = 3 * q_dom + 2 * q_req + q_size;
        proof {
            lemma_div_is_ordered(weighted as int, 120_000_000, 12000);
        }
        10000 - weighted / 12000
    }

    /// Determines the grade (A-G) from a score in hundredths of a point.
    pub fn get_grade(score: u64) -> (g: char)
        ensures
            g == grade_of(score as int),
    {
        let mut i: usize = 0;
        while i < 7
            invariant
                i <= 7,
                forall|j: int| 0 <= j < i ==> score < GRADE_THRESHOLDS@[j].0,
            decreases 7 - i,
        {
            let (threshold, grade) = GRADE_THRESHOLDS[i];
            if score >= threshold {
                return grade;
            }
            i += 1;
        }
        'G'
    }

    /// Computes greenhouse-gas emissions, in hundredths of a gram CO2e per
    /// page view, from a score in hundredths.
    pub fn compute_ghg(score: u64) -> (r: u64)
        requires
            score <= 10000,
        ensures
            r == ghg_centi(score as int),
            200 <= r <= 400,
    {
        200 + (10000 - score) / 50
    }

    /// Computes water consumption, in hundredths of a centiliter per page
    /// view, from a score in hundredths.
    pub fn compute_water(score: u64) -> (r: u64)
        requires
            score <= 10000,
        ensures
            r == water_centi(score as int),
            300 <= r <= 600,
    {
        300 + 3 * (10000 - score) / 100
    }

    /// Performs a complete calculation: score, grade, impact estimates and a
    /// capture-time timestamp, bundled into one result.
    pub fn compute(metrics: &PageMetrics, url: &str) -> (r: EcoIndexResult)
        ensures
            r.score == score_centi(
                metrics.dom_elements as int,
                metrics.requests as int,
                metrics.size_kb_centi as int,
            ),
            r.score <= 10000,
            r.grade == grade_of(r.score as int),
            r.ghg == ghg_centi(r.score as int),
            r.water == water_centi(r.score as int),
            r.metrics == *metrics,
            r.url@ == url@,
    {
        let score = Self::compute_score(metrics);
        let grade = Self::get_grade(score);
        let ghg = Self::compute_ghg(score);
        let water = Self::compute_water(score);
        let timestamp = crate::clock::now_rfc3339();
        EcoIndexResult::new(score, grade, ghg, water, *metrics, url.to_owned(), timestamp)
    }
}

} // verus!
