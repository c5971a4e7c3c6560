//! Official quantile tables and grade thresholds.
//!
//! The tables are ascending breakpoint arrays derived from the HTTP Archive
//! dataset, one per metric (DOM element count, request count, transfer size).
//! Each holds 21 breakpoints, i.e. 20 intervals. Values are stored in
//! hundredths of the metric's unit, so the size table is in hundredths of a
//! kilobyte.
//!
//! Metric weights in the score formula: DOM elements 3, requests 2, size 1.

use vstd::prelude::*;

verus! {

/// Number of breakpoints in each quantile table.
pub const TABLE_LEN: usize = 21;

/// Quantile distribution for DOM element counts, in hundredths.
pub const DOM_QUANTILES: [u64; 21] = [
    0, 4700, 7500, 15900, 23300, 29800, 35800, 41700, 47600, 53700, 60300,
    67400, 75300, 84300, 94900, 107600, 123700, 145900, 180100, 247900,
    59460100,
];

/// Quantile distribution for HTTP request counts, in hundredths.
pub const REQUEST_QUANTILES: [u64; 21] = [
    0, 200, 1500, 2500, 3400, 4200, 4900, 5600, 6300, 7000, 7800, 8600, 9500,
    10500, 11700, 13000, 14700, 17000, 20500, 28100, 392000,
];

/// Quantile distribution for transfer sizes, in hundredths of a kilobyte.
pub const SIZE_QUANTILES: [u64; 21] = [
    0, 137, 14470, 31953, 47946, 63197, 78338, 93791, 109862, 126547, 144832,
    164827, 187608, 214206, 246537, 286631, 340159, 415573, 540008, 803754,
    22321226,
];

/// A quantile table is sorted in non-decreasing order.
pub open spec fn table_sorted(t: Seq<u64>) -> bool {
    forall|i: int, j: int| 0 <= i <= j < t.len() ==> t[i] <= t[j]
}

/// Grade thresholds, descending: the grade of a score is the letter of the
/// first entry whose threshold the score reaches. Thresholds are in
/// hundredths of a point; the last one is 0 so the scan is total.
pub const GRADE_THRESHOLDS: [(u64, char); 7] = [
    (8100, 'A'),
    (7100, 'B'),
    (6100, 'C'),
    (5100, 'D'),
    (4100, 'E'),
    (3100, 'F'),
    (0, 'G'),
];

} // verus!
