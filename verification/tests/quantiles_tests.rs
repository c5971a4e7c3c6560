//! The quantile tables: shape and ordering.

use ecoindex_analyzer::quantiles::{
    DOM_QUANTILES, GRADE_THRESHOLDS, REQUEST_QUANTILES, SIZE_QUANTILES,
};

fn is_sorted(t: &[u64]) -> bool {
    let mut i = 1;
    while i < t.len() {
        if t[i - 1] > t[i] {
            return false;
        }
        i += 1;
    }
    true
}

#[test]
fn test_dom_quantiles_length() {
    assert_eq!(DOM_QUANTILES.len(), 21);
}

#[test]
fn test_request_quantiles_length() {
    assert_eq!(REQUEST_QUANTILES.len(), 21);
}

#[test]
fn test_size_quantiles_length() {
    assert_eq!(SIZE_QUANTILES.len(), 21);
}

#[test]
fn test_dom_quantiles_sorted() {
    assert!(is_sorted(&DOM_QUANTILES));
}

#[test]
fn test_request_quantiles_sorted() {
    assert!(is_sorted(&REQUEST_QUANTILES));
}

#[test]
fn test_size_quantiles_sorted() {
    assert!(is_sorted(&SIZE_QUANTILES));
}

#[test]
fn test_grade_thresholds_descending_to_zero() {
    let mut i = 1;
    while i < GRADE_THRESHOLDS.len() {
        assert!(GRADE_THRESHOLDS[i - 1].0 > GRADE_THRESHOLDS[i].0);
        i += 1;
    }
    assert_eq!(GRADE_THRESHOLDS[GRADE_THRESHOLDS.len() - 1].0, 0);
}
