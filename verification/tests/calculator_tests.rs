//! Scoring pipeline tests. Scores and sizes are in hundredths; quantile
//! positions in millionths of an index step.

use ecoindex_analyzer::calculator::EcoIndexCalculator;
use ecoindex_analyzer::metrics::PageMetrics;
use ecoindex_analyzer::quantiles::DOM_QUANTILES;

#[test]
fn test_quantile_position_at_min() {
    assert_eq!(EcoIndexCalculator::get_quantile_position(0, &DOM_QUANTILES), 0);
}

#[test]
fn test_quantile_position_interpolation() {
    // Value 61 lies between breakpoints 47 and 75 (indices 1 and 2).
    let pos = EcoIndexCalculator::get_quantile_position(6100, &DOM_QUANTILES);
    assert!(pos > 1_000_000 && pos < 2_000_000);
}

#[test]
fn test_score_light_page() {
    let metrics = PageMetrics::new(100, 10, 10000); // 100.00 KB
    let score = EcoIndexCalculator::compute_score(&metrics);
    assert!(score >= 8000, "Light page should score A: {score}");
}

#[test]
fn test_score_heavy_page() {
    let metrics = PageMetrics::new(5000, 200, 1_000_000); // 10000.00 KB
    let score = EcoIndexCalculator::compute_score(&metrics);
    assert!(score < 5000, "Heavy page should score low: {score}");
}

#[test]
fn test_grade_thresholds() {
    assert_eq!(EcoIndexCalculator::get_grade(10000), 'A');
    assert_eq!(EcoIndexCalculator::get_grade(8100), 'A');
    assert_eq!(EcoIndexCalculator::get_grade(8000), 'B');
    assert_eq!(EcoIndexCalculator::get_grade(7100), 'B');
    assert_eq!(EcoIndexCalculator::get_grade(7000), 'C');
    assert_eq!(EcoIndexCalculator::get_grade(6100), 'C');
    assert_eq!(EcoIndexCalculator::get_grade(6000), 'D');
    assert_eq!(EcoIndexCalculator::get_grade(5100), 'D');
    assert_eq!(EcoIndexCalculator::get_grade(5000), 'E');
    assert_eq!(EcoIndexCalculator::get_grade(4100), 'E');
    assert_eq!(EcoIndexCalculator::get_grade(4000), 'F');
    assert_eq!(EcoIndexCalculator::get_grade(3100), 'F');
    assert_eq!(EcoIndexCalculator::get_grade(3000), 'G');
    assert_eq!(EcoIndexCalculator::get_grade(0), 'G');
}

#[test]
fn test_ghg_calculation() {
    assert_eq!(EcoIndexCalculator::compute_ghg(10000), 200); // 2.00 g
    assert_eq!(EcoIndexCalculator::compute_ghg(0), 400); // 4.00 g
    assert_eq!(EcoIndexCalculator::compute_ghg(5000), 300); // 3.00 g
}

#[test]
fn test_water_calculation() {
    assert_eq!(EcoIndexCalculator::compute_water(10000), 300); // 3.00 cl
    assert_eq!(EcoIndexCalculator::compute_water(0), 600); // 6.00 cl
    assert_eq!(EcoIndexCalculator::compute_water(5000), 450); // 4.50 cl
}

#[test]
fn test_compute_full_result() {
    let metrics = PageMetrics::new(500, 50, 100_000); // 1000.00 KB
    let result = EcoIndexCalculator::compute(&metrics, "https://example.com");

    assert!(result.score <= 10000);
    assert!(['A', 'B', 'C', 'D', 'E', 'F', 'G'].contains(&result.grade));
    assert!(result.ghg >= 200 && result.ghg <= 400);
    assert!(result.water >= 300 && result.water <= 600);
    assert_eq!(result.url, "https://example.com");
}

#[test]
fn test_quantile_position_at_max() {
    // At or above the last breakpoint the position saturates at 20 steps.
    assert_eq!(
        EcoIndexCalculator::get_quantile_position(59_460_100, &DOM_QUANTILES),
        20_000_000
    );
    assert_eq!(
        EcoIndexCalculator::get_quantile_position(u64::MAX, &DOM_QUANTILES),
        20_000_000
    );
}

#[test]
fn test_quantile_position_monotonic_samples() {
    let mut last: u64 = 0;
    let mut v: u64 = 0;
    while v < 300_000 {
        let pos = EcoIndexCalculator::get_quantile_position(v, &DOM_QUANTILES);
        assert!(pos >= last, "position decreased at {v}");
        last = pos;
        v += 731;
    }
}

#[test]
fn test_quantile_position_exact_midpoint() {
    // 61.00 between 47.00 and 75.00: offset 1400 of width 2800, exactly half.
    let pos = EcoIndexCalculator::get_quantile_position(6100, &DOM_QUANTILES);
    assert_eq!(pos, 1_500_000);
}

#[test]
fn test_compute_score_exact_zero_metrics() {
    // Everything at or below the first breakpoints: all positions 0.
    let metrics = PageMetrics::new(0, 0, 0);
    assert_eq!(EcoIndexCalculator::compute_score(&metrics), 10000);
}

#[test]
fn test_compute_score_exact_saturated_metrics() {
    // Everything at or above the last breakpoints: all positions 20.
    let metrics = PageMetrics::new(600_000, 4000, 23_000_000);
    assert_eq!(EcoIndexCalculator::compute_score(&metrics), 0);
}
