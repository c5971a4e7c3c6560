//! Audit result summary types: sub-scores and Core Web Vitals.

use vstd::prelude::*;

verus! {

/// Threshold for a "good" Largest Contentful Paint, in milliseconds.
pub const LCP_GOOD_MS: u32 = 2500;

/// Threshold for a "poor" Largest Contentful Paint, in milliseconds.
pub const LCP_POOR_MS: u32 = 4000;

/// Threshold for a "good" First Input Delay, in milliseconds.
pub const FID_GOOD_MS: u32 = 100;

/// Threshold for a "poor" First Input Delay, in milliseconds.
pub const FID_POOR_MS: u32 = 300;

/// Threshold for a "good" Cumulative Layout Shift, in thousandths.
pub const CLS_GOOD: u32 = 100;

/// Threshold for a "poor" Cumulative Layout Shift, in thousandths.
pub const CLS_POOR: u32 = 250;

/// Threshold for a "good" Interaction to Next Paint, in milliseconds.
pub const INP_GOOD_MS: u32 = 200;

/// Status of a performance metric against its thresholds.
#[derive(Debug, Clone, Copy, PartialEq, Eq, Structural)]
pub enum MetricStatus {
    /// Metric is in the "good" range.
    Good,
    /// Metric needs improvement.
    NeedsImprovement,
    /// Metric is poor.
    Poor,
}

/// The status of a value against a good and a poor threshold.
pub open spec fn status_of(value: u32, good: u32, poor: u32) -> MetricStatus {
    if value <= good {
        MetricStatus::Good
    } else if value <= poor {
        MetricStatus::NeedsImprovement
    } else {
        MetricStatus::Poor
    }
}

impl MetricStatus {
    /// Determines the status of a value against a good and a poor threshold.
    pub fn from_thresholds(value: u32, good: u32, poor: u32) -> (s: MetricStatus)
        ensures
            s == status_of(value, good, poor),
    {
        if value <= good {
            MetricStatus::Good
        } else if value <= poor {
            MetricStatus::NeedsImprovement
        } else {
            MetricStatus::Poor
        }
    }

    /// The CSS color for this status.
    pub fn color(&self) -> (r: &'static str)
        ensures
            *self == MetricStatus::Good ==> r@ == "#0cce6b"@,
            *self == MetricStatus::NeedsImprovement ==> r@ == "#ffa400"@,
            *self == MetricStatus::Poor ==> r@ == "#ff4e42"@,
    {
        match self {
            MetricStatus::Good => "#0cce6b",
            MetricStatus::NeedsImprovement => "#ffa400",
            MetricStatus::Poor => "#ff4e42",
        }
    }
}

/// Core Web Vitals of one page load.
#[derive(Debug, Clone, PartialEq, Eq, Structural)]
pub struct CoreWebVitals {
    /// Largest Contentful Paint in milliseconds.
    pub lcp_ms: u32,
    /// First Input Delay in milliseconds.
    pub fid_ms: u32,
    /// Cumulative Layout Shift, in thousandths.
    pub cls: u32,
    /// Interaction to Next Paint in milliseconds.
    pub inp_ms: Option<u32>,
}

impl CoreWebVitals {
    /// Whether every vital reaches its "good" threshold.
    pub fn passes(&self) -> (b: bool)
        ensures
            b == (self.lcp_ms <= LCP_GOOD_MS && self.fid_ms <= FID_GOOD_MS && self.cls
                <= CLS_GOOD),
    {
        self.lcp_ms <= LCP_GOOD_MS && self.fid_ms <= FID_GOOD_MS && self.cls <= CLS_GOOD
    }

    /// Status of the Largest Contentful Paint.
    pub fn lcp_status(&self) -> (s: MetricStatus)
        ensures
            s == status_of(self.lcp_ms, LCP_GOOD_MS, LCP_POOR_MS),
    {
        MetricStatus::from_thresholds(self.lcp_ms, LCP_GOOD_MS, LCP_POOR_MS)
    }

    /// Status of the First Input Delay.
    pub fn fid_status(&self) -> (s: MetricStatus)
        ensures
            s == status_of(self.fid_ms, FID_GOOD_MS, FID_POOR_MS),
    {
        MetricStatus::from_thresholds(self.fid_ms, FID_GOOD_MS, FID_POOR_MS)
    }

    /// Status of the Cumulative Layout Shift.
    pub fn cls_status(&self) -> (s: MetricStatus)
        ensures
            s == status_of(self.cls, CLS_GOOD, CLS_POOR),
    {
        MetricStatus::from_thresholds(self.cls, CLS_GOOD, CLS_POOR)
    }
}

/// Detailed performance metrics of one page load.
#[derive(Debug, Clone, PartialEq, Eq, Structural)]
pub struct PerformanceMetrics {
    /// First Contentful Paint in milliseconds.
    pub fcp_ms: u32,
    /// Speed Index in milliseconds.
    pub speed_index_ms: u32,
    /// Time to Interactive in milliseconds.
    pub tti_ms: u32,
    /// Total Blocking Time in milliseconds.
    pub tbt_ms: u32,
    /// Total page weight in bytes.
    pub total_byte_weight: u64,
}

/// Summary of one audit: the four category scores and the load vitals.
#[derive(Debug, Clone, PartialEq, Eq, Structural)]
pub struct LighthouseResult {
    /// Performance score (0-100).
    pub performance: u8,
    /// Accessibility score (0-100).
    pub accessibility: u8,
    /// Best-practices score (0-100).
    pub best_practices: u8,
    /// SEO score (0-100).
    pub seo: u8,
    /// Core Web Vitals.
    pub core_web_vitals: CoreWebVitals,
    /// Detailed performance metrics.
    pub metrics: PerformanceMetrics,
}

impl LighthouseResult {
    /// Whether all Core Web Vitals pass.
    pub fn passes_core_web_vitals(&self) -> (b: bool)
        ensures
            b == (self.core_web_vitals.lcp_ms <= LCP_GOOD_MS && self.core_web_vitals.fid_ms
                <= FID_GOOD_MS && self.core_web_vitals.cls <= CLS_GOOD),
    {
        self.core_web_vitals.passes()
    }

    /// The average of the four category scores, rounded down.
    pub fn average_score(&self) -> (avg: u8)
        ensures
            avg == (self.performance + self.accessibility + self.best_practices + self.seo) / 4,
    {
        let total: u16 = (self.performance as u16) + (self.accessibility as u16)
            + (self.best_practices as u16) + (self.seo as u16);
        (total / 4) as u8
    }
}

} // verus!
