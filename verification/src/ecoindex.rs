//! Score results and letter grades.

use vstd::prelude::*;
use crate::metrics::PageMetrics;

verus! {

/// Grade from A (best) to G (worst).
#[derive(Debug, Clone, Copy, PartialEq, Eq, Structural, PartialOrd, Ord, Hash)]
pub enum EcoIndexGrade {
    /// Excellent (score >= 80).
    A,
    /// Very good (score >= 70).
    B,
    /// Good (score >= 55).
    C,
    /// Average (score >= 40).
    D,
    /// Below average (score >= 25).
    E,
    /// Poor (score >= 10).
    F,
    /// Very poor (score < 10).
    G,
}

/// The grade of a score given in hundredths of a point.
pub open spec fn grade_from_score(score: int) -> EcoIndexGrade {
    if score >= 8000 {
        EcoIndexGrade::A
    } else if score >= 7000 {
        EcoIndexGrade::B
    } else if score >= 5500 {
        EcoIndexGrade::C
    } else if score >= 4000 {
        EcoIndexGrade::D
    } else if score >= 2500 {
        EcoIndexGrade::E
    } else if score >= 1000 {
        EcoIndexGrade::F
    } else {
        EcoIndexGrade::G
    }
}

/// The CSS color of a grade.
pub open spec fn grade_color(g: EcoIndexGrade) -> Seq<char> {
    match g {
        EcoIndexGrade::A => "#349a47"@,
        EcoIndexGrade::B => "#51b84b"@,
        EcoIndexGrade::C => "#cadb2a"@,
        EcoIndexGrade::D => "#f6eb15"@,
        EcoIndexGrade::E => "#fecd06"@,
        EcoIndexGrade::F => "#f99839"@,
        EcoIndexGrade::G => "#ed2124"@,
    }
}

/// The human-readable label of a grade.
pub open spec fn grade_label(g: EcoIndexGrade) -> Seq<char> {
    match g {
        EcoIndexGrade::A => "Excellent"@,
        EcoIndexGrade::B => "Very Good"@,
        EcoIndexGrade::C => "Good"@,
        EcoIndexGrade::D => "Average"@,
        EcoIndexGrade::E => "Below Average"@,
        EcoIndexGrade::F => "Poor"@,
        EcoIndexGrade::G => "Very Poor"@,
    }
}

impl EcoIndexGrade {
    /// Determines the grade from a score in hundredths of a point (0..=10000).
    pub fn from_score(score: u64) -> (g: EcoIndexGrade)
        ensures
            g == grade_from_score(score as int),
    {
        if score >= 8000 {
            EcoIndexGrade::A
        } else if score >= 7000 {
            EcoIndexGrade::B
        } else if score >= 5500 {
            EcoIndexGrade::C
        } else if score >= 4000 {
            EcoIndexGrade::D
        } else if score >= 2500 {
            EcoIndexGrade::E
        } else if score >= 1000 {
            EcoIndexGrade::F
        } else {
            EcoIndexGrade::G
        }
    }

    /// The CSS color for this grade.
    pub fn color(&self) -> (r: &'static str)
        ensures
            r@ == grade_color(*self),
    {
        match self {
            EcoIndexGrade::A => "#349a47",
            EcoIndexGrade::B => "#51b84b",
            EcoIndexGrade::C => "#cadb2a",
            EcoIndexGrade::D => "#f6eb15",
            EcoIndexGrade::E => "#fecd06",
            EcoIndexGrade::F => "#f99839",
            EcoIndexGrade::G => "#ed2124",
        }
    }

    /// A human-readable label for this grade.
    pub fn label(&self) -> (r: &'static str)
        ensures
            r@ == grade_label(*self),
    {
        match self {
            EcoIndexGrade::A => "Excellent",
            EcoIndexGrade::B => "Very Good",
            EcoIndexGrade::C => "Good",
            EcoIndexGrade::D => "Average",
            EcoIndexGrade::E => "Below Average",
            EcoIndexGrade::F => "Poor",
            EcoIndexGrade::G => "Very Poor",
        }
    }
}

impl Default for EcoIndexGrade {
    /// The worst grade, used as a fallback.
    fn default() -> (g: EcoIndexGrade)
        ensures
            g == EcoIndexGrade::G,
    {
        EcoIndexGrade::G
    }
}

/// Result of one complete scoring run.
///
/// Created exactly once per analysis and never mutated. Score, greenhouse-gas
/// and water estimates are in hundredths of their unit.
#[derive(Debug, Clone)]
pub struct EcoIndexResult {
    /// Score in hundredths of a point, 0..=10000.
    pub score: u64,
    /// Letter grade, 'A'..='G'.
    pub grade: char,
    /// Greenhouse gas emissions in hundredths of a gram CO2e per page view.
    pub ghg: u64,
    /// Water consumption in hundredths of a centiliter per page view.
    pub water: u64,
    /// The raw metrics the score was computed from.
    pub metrics: PageMetrics,
    /// URL of the analyzed page.
    pub url: String,
    /// Capture time of the analysis.
    pub timestamp: String,
}

impl EcoIndexResult {
    /// Bundles a finished computation into a result record.
    pub fn new(
        score: u64,
        grade: char,
        ghg: u64,
        water: u64,
        metrics: PageMetrics,
        url: String,
        timestamp: String,
    ) -> (r: EcoIndexResult)
        ensures
            r.score == score,
            r.grade == grade,
            r.ghg == ghg,
            r.water == water,
            r.metrics == metrics,
            r.url == url,
            r.timestamp == timestamp,
    {
        EcoIndexResult { score, grade, ghg, water, metrics, url, timestamp }
    }
}

} // verus!
