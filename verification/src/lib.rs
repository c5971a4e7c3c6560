//! Web-page environmental-efficiency scoring.
//!
//! The crate turns raw page metrics (DOM element count, request count,
//! transfer size) into a deterministic score, letter grade and
//! environmental-impact estimates, drives the fixed interaction sequence of a
//! browser measurement session, and orchestrates an external audit process
//! whose noisy output is reduced to the same score.
//!
//! Fractional quantities (scores, kilobyte sizes, impact estimates) are held
//! as integers in hundredths so that every computation is exact and checkable;
//! quantile positions use a finer scale of one millionth of an index step.

pub mod browser;
pub mod calculator;
mod clock;
pub mod ecoindex;
pub mod errors;
pub mod extract;
pub mod lighthouse;
pub mod metrics;
pub mod paths;
pub mod quantiles;
pub mod registry;
pub mod sidecar;
pub mod text;
