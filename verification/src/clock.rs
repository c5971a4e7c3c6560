//! Capture-time timestamps.

use vstd::prelude::*;

verus! {

/// Relies on chrono::Utc::now, formatted by chrono's DateTime::to_rfc3339:
/// the current wall-clock time. Nothing is promised of the value.
#[verifier::external_body]
pub(crate) fn now_rfc3339() -> String {
    chrono::Utc::now().to_rfc3339()
}

} // verus!
