//! The wall clock, read through `chrono`.

use chrono::Utc;
use vstd::prelude::*;

verus! {

/// Seconds since the Unix epoch, from `chrono::Utc::now().timestamp()`.
///
/// Trusted, and nothing is claimed of the value: it depends on the machine's
/// clock, so two calls may differ. `Utc::now` panics when the system clock
/// is set before the epoch.
#[verifier::external_body]
pub(crate) fn current_timestamp() -> (seconds: i64) {
    Utc::now().timestamp()
}

} // verus!
