//! Trusted boundary to the wall clock and to the identifier generator.

use vstd::prelude::*;

verus! {

/// Relies on chrono's `Utc::now`: the current wall-clock time, returned
/// as milliseconds since the Unix epoch. The result depends on when the
/// call is made, so nothing is promised of it.
#[verifier::external_body]
pub fn now_millis() -> i64 {
    chrono::Utc::now().timestamp_millis()
}

/// Relies on uuid's `Uuid::new_v4`: a freshly drawn random identifier,
/// returned as its 128-bit value. The result is random, so nothing is
/// promised of it.
#[verifier::external_body]
pub fn new_event_id() -> u128 {
    uuid::Uuid::new_v4().as_u128()
}

} // verus!
