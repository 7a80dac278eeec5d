//! New ids and the time of day: what only the outside world can give.

use vstd::prelude::*;

verus! {

/// Makes a new random id with `Uuid::new_v4` and writes it out. Nothing is
/// promised of it.
#[verifier::external_body]
pub(crate) fn fresh_id() -> (r: String) {
    uuid::Uuid::new_v4().to_string()
}

/// Reads the clock with `Utc::now` and gives the time in milliseconds since
/// the epoch. Nothing is promised of it.
#[verifier::external_body]
pub(crate) fn now_millis() -> (r: i64) {
    chrono::Utc::now().timestamp_millis()
}

} // verus!
