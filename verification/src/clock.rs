//! The wall clock, read through the `chrono` crate.
use vstd::prelude::*;

verus! {

/// Relies on `chrono::Utc::now`: the current time in milliseconds since the
/// Unix epoch. Nothing is promised of the value: it depends on the clock.
#[verifier::external_body]
pub fn now_millis() -> i64 {
    chrono::Utc::now().timestamp_millis()
}

} // verus!
