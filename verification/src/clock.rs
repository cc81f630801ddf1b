//! Access to the wall clock.

use vstd::prelude::*;

verus! {

/// Relies on chrono's `From<SystemTime>` conversion for `DateTime<Utc>`
/// (which represents a clock set before the Unix epoch as a negative
/// timestamp instead of panicking) and on `DateTime::timestamp_millis`: the
/// current instant, as milliseconds since the Unix epoch, clamped below at
/// zero. Nothing is promised of the value: it depends on the wall clock.
#[verifier::external_body]
pub fn now_millis() -> u64 {
    let now = chrono::DateTime::<chrono::Utc>::from(std::time::SystemTime::now());
    let ms: i64 = now.timestamp_millis();
    if ms < 0 {
        0
    } else {
        ms as u64
    }
}

} // verus!
