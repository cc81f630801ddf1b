//! Counting stores.
//!
//! A store keeps one counter per identifier and resets a counter once its
//! fixed window (the time-to-live, TTL) has elapsed since the counter's
//! creation. [`mem_store`] holds the counters in process memory and is
//! verified end to end; [`redis_store`] holds the computational half of a
//! store that delegates the counting to an external key-value service.

pub mod mem_store;
pub mod redis_store;

use vstd::prelude::*;

verus! {

/// The instant at which a window that began at `create_date` and lives for
/// `ttl` milliseconds ends, saturated at the top of the representable range.
pub open spec fn spec_window_end(create_date: u64, ttl: u64) -> u64 {
    if create_date + ttl <= u64::MAX {
        (create_date + ttl) as u64
    } else {
        u64::MAX
    }
}

/// Compute [`spec_window_end`].
pub fn window_end(create_date: u64, ttl: u64) -> (r: u64)
    ensures
        r == spec_window_end(create_date, ttl),
{
    create_date.saturating_add(ttl)
}

} // verus!
