//! The computational half of the externally coordinated counting store.
//!
//! The counting itself is delegated to an external key-value service through
//! one atomic command batch (set-if-absent with expiry, increment, read value,
//! read remaining time-to-live); the host owns the connection and runs the
//! batch. What is verified here is everything around that round trip: how a
//! logical key is namespaced under the store's prefix, and how the service's
//! reply is turned into the reported snapshot.

use vstd::prelude::*;
use vstd::string::StringExecFns;

verus! {

/// The snapshot the externally coordinated store reports: the post-increment
/// count and the window's expiry. The service does not expose the window's
/// creation instant, so none is reported.
#[derive(Debug, Clone, Copy, PartialEq, Eq, Structural)]
pub struct RateLimitResult {
    pub count: i32,
    pub expire_date: u64,
}

impl RateLimitResult {
    /// The count of the snapshot.
    pub fn count(&self) -> (r: i32)
        ensures
            r == self.count,
    {
        self.count
    }

    /// The instant the snapshot's window began: the external service does not
    /// expose it.
    pub fn create_date(&self) -> (r: Option<u64>)
        ensures
            r == None::<u64>,
    {
        None
    }

    /// The instant the snapshot's window ends.
    pub fn expire_date(&self) -> (r: Option<u64>)
        ensures
            r == Some(self.expire_date),
    {
        Some(self.expire_date)
    }
}

/// An unbounded instant clamped into the representable range.
pub open spec fn spec_clamp_instant(x: int) -> u64 {
    if x < 0 {
        0u64
    } else if x > u64::MAX {
        u64::MAX
    } else {
        x as u64
    }
}

/// The snapshot derived from the service's reply to the atomic batch: the
/// count as the service returned it, and the expiry computed as `now` plus
/// the key's remaining time-to-live in seconds (which the service reports
/// negative for a key without one).
pub fn snapshot_from_reply(count: i32, ttl_secs: i64, now: u64) -> (r: RateLimitResult)
    ensures
        r.count == count,
        r.expire_date == spec_clamp_instant(now + ttl_secs * 1000),
{
    let e: i128 = now as i128 + (ttl_secs as i128) * 1000;
    let expire_date: u64 = if e < 0 {
        0
    } else if e > u64::MAX as i128 {
        u64::MAX
    } else {
        e as u64
    };
    RateLimitResult { count, expire_date }
}

/// The store's configuration: the namespace prefix prepended to every logical
/// key, and the window length in milliseconds handed to the service as the
/// key's expiry. The connection to the service is the host's.
#[derive(Debug, Clone)]
pub struct RedisStoreInner {
    pub prefix: String,
    pub ttl_ms: u64,
}

impl RedisStoreInner {
    /// A configuration with the given namespace prefix and window length
    /// (milliseconds).
    pub fn new(prefix: String, ttl_ms: u64) -> (r: Self)
        ensures
            r.prefix@ == prefix@,
            r.ttl_ms == ttl_ms,
    {
        RedisStoreInner { prefix, ttl_ms }
    }

    /// Read the window length, in milliseconds.
    pub fn ttl_ms(&self) -> (r: u64)
        ensures
            r == self.ttl_ms,
    {
        self.ttl_ms
    }

    /// The service-side key for a logical key: the prefix, a dash, the key.
    /// The namespacing lets independent limiters share one keyspace without
    /// collision.
    pub fn get_key(&self, key: &str) -> (r: String)
        ensures
            r@ == self.prefix@ + "-"@ + key@,
    {
        let mut r = self.prefix.clone();
        r.append("-");
        r.append(key);
        r
    }
}

} // verus!
