//! The process-wide gate that spaces outbound balance queries.
//!
//! Every query, regardless of provider or address, passes through one
//! shared limiter: external providers rate-limit by source, so the
//! minimum spacing must be global. The limiter itself holds no clock;
//! the caller reads a monotonic clock, asks [`RateLimiter::acquire_at`]
//! how long to wait, sleeps that long outside the library, and the
//! limiter records the moment the slot was handed out.

use vstd::prelude::*;

verus! {

/// The minimum spacing between two outbound balance queries, in
/// milliseconds.
pub const MIN_REQUEST_INTERVAL_MS: u64 = 250;

/// A gate that hands out query slots no closer together than its
/// configured interval.
pub struct RateLimiter {
    /// The minimum spacing between two handed-out slots, in milliseconds.
    interval_ms: u64,
    /// When the previous slot was handed out, in milliseconds of the
    /// caller's monotonic clock; `None` before the first slot.
    last_slot_ms: Option<u64>,
}

impl RateLimiter {
    /// The configured minimum spacing.
    pub closed spec fn spec_interval_ms(self) -> u64 {
        self.interval_ms
    }

    /// The recorded time of the previous slot, if any.
    pub closed spec fn spec_last_slot_ms(self) -> Option<u64> {
        self.last_slot_ms
    }

    /// How long a caller arriving at `now_ms` must wait before its
    /// slot opens: the remainder of the interval, or nothing once the
    /// interval has elapsed.
    pub open spec fn spec_wait_ms(self, now_ms: u64) -> u64 {
        match self.spec_last_slot_ms() {
            Some(last) => if now_ms - last < self.spec_interval_ms() {
                (self.spec_interval_ms() - (now_ms - last)) as u64
            } else {
                0u64
            },
            None => 0u64,
        }
    }

    /// A fresh gate with the given minimum spacing; the first caller
    /// passes immediately.
    pub fn new(interval_ms: u64) -> (r: RateLimiter)
        ensures
            r.spec_interval_ms() == interval_ms,
            r.spec_last_slot_ms() is None,
    {
        RateLimiter { interval_ms, last_slot_ms: None }
    }

    /// Hands out the next slot to a caller that reads `now_ms` on a
    /// monotonic clock: returns how long the caller must still wait,
    /// and records the moment its wait ends as the new last slot. Two
    /// consecutive slots are thereby never closer than the interval.
    pub fn acquire_at(&mut self, now_ms: u64) -> (wait_ms: u64)
        requires
            old(self).spec_last_slot_ms() matches Some(last) ==> last <= now_ms,
            now_ms + old(self).spec_interval_ms() <= u64::MAX,
        ensures
            wait_ms == old(self).spec_wait_ms(now_ms),
            final(self).spec_interval_ms() == old(self).spec_interval_ms(),
            final(self).spec_last_slot_ms() == Some((now_ms + wait_ms) as u64),
            old(self).spec_last_slot_ms() matches Some(last) ==> now_ms + wait_ms >= last
                + old(self).spec_interval_ms(),
    {
        let wait_ms: u64 = match self.last_slot_ms {
            Some(last) => {
                let elapsed = now_ms - last;
                if elapsed < self.interval_ms {
                    self.interval_ms - elapsed
                } else {
                    0
                }
            },
            None => 0,
        };
        self.last_slot_ms = Some(now_ms + wait_ms);
        wait_ms
    }
}

} // verus!
