//! Minimum-interval gate for progress callbacks.
//!
//! A `RateLimit` lets an action through only when at least the configured
//! interval has elapsed since the last action that was let through. The
//! first check always passes.

use vstd::prelude::*;

verus! {

pub struct RateLimit {
    /// Minimum number of milliseconds between allowed actions; always >= 1.
    pub interval_ms: u64,
    /// Clock reading at the last allowed action, or `None` before the first.
    pub last_ms: Option<u64>,
}

impl RateLimit {
    pub open spec fn wf(&self) -> bool {
        self.interval_ms >= 1
    }

    /// Whether a check made when the clock reads `now_ms` passes.
    pub open spec fn allows(&self, now_ms: u64) -> bool {
        match self.last_ms {
            None => true,
            Some(l) => now_ms >= l + self.interval_ms,
        }
    }

    /// The state after a check made when the clock reads `now_ms`.
    pub open spec fn stepped(&self, now_ms: u64) -> RateLimit {
        if self.allows(now_ms) {
            RateLimit { interval_ms: self.interval_ms, last_ms: Some(now_ms) }
        } else {
            *self
        }
    }

    /// Creates a rate limiter that allows one action every
    /// `min_sec_between` seconds.
    pub fn new(min_sec_between: u64) -> (r: RateLimit)
        requires
            1 <= min_sec_between,
        ensures
            r.wf(),
            r.last_ms is None,
            r.interval_ms == if min_sec_between <= u64::MAX as int / 1000 {
                min_sec_between * 1000
            } else {
                u64::MAX as int
            },
    {
        let interval_ms: u64 = if min_sec_between <= u64::MAX / 1000 {
            min_sec_between * 1000
        } else {
            u64::MAX
        };
        RateLimit { interval_ms, last_ms: None }
    }

    /// Checks whether an action is allowed at the given clock reading and,
    /// if it is, records that reading as the time of the last action.
    pub fn check_at(&mut self, now_ms: u64) -> (r: bool)
        requires
            old(self).wf(),
        ensures
            r == old(self).allows(now_ms),
            *final(self) == old(self).stepped(now_ms),
    {
        let allowed: bool = match self.last_ms {
            None => true,
            Some(l) => now_ms.saturating_sub(l) >= self.interval_ms,
        };
        if allowed {
            self.last_ms = Some(now_ms);
        }
        allowed
    }

    /// Relies on chrono::Utc::now / timestamp_millis: a reading of the wall
    /// clock in whole milliseconds since the Unix epoch. Nothing is assumed
    /// of the value returned.
    #[verifier::external_body]
    fn now_unix_ms() -> i64 {
        chrono::Utc::now().timestamp_millis()
    }

    /// Checks whether an action is allowed now. Reads the clock, then
    /// decides exactly as `check_at` would for that reading.
    pub fn check(&mut self) -> (r: bool)
        requires
            old(self).wf(),
        ensures
            exists|now_ms: u64|
                r == #[trigger] old(self).allows(now_ms) && *final(self) == old(self).stepped(
                    now_ms,
                ),
            final(self).wf(),
    {
        let t: i64 = Self::now_unix_ms();
        let now: u64 = if t < 0 {
            0
        } else {
            t as u64
        };
        let r = self.check_at(now);
        proof {
            assert(r == old(self).allows(now) && *final(self) == old(self).stepped(now));
        }
        r
    }
}

/// Rate-limiter law: starting from a fresh limiter, the first check passes,
/// and after a check that passed at clock reading `t`, a later check at
/// reading `t2` passes exactly when the gap `t2 - t` reaches the interval.
pub proof fn lemma_rate_limit_gate(rl: RateLimit, t: u64, t2: u64)
    requires
        rl.wf(),
        rl.last_ms is None,
    ensures
        rl.allows(t),
        t2 >= t + rl.interval_ms ==> rl.stepped(t).allows(t2),
        t2 < t + rl.interval_ms ==> !rl.stepped(t).allows(t2),
{
}

} // verus!
