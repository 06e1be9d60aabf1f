//! Request budget accounting: a limit per window that resets at a given
//! epoch second, and the waits that follow from it.
use vstd::prelude::*;

verus! {

/// The request budget. Before the first response seeds it, it never asks to
/// wait.
#[derive(Clone, Copy, Debug)]
pub struct RateLimiter {
    pub limit: u32,
    pub remaining: u32,
    pub reset: u64,
    pub interval: u32,
    pub init: bool,
}

/// `x` held to the range of `u64`.
pub open spec fn sat(x: int) -> u64 {
    if x > u64::MAX { u64::MAX } else if x < 0 { 0 } else { x as u64 }
}

/// The wait, in seconds, that `hit` returns at time `now`.
pub open spec fn hit_wait(r: RateLimiter, now: u64) -> u64 {
    if !r.init || now > r.reset || r.remaining > 0 {
        0
    } else {
        sat(r.reset - now + 1)
    }
}

/// The state that `hit` leaves at time `now`.
pub open spec fn hit_state(r: RateLimiter, now: u64) -> RateLimiter {
    if !r.init {
        r
    } else if now > r.reset {
        RateLimiter {
            remaining: sat(r.limit - 1) as u32,
            reset: sat(now + 1 + r.interval),
            ..r
        }
    } else if r.remaining == 0 {
        r
    } else {
        RateLimiter { remaining: (r.remaining - 1) as u32, ..r }
    }
}

/// The reset epoch that `handle_429` sets at time `now`.
pub open spec fn reset_after_429(r: RateLimiter, reset: Option<u64>, now: u64) -> u64 {
    match reset {
        Some(t) => t,
        None => if r.init {
            r.reset
        } else {
            sat(now + if r.interval > 60 { r.interval as int } else { 60 })
        },
    }
}

impl RateLimiter {
    /// A limiter that no response has seeded yet.
    pub fn new() -> (r: RateLimiter)
        ensures
            !r.init,
            r.limit == 0 && r.remaining == 0 && r.reset == 0 && r.interval == 0,
    {
        RateLimiter { limit: 0, remaining: 0, reset: 0, interval: 0, init: false }
    }

    /// Whether a response has seeded the limiter.
    pub fn initialized(&self) -> (r: bool)
        ensures
            r == self.init,
    {
        self.init
    }

    /// Seeds the limiter from a response's figures.
    pub fn initialize(&mut self, limit: u32, remaining: u32, reset: u64, interval: u32)
        ensures
            *final(self) == (RateLimiter { limit, remaining, reset, interval, init: true }),
    {
        self.limit = limit;
        self.remaining = remaining;
        self.reset = reset;
        self.interval = interval;
        self.init = true;
    }

    /// Takes one request from the budget at time `now`, and returns how long
    /// to wait first (0: go ahead). Once the window has elapsed a new one
    /// starts with `limit - 1` requests left.
    pub fn hit(&mut self, now: u64) -> (wait: u64)
        ensures
            wait == hit_wait(*old(self), now),
            *final(self) == hit_state(*old(self), now),
    {
        if !self.init {
            return 0;
        }
        if now > self.reset {
            self.remaining = if self.limit > 0 { self.limit - 1 } else { 0 };
            self.reset = now.saturating_add(1).saturating_add(self.interval as u64);
            return 0;
        }
        if self.remaining == 0 {
            (self.reset - now).saturating_add(1)
        } else {
            self.remaining = self.remaining - 1;
            0
        }
    }

    /// Records a "too many requests" answer at time `now`: nothing remains
    /// until the given reset epoch, or the known one, or a minute (at least
    /// the interval) from now. Returns the seconds until that epoch.
    pub fn handle_429(&mut self, reset: Option<u64>, now: u64) -> (wait: u64)
        ensures
            final(self).remaining == 0,
            final(self).reset == reset_after_429(*old(self), reset, now),
            final(self).limit == old(self).limit,
            final(self).interval == old(self).interval,
            final(self).init == old(self).init,
            wait == sat(final(self).reset - now),
    {
        self.remaining = 0;
        self.reset = match reset {
            Some(t) => t,
            None => if self.init {
                self.reset
            } else {
                now.saturating_add(if self.interval > 60 { self.interval as u64 } else { 60 })
            },
        };
        self.reset.saturating_sub(now)
    }
}

/// Within a window of an initialized limiter, a hit that needs no wait uses
/// exactly one request of the budget; once the reset epoch is passed, the
/// next hit needs no wait and leaves `limit - 1` requests.
pub proof fn lemma_hit_budget(r: RateLimiter, now: u64)
    requires
        r.init,
    ensures
        now <= r.reset && hit_wait(r, now) == 0 ==> hit_state(r, now).remaining == r.remaining - 1,
        now > r.reset ==> hit_wait(r, now) == 0 && hit_state(r, now).remaining == sat(r.limit - 1),
{
}

} // verus!
