//! The token-bucket decision at the heart of the rate-limiting middleware
//! stage: `permits` admissions per `window` time units, over an abstract
//! integer clock supplied by the caller. A job whose permit is unavailable
//! is told so immediately; the surrounding runtime suspends it until the
//! window turns, without blocking jobs already admitted.

use vstd::prelude::*;

verus! {

/// Token bucket granting `permits` admissions per window of `window` time
/// units.
pub struct RateLimit {
    permits: u64,
    window: u64,
    remaining: u64,
    until: u64,
}

impl RateLimit {
    /// Admissions granted per window.
    pub closed spec fn permits(self) -> u64 {
        self.permits
    }

    /// Window length in time units.
    pub closed spec fn window(self) -> u64 {
        self.window
    }

    /// Admissions left in the current window.
    pub closed spec fn remaining(self) -> u64 {
        self.remaining
    }

    /// When the current window ends; a fresh window opens at this time.
    pub closed spec fn until(self) -> u64 {
        self.until
    }

    /// At least one permit per window, a window of at least one time unit,
    /// and never more admissions left than a window grants.
    pub open spec fn inv(self) -> bool {
        &&& self.permits() >= 1
        &&& self.window() >= 1
        &&& self.remaining() <= self.permits()
    }

    /// A limiter granting `permits` admissions per `window` time units,
    /// with its first window already open at time zero.
    pub fn new(permits: u64, window: u64) -> (l: RateLimit)
        requires
            permits >= 1,
            window >= 1,
        ensures
            l.inv(),
            l.permits() == permits,
            l.window() == window,
            l.remaining() == permits,
            l.until() == window,
    {
        RateLimit { permits, window, remaining: permits, until: window }
    }

    /// Ask for a permit at time `now`. Once the current window has passed, a
    /// fresh one opens at `now` with the full allowance. The request is
    /// admitted exactly when the governing window still has a permit left;
    /// a refusal changes nothing, so the caller may ask again later.
    pub fn try_acquire(&mut self, now: u64) -> (r: bool)
        requires
            old(self).inv(),
            now + old(self).window() <= u64::MAX,
        ensures
            final(self).inv(),
            final(self).permits() == old(self).permits(),
            final(self).window() == old(self).window(),
            now >= old(self).until() ==> r
                && final(self).remaining() == old(self).permits() - 1
                && final(self).until() == now + old(self).window(),
            now < old(self).until() && old(self).remaining() > 0 ==> r
                && final(self).remaining() == old(self).remaining() - 1
                && final(self).until() == old(self).until(),
            now < old(self).until() && old(self).remaining() == 0 ==> !r
                && *final(self) == *old(self),
    {
        if now >= self.until {
            self.remaining = self.permits;
            self.until = now + self.window;
        }
        if self.remaining > 0 {
            self.remaining = self.remaining - 1;
            true
        } else {
            false
        }
    }
}

} // verus!
