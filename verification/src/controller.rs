//! The shared source of truth for a backend's in-flight concurrency: how many
//! jobs are currently executing, an optional ceiling on that number, and a
//! pause flag. A poller consults [`Controller::should_pause`] before pulling
//! the next job, so the ceiling is exact: the in-flight count never exceeds it.

use vstd::prelude::*;

verus! {

/// Concurrency coordinator for one backend instance.
///
/// The counter is incremented as a job is dispatched and decremented when the
/// job completes. When a ceiling is configured, every operation preserves
/// [`Controller::wf`]: the in-flight count stays at or below the ceiling.
pub struct Controller {
    count: u64,
    limit: Option<u64>,
    pause_flag: bool,
}

impl Controller {
    /// Number of jobs currently dispatched and not yet completed.
    pub closed spec fn in_flight(self) -> u64 {
        self.count
    }

    /// The configured concurrency ceiling, if any.
    pub closed spec fn ceiling(self) -> Option<u64> {
        self.limit
    }

    /// Whether polling has been explicitly paused.
    pub closed spec fn paused(self) -> bool {
        self.pause_flag
    }

    /// The counter has reached the configured ceiling.
    pub open spec fn at_ceiling(self) -> bool {
        self.ceiling() matches Some(k) && self.in_flight() >= k
    }

    /// What [`Controller::should_pause`] reports: paused explicitly or at
    /// the ceiling.
    pub open spec fn should_pause_spec(self) -> bool {
        self.paused() || self.at_ceiling()
    }

    /// The controller invariant: the in-flight count never exceeds the
    /// ceiling when one is set.
    pub open spec fn wf(self) -> bool {
        self.ceiling() matches Some(k) ==> self.in_flight() <= k
    }

    /// The exact-ceiling law: every operation preserves [`Controller::wf`],
    /// so at no point does a controller with ceiling `k` observe an
    /// in-flight count above `k`.
    pub proof fn lemma_ceiling_respected(self, k: u64)
        requires
            self.wf(),
            self.ceiling() == Some(k),
        ensures
            self.in_flight() <= k,
    {
    }

    /// A fresh controller: nothing in flight, no ceiling, not paused.
    pub fn new() -> (c: Controller)
        ensures
            c.in_flight() == 0,
            c.ceiling() is None,
            !c.paused(),
            c.wf(),
    {
        Controller { count: 0, limit: None, pause_flag: false }
    }

    /// A fresh controller that will keep the in-flight count at or below
    /// `limit`.
    pub fn with_ceiling(limit: u64) -> (c: Controller)
        ensures
            c.in_flight() == 0,
            c.ceiling() == Some(limit),
            !c.paused(),
            c.wf(),
    {
        Controller { count: 0, limit: Some(limit), pause_flag: false }
    }

    /// Whether the poller must stop pulling jobs for now: either polling was
    /// paused explicitly or the in-flight count has reached the ceiling.
    pub fn should_pause(&self) -> (r: bool)
        ensures
            r == self.should_pause_spec(),
    {
        if self.pause_flag {
            true
        } else {
            match self.limit {
                Some(k) => self.count >= k,
                None => false,
            }
        }
    }

    /// Record that one more job was dispatched. The caller checks
    /// [`Controller::should_pause`] first, so the count is below the ceiling
    /// when this is called and the invariant is preserved.
    pub fn increment(&mut self)
        requires
            !old(self).at_ceiling(),
            old(self).in_flight() < u64::MAX,
        ensures
            final(self).in_flight() == old(self).in_flight() + 1,
            final(self).ceiling() == old(self).ceiling(),
            final(self).paused() == old(self).paused(),
            final(self).wf(),
    {
        self.count = self.count + 1;
    }

    /// Record that one in-flight job completed. The count is never negative:
    /// a decrement is only ever paired with an earlier increment.
    pub fn decrement(&mut self)
        requires
            old(self).in_flight() > 0,
        ensures
            final(self).in_flight() == old(self).in_flight() - 1,
            final(self).ceiling() == old(self).ceiling(),
            final(self).paused() == old(self).paused(),
            old(self).wf() ==> final(self).wf(),
    {
        self.count = self.count - 1;
    }

    /// Stop the poller from pulling new jobs until [`Controller::resume`].
    pub fn pause(&mut self)
        ensures
            final(self).paused(),
            final(self).in_flight() == old(self).in_flight(),
            final(self).ceiling() == old(self).ceiling(),
            old(self).wf() ==> final(self).wf(),
    {
        self.pause_flag = true;
    }

    /// Allow the poller to pull jobs again.
    pub fn resume(&mut self)
        ensures
            !final(self).paused(),
            final(self).in_flight() == old(self).in_flight(),
            final(self).ceiling() == old(self).ceiling(),
            old(self).wf() ==> final(self).wf(),
    {
        self.pause_flag = false;
    }
}

} // verus!
