//! The worker execution loop, as decisions over plain state: Idle, Polling
//! and Executing phases, cooperative shutdown, and per-job completion. The
//! surrounding runtime performs the asynchronous waiting and the handler
//! call; every transition decided here is verified.
//!
//! A shutdown signal is honored between dispatches: from the signal on, no
//! new job is pulled, at most the jobs in flight at signal time complete,
//! and the worker terminates once they have drained. A handler failure is
//! recorded and never terminates the worker or touches the queued jobs.

use vstd::prelude::*;
use crate::memory::MemoryStorage;
use crate::rate::RateLimit;
use crate::request::Request;

verus! {

/// The phases of the worker loop.
pub enum WorkerState {
    /// Nothing to do right now; will poll again after an idle delay.
    Idle,
    /// A job is being executed by the handler.
    Executing,
    /// Shutdown was signalled; draining the jobs still in flight.
    ShuttingDown,
    /// Shutdown complete: nothing in flight, no more polling.
    Terminated,
}

/// One logical consumer: the in-memory backend it polls, the phase it is
/// in, and its runtime context (shutdown signal, running-job count, and a
/// count of handler failures for the observability hooks).
pub struct Worker {
    backend: MemoryStorage,
    state: WorkerState,
    shutdown: bool,
    running: u64,
    failures: u64,
}

impl Worker {
    /// The backend this worker polls.
    pub closed spec fn backend(self) -> MemoryStorage {
        self.backend
    }

    /// The phase the worker is in.
    pub closed spec fn state(self) -> WorkerState {
        self.state
    }

    /// Whether shutdown has been signalled.
    pub closed spec fn is_shutdown(self) -> bool {
        self.shutdown
    }

    /// Jobs dispatched and not yet completed.
    pub closed spec fn running(self) -> u64 {
        self.running
    }

    /// Handler failures observed so far.
    pub closed spec fn failures(self) -> u64 {
        self.failures
    }

    /// Worker invariant: the backend is well formed, the running-job count
    /// mirrors the controller's in-flight count, and a terminated worker was
    /// shut down and has drained.
    pub open spec fn inv(self) -> bool {
        &&& self.backend().inv()
        &&& self.running() == self.backend().ctrl().in_flight()
        &&& self.state() is Terminated ==> self.is_shutdown() && self.running() == 0
    }

    /// A fresh worker over a backend with nothing yet in flight.
    pub fn new(backend: MemoryStorage) -> (w: Worker)
        requires
            backend.inv(),
            backend.ctrl().in_flight() == 0,
        ensures
            w.inv(),
            w.backend() == backend,
            w.state() is Idle,
            !w.is_shutdown(),
            w.running() == 0,
            w.failures() == 0,
    {
        Worker {
            backend,
            state: WorkerState::Idle,
            shutdown: false,
            running: 0,
            failures: 0,
        }
    }

    /// Hand a payload to this worker's backend queue; same outcome as
    /// enqueuing on the storage directly.
    pub fn enqueue(&mut self, message: u64) -> (r: Result<(), ()>)
        requires
            old(self).inv(),
        ensures
            final(self).inv(),
            r is Ok <==> old(self).backend().contents().len() < crate::memory::MEMORY_BUFFER,
            r is Ok ==> final(self).backend().contents()
                == old(self).backend().contents().push(message),
            r is Err ==> final(self).backend().contents() == old(self).backend().contents(),
            final(self).backend().ctrl() == old(self).backend().ctrl(),
            final(self).running() == old(self).running(),
            final(self).failures() == old(self).failures(),
            final(self).is_shutdown() == old(self).is_shutdown(),
            final(self).state() == old(self).state(),
    {
        self.backend.enqueue(message)
    }

    /// Number of payloads buffered in this worker's backend.
    pub fn queue_size(&self) -> (n: usize)
        requires
            self.inv(),
        ensures
            n == self.backend().contents().len(),
    {
        self.backend.size()
    }

    /// One polling step. Under a shutdown signal no job is accepted and the
    /// queue is left alone; the worker terminates as soon as nothing is in
    /// flight. Otherwise the oldest queued payload, if the controller admits
    /// one, is dispatched: the running count goes up and the worker enters
    /// the Executing phase.
    pub fn poll_step(&mut self) -> (r: Option<Request<u64>>)
        requires
            old(self).inv(),
            old(self).running() < u64::MAX,
        ensures
            final(self).inv(),
            final(self).is_shutdown() == old(self).is_shutdown(),
            final(self).failures() == old(self).failures(),
            final(self).backend().ctrl().ceiling() == old(self).backend().ctrl().ceiling(),
            final(self).backend().ctrl().paused() == old(self).backend().ctrl().paused(),
            old(self).is_shutdown() ==> r is None
                && final(self).backend().contents() == old(self).backend().contents()
                && final(self).running() == old(self).running()
                && (old(self).running() == 0 ==> final(self).state() is Terminated)
                && (old(self).running() > 0 ==> final(self).state() is ShuttingDown),
            !old(self).is_shutdown()
                && (old(self).backend().ctrl().should_pause_spec()
                    || old(self).backend().contents().len() == 0) ==> r is None
                && final(self).backend().contents() == old(self).backend().contents()
                && final(self).running() == old(self).running()
                && final(self).state() is Idle,
            !old(self).is_shutdown() && !old(self).backend().ctrl().should_pause_spec()
                && old(self).backend().contents().len() > 0 ==> {
                &&& r matches Some(req) && req.args == old(self).backend().contents()[0]
                    && req.context@ == Seq::<(u64, u64)>::empty()
                &&& final(self).backend().contents()
                    == old(self).backend().contents().drop_first()
                &&& final(self).running() == old(self).running() + 1
                &&& final(self).state() is Executing
            },
    {
        if self.shutdown {
            if self.running == 0 {
                self.state = WorkerState::Terminated;
            } else {
                self.state = WorkerState::ShuttingDown;
            }
            return None;
        }
        match self.backend.fetch_next() {
            Some(request) => {
                self.running = self.running + 1;
                self.state = WorkerState::Executing;
                Some(request)
            }
            None => {
                self.state = WorkerState::Idle;
                None
            }
        }
    }

    /// One job finished. A failure is counted for the observability hooks
    /// but never terminates the worker and never disturbs the queued jobs:
    /// when not shutting down the worker goes straight back to polling.
    pub fn complete_step(&mut self, succeeded: bool)
        requires
            old(self).inv(),
            old(self).running() > 0,
            old(self).failures() < u64::MAX,
        ensures
            final(self).inv(),
            final(self).is_shutdown() == old(self).is_shutdown(),
            final(self).running() == old(self).running() - 1,
            final(self).backend().contents() == old(self).backend().contents(),
            final(self).backend().ctrl().ceiling() == old(self).backend().ctrl().ceiling(),
            final(self).backend().ctrl().paused() == old(self).backend().ctrl().paused(),
            final(self).failures() == old(self).failures() + (if succeeded { 0int } else { 1int }),
            !old(self).is_shutdown() ==> final(self).state() is Idle,
            old(self).is_shutdown() && old(self).running() == 1 ==> final(self).state() is Terminated,
            old(self).is_shutdown() && old(self).running() > 1 ==> final(self).state() is ShuttingDown,
    {
        self.backend.complete_job();
        self.running = self.running - 1;
        if !succeeded {
            self.failures = self.failures + 1;
        }
        if self.shutdown {
            if self.running == 0 {
                self.state = WorkerState::Terminated;
            } else {
                self.state = WorkerState::ShuttingDown;
            }
        } else {
            self.state = WorkerState::Idle;
        }
    }

    /// Whether the next polling step would dispatch a job: not shut down,
    /// the controller does not pause, and a payload is queued.
    pub fn ready_for_dispatch(&self) -> (r: bool)
        requires
            self.inv(),
        ensures
            r == (!self.is_shutdown() && !self.backend().ctrl().should_pause_spec()
                && self.backend().contents().len() > 0),
    {
        !self.shutdown && self.backend.ready()
    }

    /// One polling step under the rate-limiting middleware stage: a job is
    /// dispatched only when the limiter grants a permit at time `now`.
    /// While no permit is available the job stays queued and the worker is
    /// left exactly as it was, so jobs already admitted run on undisturbed
    /// and the caller simply asks again later. When nothing is ready to
    /// dispatch, the limiter is not consulted and no permit is spent.
    pub fn poll_step_limited(&mut self, limiter: &mut RateLimit, now: u64) -> (r: Option<
        Request<u64>,
    >)
        requires
            old(self).inv(),
            old(self).running() < u64::MAX,
            old(limiter).inv(),
            now + old(limiter).window() <= u64::MAX,
        ensures
            final(self).inv(),
            final(limiter).inv(),
            final(limiter).permits() == old(limiter).permits(),
            final(limiter).window() == old(limiter).window(),
            final(self).backend().ctrl().ceiling() == old(self).backend().ctrl().ceiling(),
            final(self).backend().ctrl().paused() == old(self).backend().ctrl().paused(),
            (old(self).is_shutdown() || old(self).backend().ctrl().should_pause_spec()
                || old(self).backend().contents().len() == 0) ==> r is None
                && *final(self) == *old(self)
                && *final(limiter) == *old(limiter),
            !old(self).is_shutdown() && !old(self).backend().ctrl().should_pause_spec()
                && old(self).backend().contents().len() > 0
                && now < old(limiter).until() && old(limiter).remaining() == 0 ==> r is None
                && *final(self) == *old(self)
                && *final(limiter) == *old(limiter),
            !old(self).is_shutdown() && !old(self).backend().ctrl().should_pause_spec()
                && old(self).backend().contents().len() > 0
                && !(now < old(limiter).until() && old(limiter).remaining() == 0) ==> {
                &&& r matches Some(req) && req.args == old(self).backend().contents()[0]
                &&& final(self).backend().contents()
                    == old(self).backend().contents().drop_first()
                &&& final(self).running() == old(self).running() + 1
                &&& final(self).state() is Executing
                &&& final(self).is_shutdown() == old(self).is_shutdown()
                &&& final(self).failures() == old(self).failures()
                &&& now >= old(limiter).until() ==> final(limiter).remaining()
                    == old(limiter).permits() - 1 && final(limiter).until()
                    == now + old(limiter).window()
                &&& now < old(limiter).until() ==> final(limiter).remaining()
                    == old(limiter).remaining() - 1 && final(limiter).until()
                    == old(limiter).until()
            },
    {
        if !self.ready_for_dispatch() {
            return None;
        }
        if !limiter.try_acquire(now) {
            return None;
        }
        self.poll_step()
    }

    /// One full pass of the worker loop: poll for a job and, when one is
    /// admitted, invoke the handler on its payload and record the
    /// completion. The handler's verdict is consumed only by the failure
    /// count kept for the observability hooks — a failing handler never
    /// stops the worker and never touches the queued jobs. Returns the
    /// executed payload, if any.
    pub fn execute_next<F: Fn(u64) -> bool>(&mut self, handler: &F) -> (r: Option<u64>)
        requires
            old(self).inv(),
            old(self).running() < u64::MAX,
            old(self).failures() < u64::MAX,
            forall|p: u64| call_requires(*handler, (p,)),
        ensures
            final(self).inv(),
            final(self).is_shutdown() == old(self).is_shutdown(),
            final(self).running() == old(self).running(),
            final(self).backend().ctrl().ceiling() == old(self).backend().ctrl().ceiling(),
            final(self).backend().ctrl().paused() == old(self).backend().ctrl().paused(),
            old(self).is_shutdown() ==> r is None
                && final(self).backend().contents() == old(self).backend().contents()
                && final(self).failures() == old(self).failures(),
            !old(self).is_shutdown()
                && (old(self).backend().ctrl().should_pause_spec()
                    || old(self).backend().contents().len() == 0) ==> r is None
                && final(self).backend().contents() == old(self).backend().contents()
                && final(self).failures() == old(self).failures(),
            !old(self).is_shutdown() && !old(self).backend().ctrl().should_pause_spec()
                && old(self).backend().contents().len() > 0 ==> {
                &&& r == Some(old(self).backend().contents()[0])
                &&& final(self).backend().contents()
                    == old(self).backend().contents().drop_first()
                &&& exists|ok: bool|
                    call_ensures(*handler, (old(self).backend().contents()[0],), ok)
                        && final(self).failures() == old(self).failures()
                            + (if ok { 0int } else { 1int })
            },
    {
        match self.poll_step() {
            Some(request) => {
                let payload = request.args;
                let ok = handler(payload);
                self.complete_step(ok);
                Some(payload)
            }
            None => None,
        }
    }

    /// The external cancellation signal: cooperative, checked between
    /// dispatches. From here on [`Worker::poll_step`] accepts no new job;
    /// jobs already in flight may still complete.
    pub fn signal_shutdown(&mut self)
        requires
            old(self).inv(),
        ensures
            final(self).inv(),
            final(self).is_shutdown(),
            final(self).running() == old(self).running(),
            final(self).failures() == old(self).failures(),
            final(self).backend().contents() == old(self).backend().contents(),
            final(self).backend().ctrl() == old(self).backend().ctrl(),
            old(self).running() == 0 ==> final(self).state() is Terminated,
            old(self).running() > 0 ==> final(self).state() is ShuttingDown,
    {
        self.shutdown = true;
        if self.running == 0 {
            self.state = WorkerState::Terminated;
        } else {
            self.state = WorkerState::ShuttingDown;
        }
    }

    /// Whether the worker has fully shut down.
    pub fn is_terminated(&self) -> (r: bool)
        ensures
            r == (self.state() is Terminated),
    {
        match self.state {
            WorkerState::Terminated => true,
            _ => false,
        }
    }

    /// Current running-job count.
    pub fn running_count(&self) -> (n: u64)
        ensures
            n == self.running(),
    {
        self.running
    }

    /// Handler failures recorded so far.
    pub fn failure_count(&self) -> (n: u64)
        ensures
            n == self.failures(),
    {
        self.failures
    }
}

} // verus!
