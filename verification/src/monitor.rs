//! The supervisor that owns the workers: builder-style registration before
//! start, a shutdown broadcast that reaches every worker, and the check
//! that all of them have terminated. The concurrent driving of the workers
//! is the surrounding runtime's job; every coordination decision here is
//! verified.

use vstd::prelude::*;
use crate::worker::Worker;

verus! {

/// Owns a set of workers and coordinates shutdown across all of them.
pub struct Monitor {
    workers: Vec<Worker>,
}

impl Monitor {
    /// The supervised workers, in registration order.
    pub closed spec fn workers(self) -> Seq<Worker> {
        self.workers@
    }

    /// Every supervised worker is well formed.
    pub open spec fn inv(self) -> bool {
        forall|j: int| 0 <= j < self.workers().len() ==> (#[trigger] self.workers()[j]).inv()
    }

    /// A monitor supervising no workers yet.
    pub fn new() -> (m: Monitor)
        ensures
            m.inv(),
            m.workers() == Seq::<Worker>::empty(),
    {
        Monitor { workers: Vec::new() }
    }

    /// Add a worker to the supervised set, builder-style, before the set is
    /// run.
    pub fn register(self, worker: Worker) -> (m: Monitor)
        requires
            self.inv(),
            worker.inv(),
        ensures
            m.inv(),
            m.workers() == self.workers().push(worker),
    {
        let mut workers = self.workers;
        workers.push(worker);
        Monitor { workers }
    }

    /// Number of supervised workers.
    pub fn worker_count(&self) -> (n: usize)
        ensures
            n == self.workers().len(),
    {
        self.workers.len()
    }

    /// Broadcast the shutdown signal to every supervised worker: each stops
    /// accepting new jobs at once, keeps its queued payloads and its
    /// in-flight count, and terminates once its in-flight jobs drain.
    pub fn shutdown_all(&mut self)
        requires
            old(self).inv(),
        ensures
            final(self).inv(),
            final(self).workers().len() == old(self).workers().len(),
            forall|j: int| 0 <= j < final(self).workers().len() ==> {
                &&& (#[trigger] final(self).workers()[j]).is_shutdown()
                &&& final(self).workers()[j].running() == old(self).workers()[j].running()
                &&& final(self).workers()[j].failures() == old(self).workers()[j].failures()
                &&& final(self).workers()[j].backend().contents()
                    == old(self).workers()[j].backend().contents()
                &&& old(self).workers()[j].running() == 0
                    ==> final(self).workers()[j].state() is Terminated
            },
    {
        let n = self.workers.len();
        let mut i: usize = 0;
        while i < n
            invariant
                old(self).inv(),
                i <= n,
                n == self.workers@.len(),
                self.workers@.len() == old(self).workers().len(),
                forall|j: int| i <= j < n ==> self.workers@[j] == old(self).workers()[j],
                forall|j: int| 0 <= j < i ==> {
                    &&& (#[trigger] self.workers@[j]).inv()
                    &&& self.workers@[j].is_shutdown()
                    &&& self.workers@[j].running() == old(self).workers()[j].running()
                    &&& self.workers@[j].failures() == old(self).workers()[j].failures()
                    &&& self.workers@[j].backend().contents()
                        == old(self).workers()[j].backend().contents()
                    &&& old(self).workers()[j].running() == 0
                        ==> self.workers@[j].state() is Terminated
                },
            decreases n - i,
        {
            let mut worker = self.workers.remove(i);
            proof {
                assert(worker == old(self).workers()[i as int]);
                assert(old(self).workers()[i as int].inv());
            }
            worker.signal_shutdown();
            self.workers.insert(i, worker);
            i = i + 1;
        }
    }

    /// Whether every supervised worker has fully shut down; with no workers
    /// registered there is nothing left to wait for.
    pub fn all_terminated(&self) -> (r: bool)
        ensures
            r == forall|j: int|
                0 <= j < self.workers().len() ==> (#[trigger] self.workers()[j]).state()
                    is Terminated,
    {
        let n = self.workers.len();
        let mut i: usize = 0;
        while i < n
            invariant
                i <= n,
                n == self.workers@.len(),
                forall|j: int| 0 <= j < i ==> (#[trigger] self.workers@[j]).state()
                    is Terminated,
            decreases n - i,
        {
            if !self.workers[i].is_terminated() {
                return false;
            }
            i = i + 1;
        }
        true
    }
}

} // verus!
