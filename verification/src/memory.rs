//! The in-memory reference backend: a capacity-bounded FIFO message queue
//! over a `futures` mpsc channel, regulated by a [`Controller`].
//!
//! The channel pair is held exclusively by one [`MemoryStorage`] value, so
//! Rust's `&mut` receiver access is the mutual-exclusion guard the queue
//! needs: at most one dequeue can be in progress at a time. Callers that want
//! to share one queue among several tasks put the whole storage behind a
//! shared asynchronous lock.

use vstd::prelude::*;
use crate::controller::Controller;
use crate::request::Request;
use futures::channel::mpsc::{Receiver, Sender};

verus! {

/// Capacity of the in-memory queue: an enqueue is accepted exactly while
/// fewer than this many payloads are buffered.
///
/// The backing channel is created with this same buffer size. The channel
/// itself would grant its sender one extra guaranteed slot; the verified
/// guard in [`MemoryStorage::enqueue`] never uses it, so the capacity is
/// exactly this bound.
pub const MEMORY_BUFFER: usize = 100;

/// In-memory bounded FIFO queue of job payloads.
///
/// Holds the two endpoints of one `futures` bounded mpsc channel. The sender
/// is never cloned and the receiver is never closed while the wrapper lives,
/// so sends fail only when the channel is full, never because the receiving
/// side is gone.
#[verifier::external_body]
pub struct MemoryWrapper {
    sender: Sender<u64>,
    receiver: Receiver<u64>,
}

/// The payloads buffered in `q`, oldest first: sent and not yet received.
pub uninterp spec fn pending(q: MemoryWrapper) -> Seq<u64>;

/// The buffer size the channel backing `q` was created with.
pub uninterp spec fn buffer_of(q: MemoryWrapper) -> nat;

impl MemoryWrapper {
    /// Build a new basic queue channel.
    pub fn new() -> (q: MemoryWrapper)
        ensures
            pending(q) == Seq::<u64>::empty(),
            buffer_of(q) == MEMORY_BUFFER,
    {
        Self::channel_new(MEMORY_BUFFER)
    }

    /// Relies on `futures::channel::mpsc::channel`: a fresh bounded channel
    /// holds no messages and was created with the given buffer size. The
    /// channel asserts its buffer below a platform bound, so callers stay at
    /// the library's own buffer size, far under it.
    #[verifier::external_body]
    fn channel_new(buffer: usize) -> (q: MemoryWrapper)
        requires
            buffer <= MEMORY_BUFFER,
        ensures
            pending(q) == Seq::<u64>::empty(),
            buffer_of(q) == buffer,
    {
        let (sender, receiver) = futures::channel::mpsc::channel(buffer);
        MemoryWrapper { sender, receiver }
    }

    /// Relies on `futures` `Sender::try_send`: it never blocks; it appends the
    /// message at the back of the channel's FIFO queue and succeeds whenever
    /// the single sender is not over the buffer, and it rejects the message,
    /// leaving the channel unchanged, exactly when an earlier send already
    /// filled the buffer past its size. The receiver endpoint lives in the
    /// same struct, so the channel is never disconnected.
    #[verifier::external_body]
    fn push(&mut self, message: u64) -> (r: Result<(), ()>)
        ensures
            buffer_of(*final(self)) == buffer_of(*old(self)),
            r is Ok ==> pending(*old(self)).len() <= buffer_of(*old(self))
                && pending(*final(self)) == pending(*old(self)).push(message),
            r is Err ==> pending(*old(self)).len() > buffer_of(*old(self))
                && pending(*final(self)) == pending(*old(self)),
    {
        self.sender.try_send(message).map_err(|_| ())
    }

    /// Relies on `futures` `Receiver::try_recv`: it never blocks; it removes
    /// and returns the oldest buffered message, or reports an empty channel
    /// without touching it. The sender endpoint lives in the same struct, so
    /// the channel is never closed and `Closed` is never reported.
    #[verifier::external_body]
    fn pop(&mut self) -> (r: Option<u64>)
        ensures
            buffer_of(*final(self)) == buffer_of(*old(self)),
            pending(*old(self)).len() > 0 ==> r == Some(pending(*old(self))[0])
                && pending(*final(self)) == pending(*old(self)).drop_first(),
            pending(*old(self)).len() == 0 ==> r is None
                && pending(*final(self)) == pending(*old(self)),
    {
        match self.receiver.try_recv() {
            Ok(message) => Some(message),
            Err(_) => None,
        }
    }
}

impl Default for MemoryWrapper {
    /// Same as [`MemoryWrapper::new`].
    fn default() -> (q: MemoryWrapper)
        ensures
            pending(q) == Seq::<u64>::empty(),
            buffer_of(q) == MEMORY_BUFFER,
    {
        MemoryWrapper::new()
    }
}

/// The in-memory backend: a [`MemoryWrapper`] queue plus the [`Controller`]
/// that the poller consults for backpressure, plus a verified mirror of the
/// queue depth so `size` needs no trusted call.
pub struct MemoryStorage {
    controller: Controller,
    inner: MemoryWrapper,
    depth: usize,
}

impl MemoryStorage {
    /// The payloads buffered and not yet delivered, oldest first.
    pub closed spec fn contents(self) -> Seq<u64> {
        pending(self.inner)
    }

    /// The controller regulating this backend's pollers.
    pub closed spec fn ctrl(self) -> Controller {
        self.controller
    }

    /// Storage invariant: the tracked depth equals the number of buffered
    /// payloads, the buffer never holds more than its capacity, and the
    /// controller respects its ceiling.
    pub closed spec fn inv(self) -> bool {
        &&& self.depth == self.contents().len()
        &&& self.contents().len() <= MEMORY_BUFFER
        &&& buffer_of(self.inner) == MEMORY_BUFFER
        &&& self.controller.wf()
    }

    /// The queue is capacity-bounded: it never buffers more than
    /// `MEMORY_BUFFER` payloads, so an enqueue on a queue holding the
    /// configured capacity is rejected immediately rather than ever
    /// blocking the caller.
    pub proof fn lemma_capacity_bound(self)
        requires
            self.inv(),
        ensures
            self.contents().len() <= MEMORY_BUFFER,
    {
    }

    /// The ceiling is exact: at any observable point, a well-formed storage
    /// whose controller was configured with ceiling `k` has at most `k`
    /// jobs in flight.
    pub proof fn lemma_in_flight_bounded(self, k: u64)
        requires
            self.inv(),
            self.ctrl().ceiling() == Some(k),
        ensures
            self.ctrl().in_flight() <= k,
    {
    }

    /// Create a new in-memory storage with no concurrency ceiling.
    pub fn new() -> (s: MemoryStorage)
        ensures
            s.inv(),
            s.contents() == Seq::<u64>::empty(),
            s.ctrl().in_flight() == 0,
            s.ctrl().ceiling() is None,
            !s.ctrl().paused(),
    {
        MemoryStorage {
            controller: Controller::new(),
            inner: MemoryWrapper::new(),
            depth: 0,
        }
    }

    /// Create a new in-memory storage whose controller keeps the in-flight
    /// count at or below `limit`.
    pub fn with_ceiling(limit: u64) -> (s: MemoryStorage)
        ensures
            s.inv(),
            s.contents() == Seq::<u64>::empty(),
            s.ctrl().in_flight() == 0,
            s.ctrl().ceiling() == Some(limit),
            !s.ctrl().paused(),
    {
        MemoryStorage {
            controller: Controller::with_ceiling(limit),
            inner: MemoryWrapper::new(),
            depth: 0,
        }
    }

    /// Attempt a non-blocking send into the bounded buffer. Succeeds, adding
    /// the payload at the back, exactly when the queue is below its capacity
    /// of `MEMORY_BUFFER`; on a full queue it fails immediately and leaves
    /// the queue unchanged.
    pub fn enqueue(&mut self, message: u64) -> (r: Result<(), ()>)
        requires
            old(self).inv(),
        ensures
            final(self).inv(),
            r is Ok <==> old(self).contents().len() < MEMORY_BUFFER,
            r is Ok ==> final(self).contents() == old(self).contents().push(message),
            r is Err ==> final(self).contents() == old(self).contents(),
            final(self).ctrl() == old(self).ctrl(),
    {
        if self.depth >= MEMORY_BUFFER {
            return Err(());
        }
        match self.inner.push(message) {
            Ok(()) => {
                self.depth = self.depth + 1;
                Ok(())
            }
            Err(()) => Err(()),
        }
    }

    /// Remove and return the oldest buffered payload without blocking;
    /// `None` exactly when nothing is buffered.
    pub fn dequeue(&mut self) -> (r: Option<u64>)
        requires
            old(self).inv(),
        ensures
            final(self).inv(),
            r is Some <==> old(self).contents().len() > 0,
            r is Some ==> r == Some(old(self).contents()[0])
                && final(self).contents() == old(self).contents().drop_first(),
            r is None ==> final(self).contents() == old(self).contents(),
            final(self).ctrl() == old(self).ctrl(),
    {
        match self.inner.pop() {
            Some(message) => {
                self.depth = self.depth - 1;
                Some(message)
            }
            None => None,
        }
    }

    /// One pull on this backend's stream, as the poller performs it: while
    /// the controller says to pause, no item is produced and nothing changes;
    /// otherwise the oldest buffered payload, if any, is packaged into a
    /// [`Request`] with an empty context and counted as dispatched. An empty
    /// queue is transient, not terminal: the stream stays pollable.
    pub fn fetch_next(&mut self) -> (r: Option<Request<u64>>)
        requires
            old(self).inv(),
            old(self).ctrl().in_flight() < u64::MAX,
        ensures
            final(self).inv(),
            old(self).ctrl().should_pause_spec() ==> r is None && *final(self) == *old(self),
            !old(self).ctrl().should_pause_spec() && old(self).contents().len() == 0 ==> r is None
                && final(self).contents() == old(self).contents()
                && final(self).ctrl() == old(self).ctrl(),
            !old(self).ctrl().should_pause_spec() && old(self).contents().len() > 0 ==> {
                &&& r matches Some(req) && req.args == old(self).contents()[0]
                    && req.context@ == Seq::<(u64, u64)>::empty()
                &&& final(self).contents() == old(self).contents().drop_first()
                &&& final(self).ctrl().in_flight() == old(self).ctrl().in_flight() + 1
                &&& final(self).ctrl().ceiling() == old(self).ctrl().ceiling()
                &&& final(self).ctrl().paused() == old(self).ctrl().paused()
            },
    {
        if self.controller.should_pause() {
            return None;
        }
        match self.dequeue() {
            Some(payload) => {
                self.controller.increment();
                Some(Request::new(payload))
            }
            None => None,
        }
    }

    /// Record that a dispatched job finished, successfully or not: the
    /// in-flight count comes back down and the buffered payloads are
    /// untouched.
    pub fn complete_job(&mut self)
        requires
            old(self).inv(),
            old(self).ctrl().in_flight() > 0,
        ensures
            final(self).inv(),
            final(self).contents() == old(self).contents(),
            final(self).ctrl().in_flight() == old(self).ctrl().in_flight() - 1,
            final(self).ctrl().ceiling() == old(self).ctrl().ceiling(),
            final(self).ctrl().paused() == old(self).ctrl().paused(),
    {
        self.controller.decrement();
    }

    /// Stop producing items from [`MemoryStorage::fetch_next`] until resumed.
    pub fn pause(&mut self)
        requires
            old(self).inv(),
        ensures
            final(self).inv(),
            final(self).contents() == old(self).contents(),
            final(self).ctrl().paused(),
            final(self).ctrl().in_flight() == old(self).ctrl().in_flight(),
            final(self).ctrl().ceiling() == old(self).ctrl().ceiling(),
    {
        self.controller.pause();
    }

    /// Let [`MemoryStorage::fetch_next`] produce items again.
    pub fn resume(&mut self)
        requires
            old(self).inv(),
        ensures
            final(self).inv(),
            final(self).contents() == old(self).contents(),
            !final(self).ctrl().paused(),
            final(self).ctrl().in_flight() == old(self).ctrl().in_flight(),
            final(self).ctrl().ceiling() == old(self).ctrl().ceiling(),
    {
        self.controller.resume();
    }

    /// Whether a pull would produce a job right now: the controller does
    /// not pause and at least one payload is buffered.
    pub fn ready(&self) -> (r: bool)
        requires
            self.inv(),
        ensures
            r == (!self.ctrl().should_pause_spec() && self.contents().len() > 0),
    {
        !self.controller.should_pause() && self.depth > 0
    }

    /// Number of buffered-but-undelivered payloads.
    pub fn size(&self) -> (n: usize)
        requires
            self.inv(),
        ensures
            n == self.contents().len(),
    {
        self.depth
    }
}

impl Default for MemoryStorage {
    /// Same as [`MemoryStorage::new`].
    fn default() -> (s: MemoryStorage)
        ensures
            s.inv(),
            s.contents() == Seq::<u64>::empty(),
            s.ctrl().in_flight() == 0,
            s.ctrl().ceiling() is None,
            !s.ctrl().paused(),
    {
        MemoryStorage::new()
    }
}

/// The queue contents after the payloads of `xs` are enqueued in order into
/// an empty queue, every enqueue accepted: each lands at the back, exactly
/// as the `ensures` of [`MemoryStorage::enqueue`] describes.
pub open spec fn contents_after_enqueues(xs: Seq<u64>) -> Seq<u64>
    decreases xs.len(),
{
    if xs.len() == 0 {
        Seq::<u64>::empty()
    } else {
        contents_after_enqueues(xs.drop_last()).push(xs.last())
    }
}

/// Enqueuing the payloads of `xs` in order into an empty queue buffers
/// exactly `xs`, oldest first.
pub proof fn lemma_enqueues_in_order(xs: Seq<u64>)
    ensures
        contents_after_enqueues(xs) == xs,
    decreases xs.len(),
{
    if xs.len() == 0 {
        assert(contents_after_enqueues(xs) =~= xs);
    } else {
        lemma_enqueues_in_order(xs.drop_last());
        assert(xs.drop_last().push(xs.last()) =~= xs);
    }
}

/// FIFO order: after `xs` was enqueued into an empty queue and the first `k`
/// payloads have been dequeued, the queue holds `xs.skip(k)`, so the next
/// dequeue returns `xs[k]` and leaves `xs.skip(k + 1)`. Dequeues deliver the
/// enqueued payloads in exactly the order they were enqueued.
pub proof fn lemma_fifo_order(xs: Seq<u64>, k: int)
    requires
        0 <= k < xs.len(),
    ensures
        contents_after_enqueues(xs).skip(k)[0] == xs[k],
        contents_after_enqueues(xs).skip(k).drop_first() == contents_after_enqueues(xs).skip(k + 1),
{
    lemma_enqueues_in_order(xs);
    assert(xs.skip(k)[0] == xs[k]);
    assert(xs.skip(k).drop_first() =~= xs.skip(k + 1));
}

/// Dequeue conservation: removing the head neither invents nor duplicates a
/// payload. Together with the `ensures` of [`MemoryStorage::dequeue`] (each
/// call returns the head and leaves the rest), no payload is ever delivered
/// twice and none is delivered that was not enqueued.
pub proof fn lemma_dequeue_conserves(s: Seq<u64>)
    requires
        s.len() > 0,
    ensures
        s.to_multiset() =~= s.drop_first().to_multiset().insert(s[0]),
{
    broadcast use vstd::seq_lib::group_to_multiset_ensures;

    assert(s.remove(0).to_multiset() =~= s.to_multiset().remove(s[0]));
    assert(s.remove(0) =~= s.drop_first());
    assert(s.contains(s[0]));
    assert(s.to_multiset() =~= s.to_multiset().remove(s[0]).insert(s[0]));
}

} // verus!
