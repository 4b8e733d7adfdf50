//! The minimal message-queue capability a storageless backend builds on:
//! enqueue one message, dequeue the next (oldest first), report the current
//! size. Core code that drives a queue depends only on this contract, never
//! on a concrete queue type.

use vstd::prelude::*;
use crate::memory::{MemoryStorage, MEMORY_BUFFER};

verus! {

/// A capacity-bounded FIFO queue of job payloads.
///
/// Dequeue never returns a message that was never enqueued or was already
/// dequeued, and an enqueue the queue cannot accept fails immediately
/// rather than blocking.
pub trait MessageQueue: Sized {
    /// The messages buffered and undelivered, oldest first.
    spec fn queue_view(self) -> Seq<u64>;

    /// Well-formedness, carried by every queue value the implementation
    /// hands out and preserved by every operation.
    spec fn queue_wf(self) -> bool;

    /// Whether the queue has room for one more message.
    spec fn queue_accepts(self) -> bool;

    /// Attempt a non-blocking send: the message lands at the back exactly
    /// when the queue has room, and a full queue rejects it immediately,
    /// unchanged.
    fn enqueue(&mut self, message: u64) -> (r: Result<(), ()>)
        requires
            old(self).queue_wf(),
        ensures
            final(self).queue_wf(),
            r is Ok <==> old(self).queue_accepts(),
            r is Ok ==> final(self).queue_view() == old(self).queue_view().push(message),
            r is Err ==> final(self).queue_view() == old(self).queue_view(),
    ;

    /// Remove and return the oldest buffered message; `None` exactly when
    /// nothing is buffered.
    fn dequeue(&mut self) -> (r: Option<u64>)
        requires
            old(self).queue_wf(),
        ensures
            final(self).queue_wf(),
            r is Some <==> old(self).queue_view().len() > 0,
            r is Some ==> r == Some(old(self).queue_view()[0])
                && final(self).queue_view() == old(self).queue_view().drop_first(),
            r is None ==> final(self).queue_view() == old(self).queue_view(),
    ;

    /// Count of buffered-but-undelivered messages.
    fn size(&self) -> (n: usize)
        requires
            self.queue_wf(),
        ensures
            n == self.queue_view().len(),
    ;
}

impl MessageQueue for MemoryStorage {
    open spec fn queue_view(self) -> Seq<u64> {
        self.contents()
    }

    open spec fn queue_wf(self) -> bool {
        self.inv()
    }

    open spec fn queue_accepts(self) -> bool {
        self.contents().len() < MEMORY_BUFFER
    }

    fn enqueue(&mut self, message: u64) -> (r: Result<(), ()>) {
        MemoryStorage::enqueue(self, message)
    }

    fn dequeue(&mut self) -> (r: Option<u64>) {
        MemoryStorage::dequeue(self)
    }

    fn size(&self) -> (n: usize) {
        MemoryStorage::size(self)
    }
}

} // verus!
