use apalis_core::memory::MemoryStorage;
use apalis_core::mq::MessageQueue;

#[test]
fn fifo_order_n_enqueues_then_n_dequeues() {
    let mut s = MemoryStorage::new();
    let mut i: u64 = 0;
    while i < 50 {
        assert_eq!(s.enqueue(i), Ok(()));
        i += 1;
    }
    let mut expected: u64 = 0;
    while expected < 50 {
        assert_eq!(s.dequeue(), Some(expected));
        expected += 1;
    }
    assert_eq!(s.dequeue(), None);
}

#[test]
fn enqueue_on_full_queue_fails_immediately() {
    let mut s = MemoryStorage::new();
    // The configured capacity is 100 pending payloads, exactly.
    let mut i: u64 = 0;
    while i < 100 {
        assert_eq!(s.enqueue(i), Ok(()));
        i += 1;
    }
    assert_eq!(s.enqueue(999), Err(()));
    assert_eq!(s.size(), 100);
    // The rejected payload was not buffered and order is intact.
    assert_eq!(s.dequeue(), Some(0));
    assert_eq!(s.enqueue(999), Ok(()));
}

#[test]
fn dequeue_on_empty_queue_returns_none() {
    let mut s = MemoryStorage::new();
    assert_eq!(s.dequeue(), None);
    assert_eq!(s.size(), 0);
    // Emptiness is transient, not terminal: the queue stays usable.
    assert_eq!(s.enqueue(42), Ok(()));
    assert_eq!(s.dequeue(), Some(42));
}

#[test]
fn size_reports_buffered_count_exactly() {
    let mut s = MemoryStorage::new();
    assert_eq!(s.size(), 0);
    s.enqueue(1).unwrap();
    assert_eq!(s.size(), 1);
    s.enqueue(2).unwrap();
    assert_eq!(s.size(), 2);
    s.dequeue().unwrap();
    assert_eq!(s.size(), 1);
    s.dequeue().unwrap();
    assert_eq!(s.size(), 0);
}

#[test]
fn dequeues_never_duplicate_and_never_invent() {
    let mut s = MemoryStorage::new();
    for p in [5u64, 6, 7] {
        s.enqueue(p).unwrap();
    }
    let mut seen: Vec<u64> = Vec::new();
    while let Some(p) = s.dequeue() {
        assert!(!seen.contains(&p), "payload delivered twice");
        assert!([5u64, 6, 7].contains(&p), "payload never enqueued");
        seen.push(p);
    }
    assert_eq!(seen.len(), 3);
}

#[test]
fn message_queue_trait_has_same_behavior() {
    let mut s = MemoryStorage::new();
    assert_eq!(MessageQueue::enqueue(&mut s, 11), Ok(()));
    assert_eq!(MessageQueue::enqueue(&mut s, 12), Ok(()));
    assert_eq!(MessageQueue::size(&s), 2);
    assert_eq!(MessageQueue::dequeue(&mut s), Some(11));
    assert_eq!(MessageQueue::dequeue(&mut s), Some(12));
    assert_eq!(MessageQueue::dequeue(&mut s), None);
}

#[test]
fn controller_ceiling_limits_dispatch() {
    let mut s = MemoryStorage::with_ceiling(2);
    for p in [1u64, 2, 3] {
        s.enqueue(p).unwrap();
    }
    let a = s.fetch_next().expect("first job admitted");
    assert_eq!(a.args, 1);
    let b = s.fetch_next().expect("second job admitted");
    assert_eq!(b.args, 2);
    // At the ceiling: no third job is produced and the queue keeps it.
    assert!(s.fetch_next().is_none());
    assert_eq!(s.size(), 1);
    // A completion frees a slot and the third job flows.
    s.complete_job();
    let c = s.fetch_next().expect("slot freed");
    assert_eq!(c.args, 3);
}

#[test]
fn zero_ceiling_admits_no_job_at_all() {
    let mut s = MemoryStorage::with_ceiling(0);
    s.enqueue(1).unwrap();
    assert!(s.fetch_next().is_none());
    assert!(s.fetch_next().is_none());
    assert_eq!(s.size(), 1);
}

#[test]
fn paused_backend_produces_nothing() {
    let mut s = MemoryStorage::new();
    s.enqueue(8).unwrap();
    s.pause();
    assert!(s.fetch_next().is_none());
    assert_eq!(s.size(), 1);
    s.resume();
    let r = s.fetch_next().expect("resumed");
    assert_eq!(r.args, 8);
}

#[test]
fn fetched_request_carries_empty_context() {
    let mut s = MemoryStorage::new();
    s.enqueue(3).unwrap();
    let req = s.fetch_next().expect("one job queued");
    assert_eq!(req.args, 3);
    assert_eq!(req.context.get(0), None);
    assert_eq!(req.context.get(17), None);
}
