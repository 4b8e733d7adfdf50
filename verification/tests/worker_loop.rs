use apalis_core::memory::MemoryStorage;
use apalis_core::monitor::Monitor;
use apalis_core::rate::RateLimit;
use apalis_core::worker::Worker;

#[test]
fn worker_executes_jobs_in_enqueue_order() {
    let mut w = Worker::new(MemoryStorage::new());
    for p in [1u64, 2, 3] {
        assert_eq!(w.enqueue(p), Ok(()));
    }
    let mut sink: Vec<u64> = Vec::new();
    while let Some(req) = w.poll_step() {
        sink.push(req.args);
        w.complete_step(true);
    }
    assert_eq!(sink, vec![1, 2, 3]);
    assert_eq!(w.queue_size(), 0);
    assert_eq!(w.failure_count(), 0);
}

#[test]
fn shutdown_stops_new_jobs_and_drains_in_flight() {
    let mut w = Worker::new(MemoryStorage::new());
    w.enqueue(1).unwrap();
    w.enqueue(2).unwrap();
    let first = w.poll_step().expect("first job dispatched");
    assert_eq!(first.args, 1);
    assert_eq!(w.running_count(), 1);

    w.signal_shutdown();
    // No new job is accepted from the signal on; the second stays queued.
    assert!(w.poll_step().is_none());
    assert_eq!(w.queue_size(), 1);
    assert_eq!(w.running_count(), 1);
    assert!(!w.is_terminated());

    // The one job in flight at signal time completes, then the worker stops.
    w.complete_step(true);
    assert_eq!(w.running_count(), 0);
    assert!(w.is_terminated());
    assert!(w.poll_step().is_none());
    assert_eq!(w.queue_size(), 1);
}

#[test]
fn handler_failure_does_not_block_later_jobs() {
    let mut w = Worker::new(MemoryStorage::new());
    w.enqueue(10).unwrap();
    w.enqueue(20).unwrap();

    let x = w.poll_step().expect("first job dispatched");
    assert_eq!(x.args, 10);
    w.complete_step(false);
    assert_eq!(w.failure_count(), 1);

    let y = w.poll_step().expect("failure did not stop the worker");
    assert_eq!(y.args, 20);
    w.complete_step(true);
    assert_eq!(w.failure_count(), 1);
    assert!(!w.is_terminated());
}

#[test]
fn worker_with_ceiling_never_exceeds_it() {
    let mut w = Worker::new(MemoryStorage::with_ceiling(2));
    for p in [1u64, 2, 3, 4] {
        w.enqueue(p).unwrap();
    }
    assert!(w.poll_step().is_some());
    assert!(w.poll_step().is_some());
    assert_eq!(w.running_count(), 2);
    // At the ceiling the poller pauses; the count never exceeds two.
    assert!(w.poll_step().is_none());
    assert_eq!(w.running_count(), 2);
    w.complete_step(true);
    assert!(w.poll_step().is_some());
    assert_eq!(w.running_count(), 2);
}

#[test]
fn idle_worker_polls_again_later() {
    let mut w = Worker::new(MemoryStorage::new());
    assert!(w.poll_step().is_none());
    assert!(w.poll_step().is_none());
    w.enqueue(7).unwrap();
    let r = w.poll_step().expect("job after idle polls");
    assert_eq!(r.args, 7);
}

fn reject_ten(p: u64) -> bool {
    p != 10
}

#[test]
fn execute_next_counts_failures_and_moves_on() {
    let mut w = Worker::new(MemoryStorage::new());
    w.enqueue(10).unwrap();
    w.enqueue(20).unwrap();
    assert_eq!(w.execute_next(&reject_ten), Some(10));
    assert_eq!(w.failure_count(), 1);
    // The failure for payload 10 does not prevent 20 from executing.
    assert_eq!(w.execute_next(&reject_ten), Some(20));
    assert_eq!(w.failure_count(), 1);
    assert_eq!(w.execute_next(&reject_ten), None);
    assert_eq!(w.running_count(), 0);
}

#[test]
fn execute_next_handles_payloads_in_enqueue_order() {
    let mut w = Worker::new(MemoryStorage::new());
    for p in [1u64, 2, 3] {
        w.enqueue(p).unwrap();
    }
    let mut sink: Vec<u64> = Vec::new();
    while let Some(p) = w.execute_next(&|_p: u64| true) {
        sink.push(p);
    }
    assert_eq!(sink, vec![1, 2, 3]);
    assert_eq!(w.queue_size(), 0);
}

#[test]
fn rate_limited_dispatch_spaces_jobs() {
    let mut w = Worker::new(MemoryStorage::new());
    // One permit per 2 time units, three jobs waiting from time 0.
    let mut limiter = RateLimit::new(1, 2);
    for p in [1u64, 2, 3] {
        w.enqueue(p).unwrap();
    }
    let mut clock: u64 = 0;
    let mut completions: Vec<(u64, u64)> = Vec::new();
    while completions.len() < 3 {
        if let Some(req) = w.poll_step_limited(&mut limiter, clock) {
            completions.push((req.args, clock));
            w.complete_step(true);
        } else {
            clock += 1;
        }
    }
    // Two enforced waits: dispatches at 0, 2 and 4, at least 4 units in all.
    assert_eq!(completions, vec![(1, 0), (2, 2), (3, 4)]);
}

#[test]
fn no_permit_is_spent_while_nothing_is_ready() {
    let mut w = Worker::new(MemoryStorage::new());
    let mut limiter = RateLimit::new(1, 2);
    // Empty queue: the limiter is not consulted, so the permit survives.
    assert!(w.poll_step_limited(&mut limiter, 0).is_none());
    w.enqueue(5).unwrap();
    let r = w.poll_step_limited(&mut limiter, 0).expect("permit still available");
    assert_eq!(r.args, 5);
}

#[test]
fn monitor_broadcasts_shutdown_to_every_worker() {
    let monitor = Monitor::new();
    let mut monitor = monitor
        .register(Worker::new(MemoryStorage::new()))
        .register(Worker::new(MemoryStorage::new()));
    assert_eq!(monitor.worker_count(), 2);
    assert!(!monitor.all_terminated());
    monitor.shutdown_all();
    // Both workers were idle, so the broadcast terminates them all.
    assert!(monitor.all_terminated());
}

#[test]
fn empty_monitor_has_nothing_to_wait_for() {
    let monitor = Monitor::new();
    assert_eq!(monitor.worker_count(), 0);
    assert!(monitor.all_terminated());
}
