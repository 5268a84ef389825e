//! The pool state machine: bounded concurrency, exactly-once delivery, and
//! clean teardown, played out on concrete pools.

use mt_server::pool::Pool;
use mt_server::pool::SubmitError;
use mt_server::pool::TakeOutcome;
use mt_server::pool::WorkerState;

#[test]
fn new_pool_all_idle_and_open() {
    let p = Pool::new(3);
    assert_eq!(p.worker_count(), 3);
    assert!(p.is_accepting());
    assert_eq!(p.pending_count(), 0);
    assert_eq!(p.completed_count(), 0);
    for w in 0..3 {
        assert_eq!(p.worker_state(w), WorkerState::Idle);
    }
}

#[test]
fn submit_assigns_fresh_sequential_ids() {
    let mut p = Pool::new(2);
    assert_eq!(p.submit(), Ok(0));
    assert_eq!(p.submit(), Ok(1));
    assert_eq!(p.submit(), Ok(2));
    assert_eq!(p.pending_count(), 3);
    assert_eq!(p.pending_at(0), 0);
    assert_eq!(p.pending_at(1), 1);
    assert_eq!(p.pending_at(2), 2);
    assert_eq!(p.next_job_id(), 3);
}

#[test]
fn fourth_job_waits_for_a_free_worker() {
    // Pool of three; four concurrent submissions. The first three occupy
    // one worker each; the fourth is delivered only after one finishes.
    let mut p = Pool::new(3);
    for _ in 0..4 {
        p.submit().unwrap();
    }
    assert_eq!(p.take(0), TakeOutcome::Job(0));
    assert_eq!(p.take(1), TakeOutcome::Job(1));
    assert_eq!(p.take(2), TakeOutcome::Job(2));
    assert_eq!(p.worker_state(0), WorkerState::Busy(0));
    assert_eq!(p.worker_state(1), WorkerState::Busy(1));
    assert_eq!(p.worker_state(2), WorkerState::Busy(2));
    // Every worker is busy, so the fourth job is still queued.
    assert_eq!(p.pending_count(), 1);
    assert_eq!(p.pending_at(0), 3);
    // One worker completes; only then is the fourth job handed out.
    p.finish(1);
    assert_eq!(p.worker_state(1), WorkerState::Idle);
    assert_eq!(p.completed_count(), 1);
    assert_eq!(p.completed_at(0), 1);
    assert_eq!(p.take(1), TakeOutcome::Job(3));
    assert_eq!(p.pending_count(), 0);
}

#[test]
fn each_job_delivered_exactly_once() {
    let mut p = Pool::new(2);
    p.submit().unwrap();
    p.submit().unwrap();
    assert_eq!(p.take(0), TakeOutcome::Job(0));
    assert_eq!(p.take(1), TakeOutcome::Job(1));
    // Both jobs are in workers' hands; nothing is left to deliver.
    assert_eq!(p.pending_count(), 0);
    p.finish(0);
    p.finish(1);
    assert_eq!(p.completed_count(), 2);
    assert_eq!(p.completed_at(0), 0);
    assert_eq!(p.completed_at(1), 1);
}

#[test]
fn empty_open_queue_asks_worker_to_wait() {
    let mut p = Pool::new(1);
    assert_eq!(p.take(0), TakeOutcome::WouldBlock);
    assert_eq!(p.worker_state(0), WorkerState::Idle);
    assert_eq!(p.take(0), TakeOutcome::WouldBlock);
}

#[test]
fn submit_after_close_is_rejected() {
    let mut p = Pool::new(2);
    p.close();
    assert!(!p.is_accepting());
    assert_eq!(p.submit(), Err(SubmitError::QueueClosed));
    // The rejection left the pool untouched.
    assert_eq!(p.pending_count(), 0);
    assert_eq!(p.next_job_id(), 0);
}

#[test]
fn teardown_stops_every_worker() {
    let mut p = Pool::new(2);
    p.close();
    assert_eq!(p.take(0), TakeOutcome::Closed);
    assert_eq!(p.take(1), TakeOutcome::Closed);
    assert_eq!(p.worker_state(0), WorkerState::Stopped);
    assert_eq!(p.worker_state(1), WorkerState::Stopped);
}

#[test]
fn queued_jobs_drain_before_workers_stop() {
    let mut p = Pool::new(1);
    p.submit().unwrap();
    p.close();
    assert_eq!(p.submit(), Err(SubmitError::QueueClosed));
    // The job queued before the close is still delivered, not lost.
    assert_eq!(p.take(0), TakeOutcome::Job(0));
    p.finish(0);
    assert_eq!(p.completed_at(0), 0);
    // Only a drained closed queue stops the worker.
    assert_eq!(p.take(0), TakeOutcome::Closed);
    assert_eq!(p.worker_state(0), WorkerState::Stopped);
}
