use job_scheduler::broadcast::Broadcaster;
use job_scheduler::job::JobOutcome;
use job_scheduler::queue::WorkQueue;
use job_scheduler::status::JobStatus;
use job_scheduler::store::{JobStore, StoreError};
use job_scheduler::worker::{submit, submit_new, worker_iteration, worker_iteration_simple};
use job_scheduler::executor::SimpleJobExecutor;

#[test]
fn insert_then_get_returns_queued_record() {
    let mut store = JobStore::new();
    let mut queue = WorkQueue::new();
    let r = submit(
        &mut store,
        &mut queue,
        1,
        "echo".to_string(),
        "{\"x\":1}".to_string(),
        100,
    );
    assert!(r.is_ok());
    let job = store.get(1).unwrap();
    assert_eq!(job.id, 1);
    assert_eq!(job.job_type, "echo");
    assert_eq!(job.payload, "{\"x\":1}");
    assert_eq!(job.status, JobStatus::Queued);
    assert_eq!(job.status.as_str(), "QUEUED");
    assert!(job.result.is_none());
    assert!(job.started_at.is_none());
    assert!(job.finished_at.is_none());
    assert!(job.worker_id.is_none());
    assert_eq!(job.created_at, 100);
    assert_eq!(queue.len(), 1);
}

#[test]
fn get_on_unused_identifier_is_not_found() {
    let mut store = JobStore::new();
    let mut queue = WorkQueue::new();
    submit(
        &mut store,
        &mut queue,
        1,
        "echo".to_string(),
        "{}".to_string(),
        100,
    )
    .unwrap();
    let r = store.get(0x5d41402abc4b2a76b9719d911017c592);
    assert_eq!(r.unwrap_err(), StoreError::NotFound);
}

#[test]
fn duplicate_insert_is_a_conflict_and_enqueues_nothing() {
    let mut store = JobStore::new();
    let mut queue = WorkQueue::new();
    submit(
        &mut store,
        &mut queue,
        1,
        "echo".to_string(),
        "{}".to_string(),
        100,
    )
    .unwrap();
    let r = submit(
        &mut store,
        &mut queue,
        1,
        "other".to_string(),
        "{}".to_string(),
        101,
    );
    assert_eq!(r.unwrap_err(), StoreError::Conflict);
    assert_eq!(queue.len(), 1);
    assert_eq!(store.len(), 1);
}

#[test]
fn scenario_echo_job_completes_with_echoed_payload() {
    let mut store = JobStore::new();
    let mut queue = WorkQueue::new();
    let mut tx = Broadcaster::new();
    submit(
        &mut store,
        &mut queue,
        7,
        "echo".to_string(),
        "{\"x\":1}".to_string(),
        100,
    )
    .unwrap();
    let done = worker_iteration_simple(&mut store, &mut queue, &mut tx, "worker-1", 101, 105);
    let done = done.expect("the job should reach a terminal state");
    assert_eq!(done.status, JobStatus::Completed);
    match &done.result {
        Some(JobOutcome::Success(rep)) => {
            assert_eq!(rep.input_payload, "{\"x\":1}");
            assert_eq!(rep.worker_id, "worker-1");
            assert!(rep.duration_s >= 1 && rep.duration_s <= 10);
        }
        other => panic!("expected a success outcome, got {:?}", other.is_some()),
    }
    let stored = store.get(7).unwrap();
    assert_eq!(stored.status, JobStatus::Completed);
    assert_eq!(stored.started_at, Some(101));
    assert_eq!(stored.finished_at, Some(105));
    assert_eq!(stored.worker_id.as_deref(), Some("worker-1"));
    assert!(stored.started_at.unwrap() < stored.finished_at.unwrap());
    assert_eq!(queue.len(), 0);
}

#[test]
fn scenario_fail_marker_job_fails_with_reason() {
    let mut store = JobStore::new();
    let mut queue = WorkQueue::new();
    let mut tx = Broadcaster::new();
    submit(
        &mut store,
        &mut queue,
        9,
        "force-fail-test".to_string(),
        "{}".to_string(),
        100,
    )
    .unwrap();
    let done = worker_iteration_simple(&mut store, &mut queue, &mut tx, "worker-1", 101, 102);
    let done = done.expect("the job should reach a terminal state");
    assert_eq!(done.status, JobStatus::Failed);
    assert_eq!(done.status.as_str(), "FAILED");
    match &done.result {
        Some(JobOutcome::Failure { error, worker }) => {
            assert!(!error.is_empty());
            assert_eq!(worker, "worker-1");
        }
        _ => panic!("expected a failure outcome"),
    }
}

#[test]
fn scenario_two_jobs_two_workers_both_terminal() {
    let mut store = JobStore::new();
    let mut queue = WorkQueue::new();
    let mut tx = Broadcaster::new();
    submit(
        &mut store,
        &mut queue,
        1,
        "echo".to_string(),
        "{\"a\":1}".to_string(),
        100,
    )
    .unwrap();
    submit(
        &mut store,
        &mut queue,
        2,
        "force-fail-test".to_string(),
        "{\"b\":2}".to_string(),
        100,
    )
    .unwrap();
    let first = worker_iteration_simple(&mut store, &mut queue, &mut tx, "worker-a", 101, 103);
    let second = worker_iteration_simple(&mut store, &mut queue, &mut tx, "worker-b", 102, 104);
    let first = first.expect("first job should reach a terminal state");
    let second = second.expect("second job should reach a terminal state");
    assert_eq!(first.id, 1);
    assert_eq!(first.status, JobStatus::Completed);
    assert!(first.started_at.unwrap() < first.finished_at.unwrap());
    assert_eq!(second.id, 2);
    assert_eq!(second.status, JobStatus::Failed);
    assert!(second.started_at.unwrap() < second.finished_at.unwrap());
    assert_eq!(second.worker_id.as_deref(), Some("worker-b"));
}

#[test]
fn scenario_crash_after_dequeue_leaves_record_queued() {
    let mut store = JobStore::new();
    let mut queue = WorkQueue::new();
    let mut tx = Broadcaster::new();
    submit(
        &mut store,
        &mut queue,
        4,
        "echo".to_string(),
        "{}".to_string(),
        100,
    )
    .unwrap();
    // The worker crashes right after the pop: the identifier is consumed
    // and no store write ever happens.
    let raw = queue.dequeue();
    assert!(raw.is_some());
    drop(raw);
    // No worker will ever see the identifier again; the record stays QUEUED.
    let idle = worker_iteration_simple(&mut store, &mut queue, &mut tx, "worker-1", 101, 102);
    assert!(idle.is_none());
    let stored = store.get(4).unwrap();
    assert_eq!(stored.status, JobStatus::Queued);
    assert!(stored.started_at.is_none());
    assert_eq!(tx.len(), 0);
}

#[test]
fn malformed_identifier_is_discarded() {
    let mut store = JobStore::new();
    let mut queue = WorkQueue::new();
    let mut tx = Broadcaster::new();
    submit(
        &mut store,
        &mut queue,
        4,
        "echo".to_string(),
        "{}".to_string(),
        100,
    )
    .unwrap();
    queue.enqueue("not-a-uuid".to_string());
    // First iteration processes the real job; the second hits the garbage
    // entry, discards it, and touches nothing.
    worker_iteration_simple(&mut store, &mut queue, &mut tx, "worker-1", 101, 102).unwrap();
    let before = store.len();
    let r = worker_iteration_simple(&mut store, &mut queue, &mut tx, "worker-1", 103, 104);
    assert!(r.is_none());
    assert_eq!(store.len(), before);
    assert_eq!(queue.len(), 0);
}

#[test]
fn missing_record_is_skipped() {
    let mut store = JobStore::new();
    let mut queue = WorkQueue::new();
    let mut tx = Broadcaster::new();
    // A well-formed identifier with no record behind it: skipped, not retried.
    queue.enqueue("a1a2a3a4-b1b2-c1c2-d1d2-d3d4d5d6d7d8".to_string());
    let r = worker_iteration_simple(&mut store, &mut queue, &mut tx, "worker-1", 101, 102);
    assert!(r.is_none());
    assert_eq!(queue.len(), 0);
    assert_eq!(tx.len(), 0);
}

#[test]
fn submission_under_random_identifier_round_trips() {
    let mut store = JobStore::new();
    let mut queue = WorkQueue::new();
    let mut tx = Broadcaster::new();
    let job = submit_new(
        &mut store,
        &mut queue,
        "echo".to_string(),
        "{\"k\":true}".to_string(),
        100,
    )
    .unwrap();
    // The queue carries the identifier as text; the worker parses it back
    // and finds the same record.
    let done = worker_iteration_simple(&mut store, &mut queue, &mut tx, "worker-1", 101, 102);
    let done = done.expect("the enqueued identifier should parse back to the record");
    assert_eq!(done.id, job.id);
    assert_eq!(done.status, JobStatus::Completed);
}

#[test]
fn queue_carries_the_hyphenated_identifier_text() {
    let mut store = JobStore::new();
    let mut queue = WorkQueue::new();
    submit(
        &mut store,
        &mut queue,
        0xa1a2a3a4b1b2c1c2d1d2d3d4d5d6d7d8,
        "echo".to_string(),
        "{}".to_string(),
        100,
    )
    .unwrap();
    let raw = queue.dequeue().expect("the identifier was enqueued");
    assert_eq!(raw, "a1a2a3a4-b1b2-c1c2-d1d2-d3d4d5d6d7d8");
}

#[test]
fn injected_executor_drives_the_iteration() {
    let mut store = JobStore::new();
    let mut queue = WorkQueue::new();
    let mut tx = Broadcaster::new();
    submit(
        &mut store,
        &mut queue,
        3,
        "echo".to_string(),
        "{}".to_string(),
        100,
    )
    .unwrap();
    let executor = SimpleJobExecutor;
    let done = worker_iteration(
        &mut store,
        &mut queue,
        &mut tx,
        &executor,
        "worker-1",
        101,
        102,
    );
    assert_eq!(done.unwrap().status, JobStatus::Completed);
}
