use job_scheduler::broadcast::{Broadcaster, WsMessage};
use job_scheduler::job::{Job, JobOutcome};
use job_scheduler::queue::WorkQueue;
use job_scheduler::status::JobStatus;
use job_scheduler::store::JobStore;
use job_scheduler::worker::{submit, worker_iteration_simple};

fn update_id(m: &WsMessage) -> Option<u128> {
    match m {
        WsMessage::JobStatusUpdate(j) => Some(j.id),
        WsMessage::ServerHeartbeat => None,
    }
}

#[test]
fn subscriber_sees_only_messages_published_after_joining_in_order() {
    let mut tx = Broadcaster::new();
    tx.publish(WsMessage::JobStatusUpdate(Job::queued(
        1,
        "early".to_string(),
        "{}".to_string(),
        50,
    )));
    let mut sub = tx.subscribe();
    tx.publish(WsMessage::ServerHeartbeat);
    tx.publish(WsMessage::JobStatusUpdate(Job::queued(
        2,
        "late".to_string(),
        "{}".to_string(),
        60,
    )));
    let first = tx.recv(&mut sub).expect("first message after joining");
    assert_eq!(update_id(&first), None);
    let second = tx.recv(&mut sub).expect("second message after joining");
    assert_eq!(update_id(&second), Some(2));
    assert!(tx.recv(&mut sub).is_none());
}

#[test]
fn worker_publishes_running_then_terminal_in_order() {
    let mut store = JobStore::new();
    let mut queue = WorkQueue::new();
    let mut tx = Broadcaster::new();
    let mut sub = tx.subscribe();
    submit(
        &mut store,
        &mut queue,
        5,
        "echo".to_string(),
        "{}".to_string(),
        100,
    )
    .unwrap();
    worker_iteration_simple(&mut store, &mut queue, &mut tx, "worker-1", 101, 102).unwrap();
    let first = tx.recv(&mut sub).expect("the RUNNING update");
    match first {
        WsMessage::JobStatusUpdate(j) => {
            assert_eq!(j.status, JobStatus::Running);
            assert_eq!(j.status.as_str(), "RUNNING");
            assert_eq!(j.started_at, Some(101));
            assert_eq!(j.worker_id.as_deref(), Some("worker-1"));
        }
        WsMessage::ServerHeartbeat => panic!("expected a job update"),
    }
    let second = tx.recv(&mut sub).expect("the terminal update");
    match second {
        WsMessage::JobStatusUpdate(j) => {
            assert_eq!(j.status, JobStatus::Completed);
            assert_eq!(j.finished_at, Some(102));
        }
        WsMessage::ServerHeartbeat => panic!("expected a job update"),
    }
    assert!(tx.recv(&mut sub).is_none());
}

#[test]
fn terminal_transition_retried_with_identical_arguments_is_idempotent() {
    let mut store = JobStore::new();
    store
        .insert(1, "echo".to_string(), "{}".to_string(), 100)
        .unwrap();
    store.transition_to_running(1, "worker-1", 101).unwrap();
    let outcome = || JobOutcome::Failure {
        error: "boom".to_string(),
        worker: "worker-1".to_string(),
    };
    let first = store
        .transition_to_terminal(1, JobStatus::Failed, outcome(), 102)
        .unwrap();
    let second = store
        .transition_to_terminal(1, JobStatus::Failed, outcome(), 102)
        .unwrap();
    assert_eq!(first.status, second.status);
    assert_eq!(first.finished_at, second.finished_at);
    assert_eq!(first.started_at, second.started_at);
    assert_eq!(first.worker_id, second.worker_id);
    match (&first.result, &second.result) {
        (
            Some(JobOutcome::Failure { error: e1, worker: w1 }),
            Some(JobOutcome::Failure { error: e2, worker: w2 }),
        ) => {
            assert_eq!(e1, e2);
            assert_eq!(w1, w2);
        }
        _ => panic!("expected failure outcomes on both calls"),
    }
}

#[test]
fn running_transition_retry_is_rejected_and_changes_nothing() {
    let mut store = JobStore::new();
    store
        .insert(1, "echo".to_string(), "{}".to_string(), 100)
        .unwrap();
    store.transition_to_running(1, "worker-1", 101).unwrap();
    let retry = store.transition_to_running(1, "worker-2", 999);
    assert!(retry.is_err());
    let record = store.get(1).unwrap();
    assert_eq!(record.status, JobStatus::Running);
    assert_eq!(record.started_at, Some(101));
    assert_eq!(record.worker_id.as_deref(), Some("worker-1"));
}

#[test]
fn terminal_transition_on_unstarted_record_is_a_conflict() {
    let mut store = JobStore::new();
    store
        .insert(1, "echo".to_string(), "{}".to_string(), 100)
        .unwrap();
    let r = store.transition_to_terminal(
        1,
        JobStatus::Completed,
        JobOutcome::Failure {
            error: "never started".to_string(),
            worker: "worker-1".to_string(),
        },
        102,
    );
    assert!(r.is_err());
    assert_eq!(store.get(1).unwrap().status, JobStatus::Queued);
}

#[test]
fn list_recent_returns_newest_first_with_bounded_count() {
    let mut store = JobStore::new();
    store
        .insert(1, "a".to_string(), "{}".to_string(), 100)
        .unwrap();
    store
        .insert(2, "b".to_string(), "{}".to_string(), 101)
        .unwrap();
    store
        .insert(3, "c".to_string(), "{}".to_string(), 102)
        .unwrap();
    let recent = store.list_recent(2);
    assert_eq!(recent.len(), 2);
    assert_eq!(recent[0].id, 3);
    assert_eq!(recent[1].id, 2);
    let all = store.list_recent(100);
    assert_eq!(all.len(), 3);
    assert_eq!(all[0].id, 3);
    assert_eq!(all[2].id, 1);
}

#[test]
fn status_wire_forms_are_the_four_literals() {
    assert_eq!(JobStatus::Queued.as_str(), "QUEUED");
    assert_eq!(JobStatus::Running.as_str(), "RUNNING");
    assert_eq!(JobStatus::Completed.as_str(), "COMPLETED");
    assert_eq!(JobStatus::Failed.as_str(), "FAILED");
}
