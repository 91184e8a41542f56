//! The lifecycle engine around the store: the submission gateway (insert
//! then enqueue, in that order) and the worker's claim-execute-report
//! iteration, with every persisted transition published to the broadcaster.

use vstd::prelude::*;
use crate::broadcast::{Broadcaster, MsgView, WsMessage};
use crate::executor::{JobExecutor, SimpleJobExecutor, contains_marker};
use crate::ids::{fresh_job_id, job_id_string, parse_job_id, uuid_of, uuid_str_of};
use crate::job::{ExecReport, Job, JobView, OutcomeView, ReportView, queued_view};
use crate::queue::WorkQueue;
use crate::status::JobStatus;
use crate::store::{
    JobStore, StoreError, has_id, insert_applied, insert_result, result_view, running_applied,
    running_result, spec_get, terminal_applied, terminal_result,
};

verus! {

/// The view of an execution result.
pub open spec fn exec_result_view(r: Result<ExecReport, String>) -> Result<ReportView, Seq<char>> {
    match r {
        Result::Ok(rep) => Result::Ok(rep@),
        Result::Err(e) => Result::Err(e@),
    }
}

/// The view of an optional returned record.
pub open spec fn opt_job_view(r: Option<Job>) -> Option<JobView> {
    match r {
        Option::Some(j) => Option::Some(j@),
        Option::None => Option::None,
    }
}

/// The terminal status an execution result maps to: COMPLETED on success,
/// FAILED on failure.
pub open spec fn status_of(r: Result<ReportView, Seq<char>>) -> JobStatus {
    match r {
        Result::Ok(_) => JobStatus::Completed,
        Result::Err(_) => JobStatus::Failed,
    }
}

/// The outcome a terminal transition records: the success payload as the
/// executor returned it, or the failure reason together with the reporting
/// worker's identity.
pub open spec fn outcome_of(r: Result<ReportView, Seq<char>>, worker: Seq<char>) -> OutcomeView {
    match r {
        Result::Ok(rep) => OutcomeView::Success(rep),
        Result::Err(e) => OutcomeView::Failure { error: e, worker: worker },
    }
}

/// The submission gateway's two-step path: insert the QUEUED record, then
/// enqueue its identifier — in that order, and only if the insert
/// succeeded. This is the only path by which jobs enter the system.
pub fn submit(store: &mut JobStore, queue: &mut WorkQueue, id: u128, job_type: String, payload: String, created_at: i64) -> (r: Result<Job, StoreError>)
    requires
        old(store).wf(),
    ensures
        final(store).wf(),
        final(store)@ == insert_applied(old(store)@, id, job_type@, payload@, created_at),
        result_view(r) == insert_result(old(store)@, id, job_type@, payload@, created_at),
        r is Ok ==> final(queue)@ == old(queue)@.push(uuid_str_of(id)) && uuid_of(uuid_str_of(id))
            == Option::Some(id),
        r is Err ==> final(queue)@ == old(queue)@,
{
    match store.insert(id, job_type, payload, created_at) {
        Result::Err(e) => Result::Err(e),
        Result::Ok(rec) => {
            queue.enqueue(job_id_string(id));
            Result::Ok(rec)
        },
    }
}

/// Submission under a freshly drawn random identifier, as the durable store
/// would assign one. Fails only if the drawn identifier collides with an
/// existing record; the store and queue are unchanged on failure.
pub fn submit_new(store: &mut JobStore, queue: &mut WorkQueue, job_type: String, payload: String, created_at: i64) -> (r: Result<Job, StoreError>)
    requires
        old(store).wf(),
    ensures
        final(store).wf(),
        r matches Ok(j) ==> {
            &&& !has_id(old(store)@, j@.id)
            &&& j@ == queued_view(j@.id, job_type@, payload@, created_at)
            &&& final(store)@ == old(store)@.push(j@)
            &&& final(queue)@ == old(queue)@.push(uuid_str_of(j@.id))
            &&& uuid_of(uuid_str_of(j@.id)) == Option::Some(j@.id)
        },
        r is Err ==> final(store)@ == old(store)@ && final(queue)@ == old(queue)@,
{
    let id = fresh_job_id();
    submit(store, queue, id, job_type, payload, created_at)
}

/// Claims a record for a worker: persists the QUEUED -> RUNNING transition
/// and publishes the updated record if and only if the transition
/// persisted. Returns the running record on success.
pub fn claim(store: &mut JobStore, tx: &mut Broadcaster, id: u128, worker_id: &str, started_at: i64) -> (r: Option<Job>)
    requires
        old(store).wf(),
    ensures
        final(store).wf(),
        final(store)@ == running_applied(old(store)@, id, worker_id@, started_at),
        match running_result(old(store)@, id, worker_id@, started_at) {
            Result::Ok(v) => opt_job_view(r) == Option::Some(v) && final(tx)@ == old(tx)@.push(
                MsgView::JobStatusUpdate(v),
            ),
            Result::Err(_) => r is None && final(tx)@ == old(tx)@,
        },
{
    match store.transition_to_running(id, worker_id, started_at) {
        Result::Ok(j) => {
            let ret = j.duplicate();
            tx.publish(WsMessage::JobStatusUpdate(j));
            Option::Some(ret)
        },
        Result::Err(_) => Option::None,
    }
}

/// Reports an execution result: persists the terminal transition —
/// COMPLETED with the success payload, or FAILED with the failure reason
/// and the worker's identity — and publishes the final record if and only
/// if the transition persisted.
pub fn report(store: &mut JobStore, tx: &mut Broadcaster, id: u128, exec_result: Result<ExecReport, String>, worker_id: &str, finished_at: i64) -> (r: Option<Job>)
    requires
        old(store).wf(),
    ensures
        final(store).wf(),
        final(store)@ == terminal_applied(
            old(store)@,
            id,
            status_of(exec_result_view(exec_result)),
            outcome_of(exec_result_view(exec_result), worker_id@),
            finished_at,
        ),
        match terminal_result(
            old(store)@,
            id,
            status_of(exec_result_view(exec_result)),
            outcome_of(exec_result_view(exec_result), worker_id@),
            finished_at,
        ) {
            Result::Ok(v) => opt_job_view(r) == Option::Some(v) && final(tx)@ == old(tx)@.push(
                MsgView::JobStatusUpdate(v),
            ),
            Result::Err(_) => r is None && final(tx)@ == old(tx)@,
        },
{
    let ghost er = exec_result_view(exec_result);
    let (status, outcome) = match exec_result {
        Result::Ok(rep) => (JobStatus::Completed, crate::job::JobOutcome::Success(rep)),
        Result::Err(e) => (
            JobStatus::Failed,
            crate::job::JobOutcome::Failure { error: e, worker: worker_id.to_owned() },
        ),
    };
    proof {
        assert(status == status_of(er));
        assert(outcome@ == outcome_of(er, worker_id@));
    }
    match store.transition_to_terminal(id, status, outcome, finished_at) {
        Result::Ok(j) => {
            let ret = j.duplicate();
            tx.publish(WsMessage::JobStatusUpdate(j));
            Option::Some(ret)
        },
        Result::Err(_) => Option::None,
    }
}

/// What one worker iteration does to the store, the broadcaster and the
/// returned record once an identifier was dequeued, parsed and found, given
/// the result `er` the executor came back with: the RUNNING transition is
/// applied and published when it persists; the terminal transition then
/// records `er` and is published when it persists; the loop proceeds either
/// way.
pub open spec fn processed_post(
    s0: Seq<JobView>,
    tx0: Seq<MsgView>,
    s2: Seq<JobView>,
    tx2: Seq<MsgView>,
    r: Option<JobView>,
    id: u128,
    worker: Seq<char>,
    started_at: i64,
    finished_at: i64,
    er: Result<ReportView, Seq<char>>,
) -> bool {
    let s1 = running_applied(s0, id, worker, started_at);
    let tx1 = match running_result(s0, id, worker, started_at) {
        Result::Ok(v) => tx0.push(MsgView::JobStatusUpdate(v)),
        Result::Err(_) => tx0,
    };
    let status = status_of(er);
    let outcome = outcome_of(er, worker);
    &&& s2 == terminal_applied(s1, id, status, outcome, finished_at)
    &&& tx2 == (match terminal_result(s1, id, status, outcome, finished_at) {
        Result::Ok(v) => tx1.push(MsgView::JobStatusUpdate(v)),
        Result::Err(_) => tx1,
    })
    &&& r == (match terminal_result(s1, id, status, outcome, finished_at) {
        Result::Ok(v) => Option::Some(v),
        Result::Err(_) => Option::None,
    })
}

/// One iteration of the worker loop, with the executor injected: dequeue
/// with a bounded wait (`None` from the queue models a timeout and is not
/// an error); discard a malformed identifier; skip an identifier with no
/// record; otherwise claim the record, run the executor on the record as
/// fetched, and report the result. Returns the persisted terminal record,
/// when there was one.
pub fn worker_iteration<E: JobExecutor>(store: &mut JobStore, queue: &mut WorkQueue, tx: &mut Broadcaster, executor: &E, worker_id: &str, started_at: i64, finished_at: i64) -> (r: Option<Job>)
    requires
        old(store).wf(),
    ensures
        final(store).wf(),
        old(queue)@.len() == 0 ==> final(queue)@ == old(queue)@ && final(store)@ == old(store)@
            && final(tx)@ == old(tx)@ && r is None,
        old(queue)@.len() > 0 ==> final(queue)@ == old(queue)@.drop_first() && (match uuid_of(
            old(queue)@[0],
        ) {
            Option::None => final(store)@ == old(store)@ && final(tx)@ == old(tx)@ && r is None,
            Option::Some(id) => {
                if !has_id(old(store)@, id) {
                    final(store)@ == old(store)@ && final(tx)@ == old(tx)@ && r is None
                } else {
                    exists|er: Result<ReportView, Seq<char>>|
                        #[trigger] processed_post(
                            old(store)@,
                            old(tx)@,
                            final(store)@,
                            final(tx)@,
                            opt_job_view(r),
                            id,
                            worker_id@,
                            started_at,
                            finished_at,
                            er,
                        )
                }
            },
        }),
{
    let raw = match queue.dequeue() {
        Option::None => {
            return Option::None;
        },
        Option::Some(raw) => raw,
    };
    let id = match parse_job_id(raw.as_str()) {
        Option::None => {
            return Option::None;
        },
        Option::Some(id) => id,
    };
    let job = match store.get(id) {
        Result::Err(_) => {
            return Option::None;
        },
        Result::Ok(j) => j,
    };
    let _running = claim(store, tx, id, worker_id, started_at);
    let exec_result = executor.execute(&job);
    let ghost er = exec_result_view(exec_result);
    let ret = report(store, tx, id, exec_result, worker_id, finished_at);
    proof {
        assert(processed_post(
            old(store)@,
            old(tx)@,
            store@,
            tx@,
            opt_job_view(ret),
            id,
            worker_id@,
            started_at,
            finished_at,
            er,
        ));
    }
    ret
}

/// One iteration of the worker loop with the reference executor, stated
/// exactly: when the dequeued identifier names a record, that record's
/// execution fails precisely when its job type contains the failure marker,
/// and a success payload echoes that record's input payload.
pub fn worker_iteration_simple(store: &mut JobStore, queue: &mut WorkQueue, tx: &mut Broadcaster, worker_id: &str, started_at: i64, finished_at: i64) -> (r: Option<Job>)
    requires
        old(store).wf(),
    ensures
        final(store).wf(),
        old(queue)@.len() == 0 ==> final(queue)@ == old(queue)@ && final(store)@ == old(store)@
            && final(tx)@ == old(tx)@ && r is None,
        old(queue)@.len() > 0 ==> final(queue)@ == old(queue)@.drop_first() && (match uuid_of(
            old(queue)@[0],
        ) {
            Option::None => final(store)@ == old(store)@ && final(tx)@ == old(tx)@ && r is None,
            Option::Some(id) => {
                if !has_id(old(store)@, id) {
                    final(store)@ == old(store)@ && final(tx)@ == old(tx)@ && r is None
                } else {
                    let j0 = spec_get(old(store)@, id)->Some_0;
                    exists|er: Result<ReportView, Seq<char>>|
                        {
                            &&& #[trigger] processed_post(
                                old(store)@,
                                old(tx)@,
                                final(store)@,
                                final(tx)@,
                                opt_job_view(r),
                                id,
                                worker_id@,
                                started_at,
                                finished_at,
                                er,
                            )
                            &&& (er is Err <==> contains_marker(j0.job_type))
                            &&& (er matches Ok(rep) ==> rep.worker_id == "worker-1"@ && 1
                                <= rep.duration_s <= 10 && rep.input_payload == j0.payload)
                            &&& (er matches Err(e) ==> e.len() > 0)
                        }
                }
            },
        }),
{
    let raw = match queue.dequeue() {
        Option::None => {
            return Option::None;
        },
        Option::Some(raw) => raw,
    };
    let id = match parse_job_id(raw.as_str()) {
        Option::None => {
            return Option::None;
        },
        Option::Some(id) => id,
    };
    let job = match store.get(id) {
        Result::Err(_) => {
            return Option::None;
        },
        Result::Ok(j) => j,
    };
    let _running = claim(store, tx, id, worker_id, started_at);
    let executor = SimpleJobExecutor;
    let exec_result = executor.execute_job(&job);
    let ghost er = exec_result_view(exec_result);
    let ret = report(store, tx, id, exec_result, worker_id, finished_at);
    proof {
        assert(processed_post(
            old(store)@,
            old(tx)@,
            store@,
            tx@,
            opt_job_view(ret),
            id,
            worker_id@,
            started_at,
            finished_at,
            er,
        ));
    }
    ret
}

} // verus!
