//! Lifecycle laws of the store, stated over the spec-level transition
//! functions that the executable store methods are proved to implement.

use vstd::prelude::*;
use crate::broadcast::MsgView;
use crate::job::{JobView, OutcomeView, ReportView, queued_view, running_view, terminal_view};
use crate::status::JobStatus;
use crate::store::{
    all_wf, has_id, ids_unique, idx_of, insert_applied, lemma_found_idx, lemma_update_same_id_wf,
    running_applied, running_result, spec_get, terminal_applied, terminal_result,
};
use crate::worker::{outcome_of, processed_post, status_of};

verus! {

/// Law: inserting a fresh record and looking its identifier up returns a
/// record in QUEUED state, with no result, no `started_at` and no
/// `finished_at`.
pub proof fn lemma_insert_then_get(s: Seq<JobView>, id: u128, job_type: Seq<char>, payload: Seq<char>, created_at: i64)
    requires
        ids_unique(s),
        !has_id(s, id),
    ensures
        ({
            let s1 = insert_applied(s, id, job_type, payload, created_at);
            let rec = spec_get(s1, id);
            &&& rec == Option::Some(queued_view(id, job_type, payload, created_at))
            &&& rec->Some_0.status == JobStatus::Queued
            &&& rec->Some_0.result is None
            &&& rec->Some_0.started_at is None
            &&& rec->Some_0.finished_at is None
        }),
{
    let s1 = insert_applied(s, id, job_type, payload, created_at);
    assert(s1 == s.push(queued_view(id, job_type, payload, created_at)));
    assert forall|i: int, j: int|
        0 <= i < s1.len() && 0 <= j < s1.len() && i != j
        implies #[trigger] s1[i].id != #[trigger] s1[j].id by {
        if i < s.len() && j < s.len() {
            assert(s[i].id != s[j].id);
        } else if i < s.len() {
            assert(s[i].id != id);
        } else {
            assert(s[j].id != id);
        }
    }
    lemma_found_idx(s1, id, s.len() as int);
}

/// Law: each transition is idempotent in effect when retried with identical
/// arguments. Applying the same terminal transition twice yields the store
/// the first application yields, and the retry returns the same final
/// record.
pub proof fn lemma_terminal_transition_idempotent(s: Seq<JobView>, id: u128, status: JobStatus, outcome: OutcomeView, finished_at: i64)
    requires
        ids_unique(s),
        all_wf(s),
        status.is_terminal(),
    ensures
        ({
            let s1 = terminal_applied(s, id, status, outcome, finished_at);
            &&& terminal_applied(s1, id, status, outcome, finished_at) == s1
            &&& (terminal_result(s, id, status, outcome, finished_at) is Ok ==> terminal_result(
                s1,
                id,
                status,
                outcome,
                finished_at,
            ) == terminal_result(s, id, status, outcome, finished_at))
        }),
{
    let s1 = terminal_applied(s, id, status, outcome, finished_at);
    if terminal_result(s, id, status, outcome, finished_at) is Ok {
        let i = idx_of(s, id);
        let j0 = s[i];
        let v = terminal_view(j0, status, outcome, finished_at);
        assert(s1 == s.update(i, v));
        assert(s1[i] == v);
        lemma_update_same_id_wf(s, i, s1);
        lemma_found_idx(s1, id, i);
        assert(v.status != JobStatus::Queued);
        assert(terminal_view(v, status, outcome, finished_at) == v);
        assert(s1.update(i, v) =~= s1);
    } else {
        assert(s1 == s);
    }
}

/// Law: retrying the QUEUED -> RUNNING transition with identical arguments
/// leaves the store exactly as the first application left it (the retry is
/// rejected as a conflict and changes nothing).
pub proof fn lemma_running_transition_idempotent(s: Seq<JobView>, id: u128, worker: Seq<char>, started_at: i64)
    requires
        ids_unique(s),
        all_wf(s),
    ensures
        ({
            let s1 = running_applied(s, id, worker, started_at);
            running_applied(s1, id, worker, started_at) == s1
        }),
{
    let s1 = running_applied(s, id, worker, started_at);
    if running_result(s, id, worker, started_at) is Ok {
        let i = idx_of(s, id);
        let v = running_view(s[i], worker, started_at);
        assert(s1 == s.update(i, v));
        assert(s1[i] == v);
        lemma_update_same_id_wf(s, i, s1);
        lemma_found_idx(s1, id, i);
        assert(v.status != JobStatus::Queued);
    } else {
        assert(s1 == s);
    }
}

/// Law: a job processed end to end is observed in the exact sequence
/// QUEUED, RUNNING, then the terminal state; its `started_at` is strictly
/// before its `finished_at`; `finished_at` is set if and only if the state
/// is terminal; and the store invariant holds at every step.
pub proof fn lemma_lifecycle_sequence(s: Seq<JobView>, id: u128, worker: Seq<char>, started_at: i64, status: JobStatus, outcome: OutcomeView, finished_at: i64)
    requires
        ids_unique(s),
        all_wf(s),
        spec_get(s, id) matches Some(j0) && j0.status == JobStatus::Queued,
        started_at < finished_at,
        status.is_terminal(),
    ensures
        ({
            let s1 = running_applied(s, id, worker, started_at);
            let s2 = terminal_applied(s1, id, status, outcome, finished_at);
            &&& spec_get(s, id)->Some_0.status == JobStatus::Queued
            &&& spec_get(s1, id) matches Some(j1) && j1.status == JobStatus::Running
                && j1.started_at == Option::Some(started_at) && j1.finished_at is None
            &&& spec_get(s2, id) matches Some(j2) && j2.status == status && j2.started_at
                == Option::Some(started_at) && j2.finished_at == Option::Some(finished_at)
                && started_at < finished_at && j2.result == Option::Some(outcome) && j2.wf()
            &&& ids_unique(s2) && all_wf(s2)
        }),
{
    let i = idx_of(s, id);
    let j0 = s[i];
    assert(has_id(s, id));
    assert(0 <= i < s.len() && s[i].id == id);
    assert(j0.wf());
    let j1 = running_view(j0, worker, started_at);
    let s1 = running_applied(s, id, worker, started_at);
    assert(s1 == s.update(i, j1));
    assert(s1[i] == j1);
    assert(j1.wf());
    lemma_update_same_id_wf(s, i, s1);
    lemma_found_idx(s1, id, i);
    let j2 = terminal_view(j1, status, outcome, finished_at);
    let s2 = terminal_applied(s1, id, status, outcome, finished_at);
    assert(s2 == s1.update(i, j2));
    assert(s2[i] == j2);
    assert(j2.wf());
    lemma_update_same_id_wf(s1, i, s2);
    lemma_found_idx(s2, id, i);
}

/// Law: when a worker iteration processes a record that was QUEUED, both
/// transitions persist, and exactly two messages are published, in order:
/// first the RUNNING record, then the terminal record — so every subscriber
/// observes the status updates of that job in lifecycle order.
pub proof fn lemma_worker_publishes_lifecycle_in_order(
    s0: Seq<JobView>,
    tx0: Seq<MsgView>,
    s2: Seq<JobView>,
    tx2: Seq<MsgView>,
    r: Option<JobView>,
    id: u128,
    worker: Seq<char>,
    started_at: i64,
    finished_at: i64,
    er: Result<ReportView, Seq<char>>,
)
    requires
        ids_unique(s0),
        all_wf(s0),
        spec_get(s0, id) matches Some(j0) && j0.status == JobStatus::Queued,
        processed_post(s0, tx0, s2, tx2, r, id, worker, started_at, finished_at, er),
    ensures
        ({
            let j0 = spec_get(s0, id)->Some_0;
            let j1 = running_view(j0, worker, started_at);
            let j2 = terminal_view(j1, status_of(er), outcome_of(er, worker), finished_at);
            &&& tx2 == tx0.push(MsgView::JobStatusUpdate(j1)).push(MsgView::JobStatusUpdate(j2))
            &&& j1.status == JobStatus::Running
            &&& j2.status == status_of(er)
            &&& j2.status.is_terminal()
            &&& r == Option::Some(j2)
            &&& spec_get(s2, id) == Option::Some(j2)
            &&& ids_unique(s2) && all_wf(s2)
        }),
{
    let i = idx_of(s0, id);
    let j0 = s0[i];
    assert(has_id(s0, id));
    assert(0 <= i < s0.len() && s0[i].id == id);
    assert(j0.wf());
    let j1 = running_view(j0, worker, started_at);
    let s1 = running_applied(s0, id, worker, started_at);
    assert(running_result(s0, id, worker, started_at) == Result::<JobView, crate::store::StoreError>::Ok(j1));
    assert(s1 == s0.update(i, j1));
    assert(s1[i] == j1);
    assert(j1.wf());
    lemma_update_same_id_wf(s0, i, s1);
    lemma_found_idx(s1, id, i);
    let st = status_of(er);
    let oc = outcome_of(er, worker);
    let j2 = terminal_view(j1, st, oc, finished_at);
    assert(terminal_result(s1, id, st, oc, finished_at) == Result::<JobView, crate::store::StoreError>::Ok(j2));
    let s2x = terminal_applied(s1, id, st, oc, finished_at);
    assert(s2x == s1.update(i, j2));
    assert(s2x[i] == j2);
    assert(j2.wf());
    lemma_update_same_id_wf(s1, i, s2x);
    lemma_found_idx(s2x, id, i);
}

} // verus!
