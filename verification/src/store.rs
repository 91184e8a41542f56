//! The Job Store: the single source of truth for job records. Records are
//! kept in insertion order; each lifecycle transition is a single-record
//! update whose effect is stated exactly by the `*_applied` and `*_result`
//! spec functions below.

use vstd::prelude::*;
use vstd::pervasive::VecAdditionalExecFns;
use crate::job::{Job, JobOutcome, JobView, OutcomeView, queued_view, running_view, terminal_view};
use crate::status::JobStatus;

verus! {

/// How a store operation fails: the referenced record is absent, or the
/// operation conflicts with the record's current state (an insert under an
/// identifier already taken, or a transition the lifecycle does not allow).
#[derive(Clone, Copy, Debug, PartialEq, Eq, Structural)]
pub enum StoreError {
    NotFound,
    Conflict,
}

/// No two records share an identifier.
pub open spec fn ids_unique(s: Seq<JobView>) -> bool {
    forall|i: int, j: int|
        0 <= i < s.len() && 0 <= j < s.len() && i != j ==> #[trigger] s[i].id != #[trigger] s[j].id
}

/// Every record is well-formed.
pub open spec fn all_wf(s: Seq<JobView>) -> bool {
    forall|i: int| 0 <= i < s.len() ==> (#[trigger] s[i]).wf()
}

/// Some record carries the identifier.
pub open spec fn has_id(s: Seq<JobView>, id: u128) -> bool {
    exists|i: int| 0 <= i < s.len() && (#[trigger] s[i]).id == id
}

/// The position of the record with the identifier (meaningful when
/// `has_id` holds and identifiers are unique).
pub open spec fn idx_of(s: Seq<JobView>, id: u128) -> int {
    choose|i: int| 0 <= i < s.len() && (#[trigger] s[i]).id == id
}

/// The record with the identifier, if any.
pub open spec fn spec_get(s: Seq<JobView>, id: u128) -> Option<JobView> {
    if has_id(s, id) {
        Option::Some(s[idx_of(s, id)])
    } else {
        Option::None
    }
}

/// What `get` returns: the record, or NotFound.
pub open spec fn get_result(s: Seq<JobView>, id: u128) -> Result<JobView, StoreError> {
    match spec_get(s, id) {
        Option::Some(j) => Result::Ok(j),
        Option::None => Result::Err(StoreError::NotFound),
    }
}

/// What `insert` returns: the fresh QUEUED record, or Conflict when the
/// identifier is already taken.
pub open spec fn insert_result(s: Seq<JobView>, id: u128, job_type: Seq<char>, payload: Seq<char>, created_at: i64) -> Result<JobView, StoreError> {
    if has_id(s, id) {
        Result::Err(StoreError::Conflict)
    } else {
        Result::Ok(queued_view(id, job_type, payload, created_at))
    }
}

/// The store after `insert`: unchanged on conflict, else the fresh record
/// appended.
pub open spec fn insert_applied(s: Seq<JobView>, id: u128, job_type: Seq<char>, payload: Seq<char>, created_at: i64) -> Seq<JobView> {
    if has_id(s, id) {
        s
    } else {
        s.push(queued_view(id, job_type, payload, created_at))
    }
}

/// What `transition_to_running` returns: the updated record when the job is
/// present and still QUEUED; NotFound when absent; Conflict when the job has
/// already been claimed or finished.
pub open spec fn running_result(s: Seq<JobView>, id: u128, worker: Seq<char>, started_at: i64) -> Result<JobView, StoreError> {
    match spec_get(s, id) {
        Option::None => Result::Err(StoreError::NotFound),
        Option::Some(j) => if j.status == JobStatus::Queued {
            Result::Ok(running_view(j, worker, started_at))
        } else {
            Result::Err(StoreError::Conflict)
        },
    }
}

/// The store after `transition_to_running`: unchanged unless the transition
/// succeeds, in which case exactly the one record is replaced.
pub open spec fn running_applied(s: Seq<JobView>, id: u128, worker: Seq<char>, started_at: i64) -> Seq<JobView> {
    match running_result(s, id, worker, started_at) {
        Result::Ok(v) => s.update(idx_of(s, id), v),
        Result::Err(_) => s,
    }
}

/// What `transition_to_terminal` returns: the finished record when the job
/// is present and has left QUEUED; NotFound when absent; Conflict on a
/// record that was never started.
pub open spec fn terminal_result(s: Seq<JobView>, id: u128, status: JobStatus, outcome: OutcomeView, finished_at: i64) -> Result<JobView, StoreError> {
    match spec_get(s, id) {
        Option::None => Result::Err(StoreError::NotFound),
        Option::Some(j) => if j.status == JobStatus::Queued {
            Result::Err(StoreError::Conflict)
        } else {
            Result::Ok(terminal_view(j, status, outcome, finished_at))
        },
    }
}

/// The store after `transition_to_terminal`: unchanged unless the
/// transition succeeds, in which case exactly the one record is replaced.
pub open spec fn terminal_applied(s: Seq<JobView>, id: u128, status: JobStatus, outcome: OutcomeView, finished_at: i64) -> Seq<JobView> {
    match terminal_result(s, id, status, outcome, finished_at) {
        Result::Ok(v) => s.update(idx_of(s, id), v),
        Result::Err(_) => s,
    }
}

/// The view of a store operation's return value.
pub open spec fn result_view(r: Result<Job, StoreError>) -> Result<JobView, StoreError> {
    match r {
        Result::Ok(j) => Result::Ok(j@),
        Result::Err(e) => Result::Err(e),
    }
}

/// With unique identifiers, a record found at position `i` is the one
/// `idx_of` picks.
pub proof fn lemma_found_idx(s: Seq<JobView>, id: u128, i: int)
    requires
        ids_unique(s),
        0 <= i < s.len(),
        s[i].id == id,
    ensures
        has_id(s, id),
        idx_of(s, id) == i,
        spec_get(s, id) == Option::Some(s[i]),
{
    assert(has_id(s, id));
    let j = idx_of(s, id);
    assert(0 <= j < s.len() && s[j].id == id);
    if i != j {
        assert(s[i].id != s[j].id);
    }
}

/// Durable table of job records, keyed by identifier, kept in insertion
/// order.
pub struct JobStore {
    jobs: Vec<Job>,
}

impl View for JobStore {
    type V = Seq<JobView>;

    closed spec fn view(&self) -> Seq<JobView> {
        Seq::new(self.jobs@.len(), |i: int| self.jobs@[i]@)
    }
}

impl JobStore {
    /// Identifiers are unique and every record is well-formed.
    pub open spec fn wf(self) -> bool {
        ids_unique(self@) && all_wf(self@)
    }

    /// An empty store.
    pub fn new() -> (r: JobStore)
        ensures
            r@ == Seq::<JobView>::empty(),
            r.wf(),
    {
        let r = JobStore { jobs: Vec::new() };
        proof {
            assert(r@ =~= Seq::<JobView>::empty());
        }
        r
    }

    /// The number of records held.
    pub fn len(&self) -> (n: usize)
        ensures
            n == self@.len(),
    {
        self.jobs.len()
    }

    fn find_index(&self, id: u128) -> (r: Option<usize>)
        ensures
            match r {
                Option::Some(i) => 0 <= i < self@.len() && self@[i as int].id == id,
                Option::None => !has_id(self@, id),
            },
    {
        let n = self.jobs.len();
        let mut i: usize = 0;
        while i < n
            invariant
                n == self@.len(),
                i <= n,
                forall|k: int| 0 <= k < i ==> (#[trigger] self@[k]).id != id,
            decreases n - i,
        {
            if self.jobs[i].id == id {
                return Option::Some(i);
            }
            i = i + 1;
        }
        Option::None
    }

    /// Creates a record in QUEUED state under the given identifier, or
    /// fails with Conflict when the identifier is already taken; the store
    /// is unchanged on failure.
    pub fn insert(&mut self, id: u128, job_type: String, payload: String, created_at: i64) -> (r: Result<Job, StoreError>)
        requires
            old(self).wf(),
        ensures
            final(self).wf(),
            final(self)@ == insert_applied(old(self)@, id, job_type@, payload@, created_at),
            result_view(r) == insert_result(old(self)@, id, job_type@, payload@, created_at),
    {
        match self.find_index(id) {
            Option::Some(_) => Result::Err(StoreError::Conflict),
            Option::None => {
                let j = Job::queued(id, job_type, payload, created_at);
                let ret = j.duplicate();
                let ghost s0 = self@;
                self.jobs.push(j);
                proof {
                    assert(self@ =~= s0.push(queued_view(id, ret@.job_type, ret@.payload, created_at)));
                    assert forall|i: int, k: int|
                        0 <= i < self@.len() && 0 <= k < self@.len() && i != k
                        implies #[trigger] self@[i].id != #[trigger] self@[k].id by {
                        if i < s0.len() && k < s0.len() {
                            assert(s0[i].id != s0[k].id);
                        } else if i < s0.len() {
                            assert(!has_id(s0, id));
                            assert(s0[i].id != id);
                        } else {
                            assert(!has_id(s0, id));
                            assert(s0[k].id != id);
                        }
                    }
                }
                Result::Ok(ret)
            },
        }
    }

    /// Looks a record up by identifier; fails with NotFound when no record
    /// exists for it.
    pub fn get(&self, id: u128) -> (r: Result<Job, StoreError>)
        requires
            self.wf(),
        ensures
            result_view(r) == get_result(self@, id),
    {
        match self.find_index(id) {
            Option::Some(i) => {
                proof {
                    lemma_found_idx(self@, id, i as int);
                }
                Result::Ok(self.jobs[i].duplicate())
            },
            Option::None => Result::Err(StoreError::NotFound),
        }
    }

    /// Claims a QUEUED record for a worker: sets status RUNNING,
    /// `started_at` and `worker_id`, and returns the updated record.
    /// Fails with NotFound when the record is absent, and with Conflict
    /// when the record has already left QUEUED; the store is unchanged on
    /// failure.
    pub fn transition_to_running(&mut self, id: u128, worker_id: &str, started_at: i64) -> (r: Result<Job, StoreError>)
        requires
            old(self).wf(),
        ensures
            final(self).wf(),
            final(self)@ == running_applied(old(self)@, id, worker_id@, started_at),
            result_view(r) == running_result(old(self)@, id, worker_id@, started_at),
    {
        match self.find_index(id) {
            Option::None => Result::Err(StoreError::NotFound),
            Option::Some(i) => {
                proof {
                    lemma_found_idx(self@, id, i as int);
                }
                if self.jobs[i].status == JobStatus::Queued {
                    let mut updated = self.jobs[i].duplicate();
                    updated.status = JobStatus::Running;
                    updated.started_at = Option::Some(started_at);
                    updated.worker_id = Option::Some(worker_id.to_owned());
                    let ret = updated.duplicate();
                    let ghost s0 = self@;
                    proof {
                        assert(updated@ == running_view(s0[i as int], worker_id@, started_at));
                    }
                    self.jobs.set(i, updated);
                    proof {
                        assert(self@ =~= s0.update(i as int, running_view(s0[i as int], worker_id@, started_at)));
                        lemma_update_same_id_wf(s0, i as int, self@);
                    }
                    Result::Ok(ret)
                } else {
                    Result::Err(StoreError::Conflict)
                }
            },
        }
    }

    /// Finishes a record: sets the terminal status, the result and
    /// `finished_at`, and returns the updated record. Fails with NotFound
    /// when the record is absent, and with Conflict on a record that was
    /// never started; the store is unchanged on failure. Retrying a
    /// terminal transition with identical arguments rewrites the same
    /// values: see `lemma_terminal_transition_idempotent`.
    pub fn transition_to_terminal(&mut self, id: u128, status: JobStatus, outcome: JobOutcome, finished_at: i64) -> (r: Result<Job, StoreError>)
        requires
            old(self).wf(),
            status.is_terminal(),
        ensures
            final(self).wf(),
            final(self)@ == terminal_applied(old(self)@, id, status, outcome@, finished_at),
            result_view(r) == terminal_result(old(self)@, id, status, outcome@, finished_at),
    {
        match self.find_index(id) {
            Option::None => Result::Err(StoreError::NotFound),
            Option::Some(i) => {
                proof {
                    lemma_found_idx(self@, id, i as int);
                }
                if self.jobs[i].status == JobStatus::Queued {
                    Result::Err(StoreError::Conflict)
                } else {
                    let ghost ov = outcome@;
                    let mut updated = self.jobs[i].duplicate();
                    updated.status = status;
                    updated.result = Option::Some(outcome);
                    updated.finished_at = Option::Some(finished_at);
                    let ret = updated.duplicate();
                    let ghost s0 = self@;
                    proof {
                        assert(updated@ == terminal_view(s0[i as int], status, ov, finished_at));
                    }
                    self.jobs.set(i, updated);
                    proof {
                        assert(self@ =~= s0.update(i as int, terminal_view(s0[i as int], status, ov, finished_at)));
                        lemma_update_same_id_wf(s0, i as int, self@);
                    }
                    Result::Ok(ret)
                }
            },
        }
    }

    /// The most recent records, newest first: up to `limit` records, in
    /// reverse insertion order from the end of the table.
    pub fn list_recent(&self, limit: usize) -> (r: Vec<Job>)
        ensures
            r@.len() == if limit as int <= self@.len() { limit as int } else { self@.len() as int },
            forall|k: int| 0 <= k < r@.len() ==> (#[trigger] r@[k])@ == self@[self@.len() - 1 - k],
    {
        let n = self.jobs.len();
        let mut out: Vec<Job> = Vec::new();
        let mut i: usize = n;
        while i > 0 && out.len() < limit
            invariant
                n == self@.len(),
                i <= n,
                out@.len() == n - i,
                out@.len() <= limit,
                forall|k: int| 0 <= k < out@.len() ==> (#[trigger] out@[k])@ == self@[n - 1 - k],
            decreases i,
        {
            out.push(self.jobs[i - 1].duplicate());
            i = i - 1;
        }
        out
    }
}

/// Replacing a record with one that keeps its identifier and is itself
/// well-formed preserves the store invariant.
pub(crate) proof fn lemma_update_same_id_wf(s0: Seq<JobView>, i: int, s1: Seq<JobView>)
    requires
        ids_unique(s0),
        all_wf(s0),
        0 <= i < s0.len(),
        s1 == s0.update(i, s1[i]),
        s1[i].id == s0[i].id,
        s1[i].wf(),
    ensures
        ids_unique(s1),
        all_wf(s1),
{
    assert(s1.len() == s0.len());
    assert forall|p: int, q: int|
        0 <= p < s1.len() && 0 <= q < s1.len() && p != q
        implies #[trigger] s1[p].id != #[trigger] s1[q].id by {
        assert(s1[p].id == s0[p].id);
        assert(s1[q].id == s0[q].id);
        assert(s0[p].id != s0[q].id);
    }
    assert forall|p: int| 0 <= p < s1.len() implies (#[trigger] s1[p]).wf() by {
        if p != i {
            assert(s1[p] == s0[p]);
            assert(s0[p].wf());
        }
    }
}

} // verus!
