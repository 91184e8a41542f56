//! The job record: the durable entity the store holds and the worker drives
//! through its lifecycle, together with the structured result a finished job
//! carries.

use vstd::prelude::*;
use crate::status::JobStatus;

verus! {

/// The payload a successful execution reports: the executing worker's own
/// identity, how long the simulated work took, and an echo of the job's
/// input payload.
#[derive(Debug)]
pub struct ExecReport {
    pub worker_id: String,
    pub duration_s: u64,
    pub input_payload: String,
}

/// Mathematical image of an `ExecReport`.
pub ghost struct ReportView {
    pub worker_id: Seq<char>,
    pub duration_s: u64,
    pub input_payload: Seq<char>,
}

impl View for ExecReport {
    type V = ReportView;

    open spec fn view(&self) -> ReportView {
        ReportView {
            worker_id: self.worker_id@,
            duration_s: self.duration_s,
            input_payload: self.input_payload@,
        }
    }
}

impl ExecReport {
    pub fn duplicate(&self) -> (r: ExecReport)
        ensures
            r@ == self@,
    {
        ExecReport {
            worker_id: self.worker_id.clone(),
            duration_s: self.duration_s,
            input_payload: self.input_payload.clone(),
        }
    }
}

/// What a terminal transition records: the executor's success payload, or
/// the failure reason together with the worker that observed it.
#[derive(Debug)]
pub enum JobOutcome {
    Success(ExecReport),
    Failure { error: String, worker: String },
}

/// Mathematical image of a `JobOutcome`.
pub ghost enum OutcomeView {
    Success(ReportView),
    Failure { error: Seq<char>, worker: Seq<char> },
}

impl View for JobOutcome {
    type V = OutcomeView;

    open spec fn view(&self) -> OutcomeView {
        match self {
            JobOutcome::Success(r) => OutcomeView::Success(r@),
            JobOutcome::Failure { error, worker } => (OutcomeView::Failure {
                error: error@,
                worker: worker@,
            }),
        }
    }
}

impl JobOutcome {
    pub fn duplicate(&self) -> (r: JobOutcome)
        ensures
            r@ == self@,
    {
        match self {
            JobOutcome::Success(rep) => JobOutcome::Success(rep.duplicate()),
            JobOutcome::Failure { error, worker } => (JobOutcome::Failure {
                error: error.clone(),
                worker: worker.clone(),
            }),
        }
    }
}

/// The view of an optional outcome.
pub open spec fn opt_outcome_view(o: Option<JobOutcome>) -> Option<OutcomeView> {
    match o {
        Option::Some(v) => Option::Some(v@),
        Option::None => Option::None,
    }
}

/// The view of an optional string.
pub open spec fn opt_string_view(o: Option<String>) -> Option<Seq<char>> {
    match o {
        Option::Some(v) => Option::Some(v@),
        Option::None => Option::None,
    }
}

/// A job record. `id`, `job_type`, `payload` and `created_at` are fixed at
/// creation; `status`, `result`, `started_at`, `finished_at` and `worker_id`
/// are written only by lifecycle transitions.
#[derive(Debug)]
pub struct Job {
    pub id: u128,
    pub job_type: String,
    pub payload: String,
    pub status: JobStatus,
    pub result: Option<JobOutcome>,
    pub created_at: i64,
    pub started_at: Option<i64>,
    pub finished_at: Option<i64>,
    pub worker_id: Option<String>,
}

/// Mathematical image of a job record.
pub ghost struct JobView {
    pub id: u128,
    pub job_type: Seq<char>,
    pub payload: Seq<char>,
    pub status: JobStatus,
    pub result: Option<OutcomeView>,
    pub created_at: i64,
    pub started_at: Option<i64>,
    pub finished_at: Option<i64>,
    pub worker_id: Option<Seq<char>>,
}

impl View for Job {
    type V = JobView;

    open spec fn view(&self) -> JobView {
        JobView {
            id: self.id,
            job_type: self.job_type@,
            payload: self.payload@,
            status: self.status,
            result: opt_outcome_view(self.result),
            created_at: self.created_at,
            started_at: self.started_at,
            finished_at: self.finished_at,
            worker_id: opt_string_view(self.worker_id),
        }
    }
}

impl JobView {
    /// Well-formedness of a record: the auxiliary fields are present exactly
    /// when the lifecycle state says they must be. `started_at` is set if
    /// and only if the job has left QUEUED; `finished_at` and `result` are
    /// set if and only if the job is terminal.
    pub open spec fn wf(self) -> bool {
        &&& (self.started_at is Some <==> self.status != JobStatus::Queued)
        &&& (self.finished_at is Some <==> self.status.is_terminal())
        &&& (self.result is Some <==> self.status.is_terminal())
    }
}

/// The record a fresh insertion produces: QUEUED, with no result, no
/// timestamps beyond `created_at`, and no owning worker.
pub open spec fn queued_view(id: u128, job_type: Seq<char>, payload: Seq<char>, created_at: i64) -> JobView {
    JobView {
        id: id,
        job_type: job_type,
        payload: payload,
        status: JobStatus::Queued,
        result: Option::None,
        created_at: created_at,
        started_at: Option::None,
        finished_at: Option::None,
        worker_id: Option::None,
    }
}

/// The record after the QUEUED -> RUNNING transition: status, `started_at`
/// and `worker_id` change; every other field is kept.
pub open spec fn running_view(j: JobView, worker: Seq<char>, started_at: i64) -> JobView {
    JobView {
        status: JobStatus::Running,
        started_at: Option::Some(started_at),
        worker_id: Option::Some(worker),
        ..j
    }
}

/// The record after a terminal transition: status, `result` and
/// `finished_at` change; every other field is kept.
pub open spec fn terminal_view(j: JobView, status: JobStatus, outcome: OutcomeView, finished_at: i64) -> JobView {
    JobView {
        status: status,
        result: Option::Some(outcome),
        finished_at: Option::Some(finished_at),
        ..j
    }
}

impl Job {
    /// A fresh record in QUEUED state, as the submission gateway creates it.
    pub fn queued(id: u128, job_type: String, payload: String, created_at: i64) -> (j: Job)
        ensures
            j@ == queued_view(id, job_type@, payload@, created_at),
            j@.wf(),
    {
        Job {
            id: id,
            job_type: job_type,
            payload: payload,
            status: JobStatus::Queued,
            result: Option::None,
            created_at: created_at,
            started_at: Option::None,
            finished_at: Option::None,
            worker_id: Option::None,
        }
    }

    /// A field-for-field copy of the record.
    pub fn duplicate(&self) -> (r: Job)
        ensures
            r@ == self@,
    {
        let result: Option<JobOutcome> = match &self.result {
            Option::Some(o) => Option::Some(o.duplicate()),
            Option::None => Option::None,
        };
        let worker_id: Option<String> = match &self.worker_id {
            Option::Some(w) => Option::Some(w.clone()),
            Option::None => Option::None,
        };
        Job {
            id: self.id,
            job_type: self.job_type.clone(),
            payload: self.payload.clone(),
            status: self.status,
            result: result,
            created_at: self.created_at,
            started_at: self.started_at,
            finished_at: self.finished_at,
            worker_id: worker_id,
        }
    }
}

} // verus!
