//! The four-state job lifecycle: QUEUED, RUNNING, COMPLETED, FAILED.

use vstd::prelude::*;

verus! {

/// Lifecycle state of a job record. COMPLETED and FAILED are terminal:
/// once reached, no further transition occurs.
#[derive(Clone, Copy, Debug, PartialEq, Eq, Structural)]
pub enum JobStatus {
    Queued,
    Running,
    Completed,
    Failed,
}

impl JobStatus {
    /// True of COMPLETED and FAILED, the two states a job never leaves.
    pub open spec fn is_terminal(self) -> bool {
        self == JobStatus::Completed || self == JobStatus::Failed
    }

    /// The wire form of each state, as it appears in the store and in
    /// serialized update messages.
    pub open spec fn str_spec(self) -> Seq<char> {
        match self {
            JobStatus::Queued => "QUEUED"@,
            JobStatus::Running => "RUNNING"@,
            JobStatus::Completed => "COMPLETED"@,
            JobStatus::Failed => "FAILED"@,
        }
    }

    pub fn as_str(&self) -> (r: &'static str)
        ensures
            r@ == self.str_spec(),
    {
        match self {
            JobStatus::Queued => "QUEUED",
            JobStatus::Running => "RUNNING",
            JobStatus::Completed => "COMPLETED",
            JobStatus::Failed => "FAILED",
        }
    }
}

} // verus!
