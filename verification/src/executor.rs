//! The executor capability: the pluggable unit that performs a job's actual
//! work, and the reference executor, which fails exactly on job types that
//! contain the designated failure marker and otherwise echoes the input.

use vstd::prelude::*;
use crate::job::{ExecReport, Job};

verus! {

/// The substring of `job_type` that makes the reference executor fail
/// deterministically, at position `i`.
pub open spec fn contains_marker_at(s: Seq<char>, i: int) -> bool {
    0 <= i && i + 4 <= s.len() && s.subrange(i, i + 4) == "fail"@
}

/// Whether a job type carries the failure marker anywhere.
pub open spec fn contains_marker(s: Seq<char>) -> bool {
    exists|i: int| contains_marker_at(s, i)
}

/// Whether the string contains the failure marker substring.
pub fn contains_fail_marker(s: &str) -> (r: bool)
    ensures
        r == contains_marker(s@),
{
    proof {
        reveal_strlit("fail");
    }
    let n = s.unicode_len();
    if n < 4 {
        proof {
            assert forall|i: int| !contains_marker_at(s@, i) by {}
        }
        return false;
    }
    let mut i: usize = 0;
    while i <= n - 4
        invariant
            n == s@.len(),
            4 <= n,
            i <= n - 3,
            "fail"@ == seq!['f', 'a', 'i', 'l'],
            forall|k: int| 0 <= k < i ==> !contains_marker_at(s@, k),
        decreases n - i,
    {
        if s.get_char(i) == 'f' && s.get_char(i + 1) == 'a' && s.get_char(i + 2) == 'i'
            && s.get_char(i + 3) == 'l' {
            proof {
                assert(s@.subrange(i as int, i as int + 4) =~= "fail"@);
                assert(contains_marker_at(s@, i as int));
            }
            return true;
        }
        proof {
            assert(!contains_marker_at(s@, i as int));
        }
        i = i + 1;
    }
    proof {
        assert forall|k: int| !contains_marker_at(s@, k) by {
            if 0 <= k && k + 4 <= s@.len() {
                assert(k < i);
            }
        }
    }
    false
}

/// What performs a job's work: given the full record, a success payload or
/// a failure reason. The lifecycle engine is agnostic to what an
/// implementation does; implementations must eventually return.
pub trait JobExecutor {
    fn execute(&self, job: &Job) -> Result<ExecReport, String>;
}

/// The reference executor: a bounded random duration stands in for real
/// work; a job type containing the failure marker fails deterministically,
/// anything else succeeds with a payload echoing the input and the timing.
pub struct SimpleJobExecutor;

pub assume_specification<T>[ rand::random::<T> ]() -> (r: T)
    where
        rand::distributions::Standard: rand::distributions::Distribution<T>,
;

impl SimpleJobExecutor {
    /// Fails exactly when the job's type contains the failure marker;
    /// otherwise succeeds with the executing worker's identity, a duration
    /// between one and ten seconds, and an echo of the input payload.
    pub fn execute_job(&self, job: &Job) -> (r: Result<ExecReport, String>)
        ensures
            r is Err <==> contains_marker(job@.job_type),
            r matches Ok(rep) ==> {
                &&& rep@.worker_id == "worker-1"@
                &&& 1 <= rep@.duration_s <= 10
                &&& rep@.input_payload == job@.payload
            },
            r matches Err(e) ==> e@ == "Simulated failure."@ && e@.len() > 0,
    {
        let raw: u64 = rand::random::<u64>();
        let duration: u64 = raw % 10 + 1;
        if contains_fail_marker(job.job_type.as_str()) {
            proof {
                reveal_strlit("Simulated failure.");
            }
            Result::Err("Simulated failure.".to_owned())
        } else {
            Result::Ok(ExecReport {
                worker_id: "worker-1".to_owned(),
                duration_s: duration,
                input_payload: job.payload.clone(),
            })
        }
    }
}

impl JobExecutor for SimpleJobExecutor {
    fn execute(&self, job: &Job) -> Result<ExecReport, String> {
        self.execute_job(job)
    }
}

} // verus!
