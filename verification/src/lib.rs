//! Core of an asynchronous job scheduler: a durable store of job records,
//! a FIFO queue handing job identifiers from submission to execution, a
//! worker that drives each claimed job from QUEUED through RUNNING to a
//! terminal state, and a broadcaster that fans every persisted transition
//! out to live subscribers.

pub mod broadcast;
pub mod executor;
pub mod ids;
pub mod job;
pub mod laws;
pub mod queue;
pub mod status;
pub mod store;
pub mod worker;

pub use job::{ExecReport, Job, JobOutcome};
pub use status::JobStatus;
