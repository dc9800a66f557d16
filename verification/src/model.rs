//! The request-scoped entities the resolver works over: workflow runs,
//! their jobs, and the artifacts a run produced.

use vstd::prelude::*;

verus! {

/// One workflow run as reported by the forge API: an identifier and a
/// top-level status string (for example `"completed"` or `"in_progress"`).
pub struct WorkflowRun {
    pub id: u64,
    pub status: String,
}

/// The status of a single job within a workflow run. Only `Completed`
/// counts towards a fully successful run; every other variant is kept
/// apart so that callers can still tell what a job reported.
#[derive(Clone, Copy, Debug, PartialEq, Eq, Structural)]
pub enum JobStatus {
    Completed,
    InProgress,
    Queued,
    Pending,
    Unknown,
}

/// One job belonging to a workflow run.
#[derive(Clone, Copy, Debug, PartialEq, Eq, Structural)]
pub struct Job {
    pub status: JobStatus,
}

/// One artifact produced by a workflow run: an identifier, a display
/// name, and whether it is past its retention window.
pub struct Artifact {
    pub id: u64,
    pub name: String,
    pub expired: bool,
}

/// Whether a run's top-level status marks the run itself as completed.
pub open spec fn spec_is_completed_run(r: WorkflowRun) -> bool {
    r.status@ == "completed"@
}

/// Whether every job in the list reports `Completed`. An empty job list
/// satisfies this vacuously: a run that scheduled no jobs at all counts
/// as fully successful.
pub open spec fn spec_all_jobs_completed(jobs: Seq<Job>) -> bool {
    forall|i: int| 0 <= i < jobs.len() ==> jobs[i].status is Completed
}

} // verus!
