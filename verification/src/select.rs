//! Run selection: filter the workflow runs down to the completed ones,
//! then walk them in API-returned order and accept the first whose jobs
//! all report `Completed`.
//!
//! Fetching a run's job list is a network call that the surrounding
//! program performs; the decisions live here. [`RunSelector`] is the
//! state machine that program drives: it hands out the next candidate
//! run to query, takes the fetched job list back, and either accepts
//! the run or moves on to the next candidate.

use vstd::prelude::*;

use crate::model::{Job, JobStatus, WorkflowRun, spec_all_jobs_completed, spec_is_completed_run};

verus! {

/// The identifiers of the completed runs, in their original order.
pub open spec fn spec_completed_ids(runs: Seq<WorkflowRun>) -> Seq<u64>
    decreases runs.len(),
{
    if runs.len() == 0 {
        Seq::empty()
    } else {
        let rest = spec_completed_ids(runs.drop_last());
        if spec_is_completed_run(runs.last()) {
            rest.push(runs.last().id)
        } else {
            rest
        }
    }
}

/// Collects the identifiers of the runs whose top-level status string is
/// `"completed"`, preserving the API-returned order.
pub fn completed_run_ids(runs: &Vec<WorkflowRun>) -> (ids: Vec<u64>)
    ensures
        ids@ == spec_completed_ids(runs@),
{
    let completed = String::from_str("completed");
    let mut ids: Vec<u64> = Vec::new();
    let mut i: usize = 0;
    while i < runs.len()
        invariant
            i <= runs@.len(),
            completed@ == "completed"@,
            ids@ == spec_completed_ids(runs@.take(i as int)),
        decreases runs@.len() - i,
    {
        if runs[i].status == completed {
            ids.push(runs[i].id);
        }
        proof {
            assert(runs@.take(i + 1).drop_last() == runs@.take(i as int));
            assert(runs@.take(i + 1).last() == runs@[i as int]);
        }
        i = i + 1;
    }
    proof {
        assert(runs@.take(runs@.len() as int) == runs@);
    }
    ids
}

/// Decides whether every job in the list reports `Completed`; an empty
/// list yields `true` (a run without jobs is treated as fully
/// successful).
pub fn all_jobs_completed(jobs: &Vec<Job>) -> (r: bool)
    ensures
        r == spec_all_jobs_completed(jobs@),
        jobs@.len() == 0 ==> r,
{
    let mut i: usize = 0;
    while i < jobs.len()
        invariant
            i <= jobs@.len(),
            forall|j: int| 0 <= j < i ==> jobs@[j].status is Completed,
        decreases jobs@.len() - i,
    {
        if !(jobs[i].status == JobStatus::Completed) {
            assert(!spec_all_jobs_completed(jobs@));
            return false;
        }
        i = i + 1;
    }
    true
}

/// The state machine behind the "first fully successful run" scan.
///
/// `new` filters the runs down to the completed candidates. The caller
/// then repeatedly asks [`RunSelector::next_candidate`] which run to
/// fetch jobs for and reports the fetched list through
/// [`RunSelector::offer_jobs`], until a run is accepted or the
/// candidates are exhausted. The verdict of every job list offered so
/// far is kept as ghost history, so that acceptance provably goes to
/// the first qualifying candidate.
pub struct RunSelector {
    candidates: Vec<u64>,
    examined: usize,
    chosen: Option<u64>,
    verdicts: Ghost<Seq<bool>>,
}

impl RunSelector {
    /// The completed-run identifiers under scan, in original order.
    pub closed spec fn spec_candidates(&self) -> Seq<u64> {
        self.candidates@
    }

    /// The verdict of each job list offered so far: `true` where all
    /// jobs were completed.
    pub closed spec fn spec_verdicts(&self) -> Seq<bool> {
        self.verdicts@
    }

    /// The accepted run, once one qualified.
    pub closed spec fn spec_selected(&self) -> Option<u64> {
        self.chosen
    }

    /// Well-formedness: the scan examined a prefix of the candidates,
    /// every candidate before the current one was rejected, and a
    /// chosen run is the candidate whose verdict came back positive.
    pub closed spec fn wf(&self) -> bool {
        &&& self.examined == self.verdicts@.len()
        &&& self.verdicts@.len() <= self.candidates@.len()
        &&& match self.chosen {
            None => forall|i: int| 0 <= i < self.verdicts@.len() ==> !self.verdicts@[i],
            Some(id) => {
                &&& self.verdicts@.len() >= 1
                &&& self.verdicts@.last()
                &&& forall|i: int| 0 <= i < self.verdicts@.len() - 1 ==> !self.verdicts@[i]
                &&& id == self.candidates@[self.verdicts@.len() - 1]
            },
        }
    }

    /// Starts a scan over the completed runs among `runs`.
    pub fn new(runs: &Vec<WorkflowRun>) -> (s: Self)
        ensures
            s.wf(),
            s.spec_candidates() == spec_completed_ids(runs@),
            s.spec_verdicts() == Seq::<bool>::empty(),
            s.spec_selected() is None,
    {
        RunSelector {
            candidates: completed_run_ids(runs),
            examined: 0,
            chosen: None,
            verdicts: Ghost(Seq::empty()),
        }
    }

    /// The run whose jobs should be fetched next, or `None` once every
    /// candidate has been examined without an acceptance.
    pub fn next_candidate(&self) -> (r: Option<u64>)
        requires
            self.wf(),
            self.spec_selected() is None,
        ensures
            match r {
                Some(id) => self.spec_verdicts().len() < self.spec_candidates().len()
                    && id == self.spec_candidates()[self.spec_verdicts().len() as int],
                None => self.spec_verdicts().len() == self.spec_candidates().len(),
            },
    {
        if self.examined < self.candidates.len() {
            Some(self.candidates[self.examined])
        } else {
            None
        }
    }

    /// Takes the job list fetched for the current candidate. The run is
    /// accepted exactly when every job reports `Completed`; otherwise
    /// the scan moves on to the next candidate.
    pub fn offer_jobs(&mut self, jobs: &Vec<Job>) -> (accepted: bool)
        requires
            old(self).wf(),
            old(self).spec_selected() is None,
            old(self).spec_verdicts().len() < old(self).spec_candidates().len(),
        ensures
            final(self).wf(),
            final(self).spec_candidates() == old(self).spec_candidates(),
            accepted == spec_all_jobs_completed(jobs@),
            final(self).spec_verdicts() == old(self).spec_verdicts().push(accepted),
            accepted ==> final(self).spec_selected()
                == Some(old(self).spec_candidates()[old(self).spec_verdicts().len() as int]),
            !accepted ==> final(self).spec_selected() is None,
    {
        let accepted = all_jobs_completed(jobs);
        // An exec read of the length bounds `examined` by a usize value,
        // so the increment below cannot overflow.
        let _candidate_count = self.candidates.len();
        if accepted {
            self.chosen = Some(self.candidates[self.examined]);
        }
        self.verdicts = Ghost(self.verdicts@.push(accepted));
        self.examined = self.examined + 1;
        accepted
    }

    /// The accepted run's identifier, if one qualified so far.
    pub fn selected(&self) -> (r: Option<u64>)
        ensures
            r == self.spec_selected(),
    {
        self.chosen
    }
}

/// Law: an accepted run is the *first* qualifying candidate. Whenever a
/// well-formed scan has chosen a run, that run is the candidate at the
/// position of the last verdict, that verdict was positive, and every
/// earlier candidate's verdict was negative.
pub proof fn lemma_selected_is_first_qualifying(s: &RunSelector)
    requires
        s.wf(),
        s.spec_selected() is Some,
    ensures
        ({
            let k = s.spec_verdicts().len() - 1;
            &&& 0 <= k < s.spec_candidates().len()
            &&& s.spec_selected() == Some(s.spec_candidates()[k])
            &&& s.spec_verdicts()[k]
            &&& forall|j: int| 0 <= j < k ==> !s.spec_verdicts()[j]
        }),
{
}

/// Law: when no run's top-level status is `"completed"`, the scan has
/// no candidates at all, so no job list is ever requested.
pub proof fn lemma_no_completed_runs_no_candidates(runs: Seq<WorkflowRun>)
    requires
        forall|i: int| 0 <= i < runs.len() ==> !spec_is_completed_run(runs[i]),
    ensures
        spec_completed_ids(runs) == Seq::<u64>::empty(),
    decreases runs.len(),
{
    if runs.len() > 0 {
        lemma_no_completed_runs_no_candidates(runs.drop_last());
    }
}

} // verus!
