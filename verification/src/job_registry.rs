//! The job registry: every job ever submitted, found by its id.
//!
//! Ids are handed out in sequence from 0 and no job is ever removed, so the
//! job with id `i` is the `i`-th job submitted.

use vstd::prelude::*;
use crate::types::{AccountId, Balance, Job, JobId, JobStatus, MarketError, ProofType};

verus! {

/// Each job stands at the position its id names.
pub open spec fn ids_sequential(jobs: Seq<Job>) -> bool {
    forall|i: int| 0 <= i < jobs.len() ==> (#[trigger] jobs[i]).job_id == i
}

/// A job with this id has been submitted.
pub open spec fn has_job(jobs: Seq<Job>, job_id: JobId) -> bool {
    job_id < jobs.len()
}

/// The job a new submission stores: the next id, status `Open`.
pub open spec fn new_job(
    jobs: Seq<Job>,
    requester: AccountId,
    price: Balance,
    proof_type: ProofType,
) -> Job {
    Job { job_id: jobs.len() as u64, requester, price, proof_type, status: JobStatus::Open }
}

/// The jobs after one more is submitted.
pub open spec fn after_create(
    jobs: Seq<Job>,
    requester: AccountId,
    price: Balance,
    proof_type: ProofType,
) -> Seq<Job> {
    jobs.push(new_job(jobs, requester, price, proof_type))
}

/// The jobs after the status of job `job_id` is overwritten with `status`.
/// Nothing changes if there is no such job.
pub open spec fn after_status(jobs: Seq<Job>, job_id: JobId, status: JobStatus) -> Seq<Job> {
    if has_job(jobs, job_id) {
        jobs.update(job_id as int, jobs[job_id as int].with_status(status))
    } else {
        jobs
    }
}

/// The jobs submitted so far.
pub struct JobRegistry {
    jobs: Vec<Job>,
}

impl View for JobRegistry {
    type V = Seq<Job>;

    /// The jobs in the order of their ids.
    closed spec fn view(&self) -> Seq<Job> {
        self.jobs@
    }
}

impl JobRegistry {
    /// Every job stands under its own id, and the number of jobs fits an id.
    pub open spec fn wf(&self) -> bool {
        ids_sequential(self@) && self@.len() <= u64::MAX
    }

    /// A registry without jobs.
    pub fn new() -> (registry: Self)
        ensures
            registry.wf(),
            registry@ == Seq::<Job>::empty(),
    {
        JobRegistry { jobs: Vec::new() }
    }

    /// A registry of the given jobs, if each stands at the position its id
    /// names.
    pub fn from_jobs(jobs: Vec<Job>) -> (registry: Option<Self>)
        ensures
            registry is Some <==> ids_sequential(jobs@),
            registry matches Some(r) ==> r.wf() && r@ == jobs@,
    {
        let n = jobs.len();
        let mut i: usize = 0;
        while i < n
            invariant
                n == jobs@.len(),
                i <= n,
                forall|k: int| 0 <= k < i ==> (#[trigger] jobs@[k]).job_id == k,
            decreases n - i,
        {
            if jobs[i].job_id != i as u64 {
                return None;
            }
            i = i + 1;
        }
        Some(JobRegistry { jobs })
    }

    /// Stores a new job with the next id and status `Open`, and returns the
    /// id. Neither the price nor the proof type is examined.
    pub fn create(
        &mut self,
        requester: AccountId,
        price: Balance,
        proof_type: ProofType,
    ) -> (job_id: JobId)
        requires
            old(self).wf(),
            old(self)@.len() < u64::MAX,
        ensures
            final(self).wf(),
            job_id == old(self)@.len(),
            final(self)@ == after_create(old(self)@, requester, price, proof_type),
    {
        let job_id = self.jobs.len() as u64;
        self.jobs.push(Job { job_id, requester, price, proof_type, status: JobStatus::Open });
        job_id
    }

    /// The job with the given id; `NotFound` if none has been submitted
    /// under it.
    pub fn get(&self, job_id: JobId) -> (found: Result<Job, MarketError>)
        ensures
            found is Ok <==> has_job(self@, job_id),
            found matches Ok(job) ==> job == self@[job_id as int],
            found matches Err(e) ==> e == MarketError::NotFound,
    {
        if job_id >= self.jobs.len() as u64 {
            return Err(MarketError::NotFound);
        }
        Ok(self.jobs[job_id as usize])
    }

    /// Overwrites the status of a job; `NotFound`, and no change, if there is
    /// no such job. Any status may follow any other here: whether a
    /// transition is legal is for the caller to decide.
    pub fn set_status(&mut self, job_id: JobId, new_status: JobStatus) -> (done: Result<
        (),
        MarketError,
    >)
        requires
            old(self).wf(),
        ensures
            final(self).wf(),
            final(self)@ == after_status(old(self)@, job_id, new_status),
            done is Ok <==> has_job(old(self)@, job_id),
            done matches Err(e) ==> e == MarketError::NotFound,
    {
        if job_id >= self.jobs.len() as u64 {
            return Err(MarketError::NotFound);
        }
        let i = job_id as usize;
        let current = self.jobs[i];
        self.jobs[i] = Job {
            job_id: current.job_id,
            requester: current.requester,
            price: current.price,
            proof_type: current.proof_type,
            status: new_status,
        };
        Ok(())
    }

    /// A copy of every job, in the order of their ids.
    pub fn all(&self) -> (snapshot: Vec<Job>)
        ensures
            snapshot@ == self@,
    {
        let n = self.jobs.len();
        let mut snapshot: Vec<Job> = Vec::new();
        let mut i: usize = 0;
        while i < n
            invariant
                n == self.jobs@.len(),
                i <= n,
                snapshot@ == self.jobs@.subrange(0, i as int),
            decreases n - i,
        {
            snapshot.push(self.jobs[i]);
            assert(self.jobs@.subrange(0, i + 1) == self.jobs@.subrange(0, i as int).push(
                self.jobs@[i as int],
            ));
            i = i + 1;
        }
        assert(self.jobs@.subrange(0, n as int) == self.jobs@);
        snapshot
    }
}

} // verus!
