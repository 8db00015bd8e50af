//! The marketplace itself: the registries and the id counter, and the
//! operations that callers see.
//!
//! An operation runs to its end before the next begins, and it either makes
//! all of its changes or none. The marketplace has no ledger of its own: it
//! is told who is calling, says which payment is due, and is told what the
//! ledger answered.

use vstd::prelude::*;
use crate::job_registry::JobRegistry;
use crate::matchmaker::Matchmaker;
use crate::prover_registry::ProverRegistry;
use crate::state::MarketState;
use crate::types::{
    AccountId, Balance, Job, JobId, JobStatus, LedgerReply, MarketError, Payment, ProofType,
    Prover,
};

verus! {

/// The marketplace: its jobs, its provers, and the id the next job gets.
pub struct ZKProofMarketplace {
    jobs: JobRegistry,
    provers: ProverRegistry,
    next_job_id: JobId,
}

impl View for ZKProofMarketplace {
    type V = MarketState;

    closed spec fn view(&self) -> MarketState {
        MarketState {
            jobs: self.jobs@,
            provers: self.provers@,
            next_job_id: self.next_job_id as nat,
        }
    }
}

impl ZKProofMarketplace {
    /// The state of the marketplace is well formed.
    pub open spec fn wf(&self) -> bool {
        self@.wf()
    }

    /// A marketplace without jobs or provers, whose first job gets id 0.
    pub fn new() -> (market: Self)
        ensures
            market.wf(),
            market@ == MarketState::initial(),
    {
        ZKProofMarketplace {
            jobs: JobRegistry::new(),
            provers: ProverRegistry::new(),
            next_job_id: 0,
        }
    }

    /// The marketplace with the given jobs, provers and next id, if they make
    /// a well-formed state; none if a job stands under another id than its
    /// own, an account has two prover records, or the next id is not the
    /// number of jobs.
    pub fn restore(jobs: Vec<Job>, provers: Vec<Prover>, next_job_id: JobId) -> (market: Option<
        Self,
    >)
        ensures
            market is Some <==> (MarketState {
                jobs: jobs@,
                provers: provers@,
                next_job_id: next_job_id as nat,
            }).wf(),
            market matches Some(m) ==> m.wf() && m@ == (MarketState {
                jobs: jobs@,
                provers: provers@,
                next_job_id: next_job_id as nat,
            }),
    {
        if jobs.len() as u64 != next_job_id {
            return None;
        }
        let jobs = match JobRegistry::from_jobs(jobs) {
            Some(registry) => registry,
            None => {
                return None;
            },
        };
        let provers = match ProverRegistry::from_records(provers) {
            Some(registry) => registry,
            None => {
                return None;
            },
        };
        Some(ZKProofMarketplace { jobs, provers, next_job_id })
    }

    /// A copy of every job, in the order of their ids.
    pub fn jobs(&self) -> (jobs: Vec<Job>)
        ensures
            jobs@ == self@.jobs,
    {
        self.jobs.all()
    }

    /// A snapshot of every prover, in the order of first registration.
    pub fn provers(&self) -> (provers: Vec<Prover>)
        ensures
            provers@ == self@.provers,
    {
        self.provers.all()
    }

    /// The id that the next job gets.
    pub fn next_job_id(&self) -> (id: JobId)
        ensures
            id == self@.next_job_id,
    {
        self.next_job_id
    }

    /// Whether there is an id left for one more job.
    pub fn can_submit(&self) -> (possible: bool)
        ensures
            possible == self@.can_submit(),
    {
        self.next_job_id < u64::MAX
    }

    /// The job with the given id; `NotFound` if there is none.
    pub fn job(&self, job_id: JobId) -> (found: Result<Job, MarketError>)
        ensures
            found == self@.job(job_id),
    {
        self.jobs.get(job_id)
    }

    /// The record of the given prover; `NotFound` if the account is not
    /// registered.
    pub fn prover(&self, account_id: AccountId) -> (found: Result<Prover, MarketError>)
        requires
            self.wf(),
        ensures
            found == self@.prover(account_id),
    {
        self.provers.get(account_id)
    }

    /// Stores a new job of `caller` as `Open` and returns its id, which is
    /// the next in sequence. Price and proof type are taken as they come.
    pub fn submit_job(
        &mut self,
        caller: AccountId,
        proof_type: ProofType,
        price: Balance,
    ) -> (job_id: JobId)
        requires
            old(self).wf(),
            old(self)@.can_submit(),
        ensures
            final(self).wf(),
            job_id == old(self)@.next_job_id,
            final(self)@ == old(self)@.submit_job(caller, proof_type, price),
    {
        let job_id = self.jobs.create(caller, price, proof_type);
        self.next_job_id = self.next_job_id + 1;
        job_id
    }

    /// Registers `caller` as a prover with the given rating and reputation 0,
    /// in place of any earlier record of the same account. Always succeeds.
    pub fn register_prover(&mut self, caller: AccountId, performance_rating: u64) -> (registered:
        bool)
        requires
            old(self).wf(),
        ensures
            final(self).wf(),
            registered,
            final(self)@ == old(self)@.register_prover(caller, performance_rating),
    {
        self.provers.register(caller, performance_rating);
        true
    }

    /// Matches job `job_id` against the registered provers. If there is a
    /// prover, the job becomes `InProgress` and the account of the best match
    /// is returned; who was matched is not recorded. Without provers nothing
    /// changes and no account is returned. `NotFound`, and no change, without
    /// such a job. The status that the job had is not looked at.
    pub fn match_and_start_job(&mut self, job_id: JobId) -> (matched: Result<
        Option<AccountId>,
        MarketError,
    >)
        requires
            old(self).wf(),
        ensures
            final(self).wf(),
            matched == old(self)@.matched_prover(job_id),
            final(self)@ == old(self)@.match_and_start_job(job_id),
    {
        let job = match self.jobs.get(job_id) {
            Ok(job) => job,
            Err(e) => {
                return Err(e);
            },
        };
        let snapshot = self.provers.all();
        match Matchmaker::match_job_to_prover(&job, snapshot) {
            None => Ok(None),
            Some(prover) => {
                let written = self.jobs.set_status(job_id, JobStatus::InProgress);
                Ok(Some(prover.account_id))
            },
        }
    }

    /// The payment due when `caller` reports job `job_id` done: the price of
    /// the job, to the caller, if the job is `InProgress`. Otherwise no
    /// payment is due: `NotFound` without such a job, else
    /// `InvalidStateTransition`.
    pub fn settlement(&self, caller: AccountId, job_id: JobId) -> (due: Result<
        Payment,
        MarketError,
    >)
        ensures
            due == self@.settlement(caller, job_id),
    {
        match self.jobs.get(job_id) {
            Err(e) => Err(e),
            Ok(job) => match job.status {
                JobStatus::InProgress => Ok(Payment { to: caller, amount: job.price }),
                _ => Err(MarketError::InvalidStateTransition),
            },
        }
    }

    /// Completes job `job_id` for `caller`, given what the ledger answered to
    /// the payment that `settlement` names. If the job is `InProgress` and
    /// the payment was made, the job becomes `Completed`. In every other case
    /// nothing changes: `NotFound` without such a job,
    /// `InvalidStateTransition` for a job that is not `InProgress`,
    /// `TransferFailed` if the ledger rejected the payment.
    pub fn complete_job(&mut self, caller: AccountId, job_id: JobId, reply: LedgerReply) -> (done:
        Result<bool, MarketError>)
        requires
            old(self).wf(),
        ensures
            final(self).wf(),
            done == old(self)@.completion(caller, job_id, reply),
            final(self)@ == old(self)@.complete_job(caller, job_id, reply),
    {
        match self.settlement(caller, job_id) {
            Err(e) => Err(e),
            Ok(_) => match reply {
                LedgerReply::Rejected => Err(MarketError::TransferFailed),
                LedgerReply::Paid => {
                    let written = self.jobs.set_status(job_id, JobStatus::Completed);
                    Ok(true)
                },
            },
        }
    }

    /// Sets the reputation of `prover_id` to `new_reputation`; `NotFound`,
    /// and no change, if the account is not registered.
    pub fn update_prover_reputation(&mut self, prover_id: AccountId, new_reputation: u64) -> (done:
        Result<(), MarketError>)
        requires
            old(self).wf(),
        ensures
            final(self).wf(),
            done == old(self)@.reputation_update(prover_id),
            final(self)@ == old(self)@.update_prover_reputation(prover_id, new_reputation),
    {
        match self.provers.update_reputation(prover_id, new_reputation) {
            Ok(_) => Ok(()),
            Err(e) => Err(e),
        }
    }
}

} // verus!
