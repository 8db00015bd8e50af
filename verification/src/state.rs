//! The marketplace as a mathematical value, and what each operation makes of
//! it. The executable marketplace is specified against this model.

use vstd::prelude::*;
use crate::job_registry::{after_create, after_status, has_job, ids_sequential};
use crate::matchmaker::best_match;
use crate::prover_registry::{
    accounts_distinct, after_register, after_reputation, is_registered, record_of,
};
use crate::types::{
    AccountId, Balance, Job, JobId, JobStatus, LedgerReply, MarketError, Payment, ProofType,
    Prover,
};

verus! {

/// Everything the marketplace knows: the jobs in the order of their ids, the
/// provers in the order of their first registration, and the id the next job
/// will get.
#[verifier::ext_equal]
pub struct MarketState {
    pub jobs: Seq<Job>,
    pub provers: Seq<Prover>,
    pub next_job_id: nat,
}

/// One call of an operation of the marketplace, with its arguments.
pub enum Operation {
    SubmitJob { caller: AccountId, proof_type: ProofType, price: Balance },
    RegisterProver { caller: AccountId, performance_rating: u64 },
    MatchAndStartJob { job_id: JobId },
    CompleteJob { caller: AccountId, job_id: JobId, reply: LedgerReply },
    UpdateProverReputation { prover_id: AccountId, new_reputation: u64 },
}

impl MarketState {
    /// The marketplace before anything has happened.
    pub open spec fn initial() -> MarketState {
        MarketState { jobs: Seq::empty(), provers: Seq::empty(), next_job_id: 0 }
    }

    /// Each job stands under its own id, no account has two prover records,
    /// and the next id is the number of jobs submitted, so it is greater than
    /// every id handed out.
    pub open spec fn wf(self) -> bool {
        &&& ids_sequential(self.jobs)
        &&& accounts_distinct(self.provers)
        &&& self.next_job_id == self.jobs.len()
        &&& self.next_job_id <= u64::MAX
    }

    /// There is an id left for one more job.
    pub open spec fn can_submit(self) -> bool {
        self.next_job_id < u64::MAX
    }

    /// The job with the given id, or `NotFound`.
    pub open spec fn job(self, job_id: JobId) -> Result<Job, MarketError> {
        if has_job(self.jobs, job_id) {
            Ok(self.jobs[job_id as int])
        } else {
            Err(MarketError::NotFound)
        }
    }

    /// The record of the given account, or `NotFound`.
    pub open spec fn prover(self, account_id: AccountId) -> Result<Prover, MarketError> {
        if is_registered(self.provers, account_id) {
            Ok(record_of(self.provers, account_id))
        } else {
            Err(MarketError::NotFound)
        }
    }

    /// After `caller` submits a job: the job is stored as `Open` under the
    /// next id, and the next id moves on by one.
    pub open spec fn submit_job(self, caller: AccountId, proof_type: ProofType, price: Balance)
        -> MarketState {
        MarketState {
            jobs: after_create(self.jobs, caller, price, proof_type),
            next_job_id: self.next_job_id + 1,
            ..self
        }
    }

    /// After `caller` registers as a prover.
    pub open spec fn register_prover(self, caller: AccountId, performance_rating: u64)
        -> MarketState {
        MarketState { provers: after_register(self.provers, caller, performance_rating), ..self }
    }

    /// What matching job `job_id` answers: `NotFound` without such a job,
    /// no account when no prover is registered, else the account of the best
    /// match among the registered provers. The status of the job plays no
    /// part.
    pub open spec fn matched_prover(self, job_id: JobId) -> Result<Option<AccountId>, MarketError> {
        if !has_job(self.jobs, job_id) {
            Err(MarketError::NotFound)
        } else {
            match best_match(self.provers) {
                Some(prover) => Ok(Some(prover.account_id)),
                None => Ok(None),
            }
        }
    }

    /// After job `job_id` is matched: `InProgress` if a prover was found for
    /// it, else nothing has changed.
    pub open spec fn match_and_start_job(self, job_id: JobId) -> MarketState {
        match self.matched_prover(job_id) {
            Ok(Some(_)) => MarketState {
                jobs: after_status(self.jobs, job_id, JobStatus::InProgress),
                ..self
            },
            _ => self,
        }
    }

    /// The payment that settles job `job_id` when `caller` reports it done:
    /// the price of the job, to the caller. `NotFound` without such a job,
    /// `InvalidStateTransition` unless the job is `InProgress`; no payment is
    /// due then.
    pub open spec fn settlement(self, caller: AccountId, job_id: JobId) -> Result<
        Payment,
        MarketError,
    > {
        match self.job(job_id) {
            Err(e) => Err(e),
            Ok(job) => if job.status == JobStatus::InProgress {
                Ok(Payment { to: caller, amount: job.price })
            } else {
                Err(MarketError::InvalidStateTransition)
            },
        }
    }

    /// What completing job `job_id` answers, given the ledger's reply to the
    /// settlement: success if a settlement was due and the ledger paid it,
    /// `TransferFailed` if the ledger rejected it, and the error of the
    /// settlement if none was due.
    pub open spec fn completion(self, caller: AccountId, job_id: JobId, reply: LedgerReply)
        -> Result<bool, MarketError> {
        match self.settlement(caller, job_id) {
            Err(e) => Err(e),
            Ok(_) => match reply {
                LedgerReply::Paid => Ok(true),
                LedgerReply::Rejected => Err(MarketError::TransferFailed),
            },
        }
    }

    /// After `caller` reports job `job_id` done: `Completed` if the
    /// completion succeeded, else nothing has changed.
    pub open spec fn complete_job(self, caller: AccountId, job_id: JobId, reply: LedgerReply)
        -> MarketState {
        if self.completion(caller, job_id, reply) is Ok {
            MarketState { jobs: after_status(self.jobs, job_id, JobStatus::Completed), ..self }
        } else {
            self
        }
    }

    /// What setting the reputation of `prover_id` answers.
    pub open spec fn reputation_update(self, prover_id: AccountId) -> Result<(), MarketError> {
        if is_registered(self.provers, prover_id) {
            Ok(())
        } else {
            Err(MarketError::NotFound)
        }
    }

    /// After the reputation of `prover_id` is set to `new_reputation`.
    pub open spec fn update_prover_reputation(self, prover_id: AccountId, new_reputation: u64)
        -> MarketState {
        MarketState {
            provers: after_reputation(self.provers, prover_id, new_reputation),
            ..self
        }
    }

    /// The operation may be called in this state: a submission needs an id
    /// to be left, the others can always be called.
    pub open spec fn admits(self, op: Operation) -> bool {
        op is SubmitJob ==> self.can_submit()
    }

    /// The operation, called in this state, answers with an error.
    /// Submissions and registrations never do.
    pub open spec fn fails(self, op: Operation) -> bool {
        match op {
            Operation::SubmitJob { .. } => false,
            Operation::RegisterProver { .. } => false,
            Operation::MatchAndStartJob { job_id } => self.matched_prover(job_id) is Err,
            Operation::CompleteJob { caller, job_id, reply } => self.completion(
                caller,
                job_id,
                reply,
            ) is Err,
            Operation::UpdateProverReputation { prover_id, .. } => self.reputation_update(
                prover_id,
            ) is Err,
        }
    }

    /// The state after one operation.
    pub open spec fn apply(self, op: Operation) -> MarketState {
        match op {
            Operation::SubmitJob { caller, proof_type, price } => self.submit_job(
                caller,
                proof_type,
                price,
            ),
            Operation::RegisterProver { caller, performance_rating } => self.register_prover(
                caller,
                performance_rating,
            ),
            Operation::MatchAndStartJob { job_id } => self.match_and_start_job(job_id),
            Operation::CompleteJob { caller, job_id, reply } => self.complete_job(
                caller,
                job_id,
                reply,
            ),
            Operation::UpdateProverReputation { prover_id, new_reputation } =>
                self.update_prover_reputation(prover_id, new_reputation),
        }
    }

    /// The state after a sequence of operations, the first of them applied
    /// first.
    pub open spec fn run(self, ops: Seq<Operation>) -> MarketState
        decreases ops.len(),
    {
        if ops.len() == 0 {
            self
        } else {
            self.run(ops.drop_last()).apply(ops.last())
        }
    }

    /// Each operation of the sequence may be called in the state that the
    /// operations before it lead to.
    pub open spec fn admits_all(self, ops: Seq<Operation>) -> bool {
        forall|k: int| 0 <= k < ops.len() ==> #[trigger] self.run(ops.take(k)).admits(ops[k])
    }
}

} // verus!
