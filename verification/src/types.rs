//! The records of the marketplace: accounts, jobs, provers, and the values
//! exchanged with the ledger.

use vstd::prelude::*;
use vstd::std_specs::cmp::PartialEqSpecImpl;

verus! {

/// Identifier of a job. Ids are handed out in sequence, starting at 0.
pub type JobId = u64;

/// An amount of currency, in its smallest unit.
pub type Balance = u128;

/// An account on the ledger: 32 opaque bytes. Two accounts are the same
/// exactly when all their bytes agree.
#[derive(Clone, Copy, Debug, Eq, Hash)]
pub struct AccountId(pub [u8; 32]);

impl PartialEq for AccountId {
    fn eq(&self, other: &Self) -> (same: bool) {
        let mut i: usize = 0;
        while i < 32
            invariant
                i <= 32,
                forall|k: int| 0 <= k < i ==> self.0[k] == other.0[k],
            decreases 32 - i,
        {
            if self.0[i] != other.0[i] {
                return false;
            }
            i = i + 1;
        }
        assert(self.0 =~= other.0);
        true
    }
}

impl PartialEqSpecImpl for AccountId {
    open spec fn obeys_eq_spec() -> bool {
        true
    }

    open spec fn eq_spec(&self, other: &Self) -> bool {
        *self == *other
    }
}

/// The proof systems a job may ask for.
#[derive(Clone, Copy, Debug, PartialEq, Eq, Structural)]
pub enum ProofType {
    ZkSNARK,
    ZkSTARK,
    ZKML,
}

/// Where a job stands in its life.
///
/// `Open` becomes `InProgress` when a prover is matched, `InProgress` becomes
/// `Completed` on settlement. `Cancelled` is reserved for a requester who
/// withdraws an open job. `Completed` and `Cancelled` are terminal.
#[derive(Clone, Copy, Debug, PartialEq, Eq, Structural)]
pub enum JobStatus {
    Open,
    InProgress,
    Completed,
    Cancelled,
}

impl JobStatus {
    /// The transitions a job may legally take.
    pub open spec fn may_become(self, next: JobStatus) -> bool {
        ||| self == JobStatus::Open && next == JobStatus::InProgress
        ||| self == JobStatus::InProgress && next == JobStatus::Completed
        ||| self == JobStatus::Open && next == JobStatus::Cancelled
    }
}

/// A request for a proof, with the price offered for it.
#[derive(Clone, Copy, Debug, PartialEq, Eq)]
pub struct Job {
    pub job_id: JobId,
    pub requester: AccountId,
    pub price: Balance,
    pub proof_type: ProofType,
    pub status: JobStatus,
}

impl Job {
    /// This job with another status and everything else kept.
    pub open spec fn with_status(self, status: JobStatus) -> Job {
        Job { status, ..self }
    }
}

/// A registered worker. `performance_rating` is fixed at registration and is
/// the only thing provers are ranked by; `reputation` starts at 0.
#[derive(Clone, Copy, Debug, PartialEq, Eq)]
pub struct Prover {
    pub account_id: AccountId,
    pub reputation: u64,
    pub performance_rating: u64,
}

impl Prover {
    /// The record a registration writes.
    pub open spec fn fresh(account_id: AccountId, performance_rating: u64) -> Prover {
        Prover { account_id, reputation: 0, performance_rating }
    }

    /// This prover with another reputation and everything else kept.
    pub open spec fn with_reputation(self, reputation: u64) -> Prover {
        Prover { reputation, ..self }
    }
}

/// Why an operation of the marketplace was refused.
#[derive(Clone, Copy, Debug, PartialEq, Eq, Structural)]
pub enum MarketError {
    /// No job or prover is stored under the given id.
    NotFound,
    /// The job is not in the status the operation starts from.
    InvalidStateTransition,
    /// The ledger did not make the payment.
    TransferFailed,
}

/// A payment out of the marketplace's escrow, to be made by the ledger.
#[derive(Clone, Copy, Debug, PartialEq, Eq)]
pub struct Payment {
    pub to: AccountId,
    pub amount: Balance,
}

/// What the ledger answered to a requested payment. A rejected payment moved
/// nothing.
#[derive(Clone, Copy, Debug, PartialEq, Eq, Structural)]
pub enum LedgerReply {
    Paid,
    Rejected,
}

} // verus!
