//! A marketplace that pairs proof-generation jobs with registered provers
//! and settles the payment when a job completes.
//!
//! The marketplace is a state machine over plain values. Whoever embeds it
//! supplies the caller's identity with each operation and carries out the
//! payments it asks for; the marketplace decides what may happen and records
//! what did.

pub mod invariants;
pub mod job_registry;
pub mod marketplace;
pub mod matchmaker;
pub mod prover_registry;
pub mod state;
pub mod types;

pub use crate::job_registry::JobRegistry;
pub use crate::marketplace::ZKProofMarketplace;
pub use crate::matchmaker::Matchmaker;
pub use crate::prover_registry::ProverRegistry;
pub use crate::state::{MarketState, Operation};
pub use crate::types::{
    AccountId, Balance, Job, JobId, JobStatus, LedgerReply, MarketError, Payment, ProofType,
    Prover,
};
