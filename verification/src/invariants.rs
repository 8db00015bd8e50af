//! What holds of the marketplace whatever is done with it.
//!
//! Every statement here is about `MarketState`, the model that the
//! operations of `ZKProofMarketplace` are specified against, so it holds of
//! every run of the executable marketplace.

use vstd::prelude::*;
use crate::job_registry::has_job;
use crate::matchmaker::{lemma_top_ranked_exists, top_ranked};
use crate::prover_registry::{
    holds_account, is_registered, lemma_after_register, lemma_after_reputation,
    lemma_position_unique, position_of, record_of,
};
use crate::state::{MarketState, Operation};
use crate::types::{
    AccountId, Job, JobId, JobStatus, LedgerReply, MarketError, Payment, Prover,
};

verus! {

/// An operation that may be called leaves a well-formed state well formed.
pub proof fn lemma_apply_keeps_wf(state: MarketState, op: Operation)
    requires
        state.wf(),
        state.admits(op),
    ensures
        state.apply(op).wf(),
{
    match op {
        Operation::SubmitJob { caller, proof_type, price } => {},
        Operation::RegisterProver { caller, performance_rating } => {
            lemma_after_register(state.provers, caller, performance_rating);
        },
        Operation::MatchAndStartJob { job_id } => {},
        Operation::CompleteJob { caller, job_id, reply } => {},
        Operation::UpdateProverReputation { prover_id, new_reputation } => {
            lemma_after_reputation(state.provers, prover_id, new_reputation);
        },
    }
}

/// An operation is all or nothing: one that answers with an error has
/// changed nothing.
pub proof fn lemma_failed_operation_changes_nothing(state: MarketState, op: Operation)
    requires
        state.fails(op),
    ensures
        state.apply(op) == state,
{
}

/// The next id is greater than the id of every job submitted so far.
pub proof fn lemma_next_job_id_exceeds_every_id(state: MarketState, job_id: JobId)
    requires
        state.wf(),
        has_job(state.jobs, job_id),
    ensures
        state.jobs[job_id as int].job_id == job_id,
        job_id < state.next_job_id,
{
}

/// Jobs come into being by submission only and provers by registration
/// only, one at a time, and neither is ever removed.
pub proof fn lemma_records_are_never_removed(state: MarketState, op: Operation)
    ensures
        op is SubmitJob ==> state.apply(op).jobs.len() == state.jobs.len() + 1,
        !(op is SubmitJob) ==> state.apply(op).jobs.len() == state.jobs.len(),
        op is RegisterProver ==> state.provers.len() <= state.apply(op).provers.len()
            <= state.provers.len() + 1,
        !(op is RegisterProver) ==> state.apply(op).provers.len() == state.provers.len(),
{
}

/// Running the first `k` operations of a sequence and then the next one is
/// running the first `k + 1`.
pub proof fn lemma_run_step(state: MarketState, ops: Seq<Operation>, k: int)
    requires
        0 <= k < ops.len(),
    ensures
        state.run(ops.take(k + 1)) == state.run(ops.take(k)).apply(ops[k]),
{
    assert(ops.take(k + 1).drop_last() =~= ops.take(k));
    assert(ops.take(k + 1).last() == ops[k]);
}

/// A sequence of operations, each of which may be called when its turn
/// comes, leads from a well-formed state through well-formed states only.
pub proof fn lemma_run_keeps_wf(state: MarketState, ops: Seq<Operation>, k: int)
    requires
        state.wf(),
        state.admits_all(ops),
        0 <= k <= ops.len(),
    ensures
        state.run(ops.take(k)).wf(),
        k == ops.len() ==> state.run(ops).wf(),
    decreases k,
{
    if k == 0 {
        assert(ops.take(0) =~= Seq::<Operation>::empty());
    } else {
        lemma_run_keeps_wf(state, ops, k - 1);
        lemma_run_step(state, ops, k - 1);
        assert(state.run(ops.take(k - 1)).admits(ops[k - 1]));
        lemma_apply_keeps_wf(state.run(ops.take(k - 1)), ops[k - 1]);
    }
    if k == ops.len() {
        assert(ops.take(k) =~= ops);
    }
}

/// No operation lowers the id that the next job gets, and a submission
/// raises it by one.
pub proof fn lemma_next_job_id_never_falls(state: MarketState, ops: Seq<Operation>, k: int, l: int)
    requires
        0 <= k <= l <= ops.len(),
    ensures
        state.run(ops.take(k)).next_job_id <= state.run(ops.take(l)).next_job_id,
        k < l && ops[k] is SubmitJob ==> state.run(ops.take(k)).next_job_id < state.run(
            ops.take(l),
        ).next_job_id,
    decreases l - k,
{
    if k < l {
        lemma_run_step(state, ops, k);
        lemma_next_job_id_never_falls(state, ops, k + 1, l);
    }
}

/// Job ids are never handed out twice: of two submissions in a sequence of
/// operations, whatever else is called before, between and after them, the
/// later one gets the greater id. The id a submission gets is the next id of
/// the state it is called in.
pub proof fn lemma_job_ids_increase(state: MarketState, ops: Seq<Operation>, k: int, l: int)
    requires
        state.wf(),
        state.admits_all(ops),
        0 <= k < l < ops.len(),
        ops[k] is SubmitJob,
        ops[l] is SubmitJob,
    ensures
        state.run(ops.take(k)).next_job_id < state.run(ops.take(l)).next_job_id < u64::MAX,
{
    lemma_next_job_id_never_falls(state, ops, k, l);
    assert(state.run(ops.take(l)).admits(ops[l]));
}

/// A sequence of submissions and nothing else numbers its jobs without a
/// gap: the `k`-th of them, counted from 0, gets the id `k` places after the
/// first.
pub proof fn lemma_submissions_get_consecutive_ids(state: MarketState, ops: Seq<Operation>, k: int)
    requires
        forall|i: int| 0 <= i < ops.len() ==> #[trigger] ops[i] is SubmitJob,
        0 <= k <= ops.len(),
    ensures
        state.run(ops.take(k)).next_job_id == state.next_job_id + k,
    decreases k,
{
    if k == 0 {
        assert(ops.take(0) =~= Seq::<Operation>::empty());
    } else {
        lemma_submissions_get_consecutive_ids(state, ops, k - 1);
        lemma_run_step(state, ops, k - 1);
        assert(ops[k - 1] is SubmitJob);
    }
}

/// Once an account has registered, it is found with the rating it gave and
/// reputation 0.
pub proof fn lemma_registered_prover_is_found(
    state: MarketState,
    caller: AccountId,
    performance_rating: u64,
)
    requires
        state.wf(),
    ensures
        state.register_prover(caller, performance_rating).prover(caller) == Ok::<
            Prover,
            MarketError,
        >(Prover::fresh(caller, performance_rating)),
{
    lemma_after_register(state.provers, caller, performance_rating);
}

/// Registering is idempotent: registering the same account with the same
/// rating a second time changes nothing.
pub proof fn lemma_registering_twice_is_registering_once(
    state: MarketState,
    caller: AccountId,
    performance_rating: u64,
)
    requires
        state.wf(),
    ensures
        state.register_prover(caller, performance_rating).register_prover(
            caller,
            performance_rating,
        ) == state.register_prover(caller, performance_rating),
{
    lemma_after_register(state.provers, caller, performance_rating);
    let once = state.register_prover(caller, performance_rating).provers;
    let twice = state.register_prover(caller, performance_rating).register_prover(
        caller,
        performance_rating,
    ).provers;
    assert(twice =~= once);
}

/// Without a registered prover, matching a job finds no one and changes
/// nothing: an open job stays open.
pub proof fn lemma_no_match_without_provers(state: MarketState, job_id: JobId)
    requires
        has_job(state.jobs, job_id),
        state.provers.len() == 0,
    ensures
        state.matched_prover(job_id) == Ok::<Option<AccountId>, MarketError>(None),
        state.match_and_start_job(job_id) == state,
{
}

/// With a registered prover, matching a job names the account of a
/// registered prover, the top-ranked one, and the job is `InProgress`
/// afterwards.
pub proof fn lemma_match_names_registered_prover(state: MarketState, job_id: JobId)
    requires
        has_job(state.jobs, job_id),
        state.provers.len() > 0,
    ensures
        state.matched_prover(job_id) == Ok::<Option<AccountId>, MarketError>(
            Some(state.provers[top_ranked(state.provers)].account_id),
        ),
        is_registered(state.provers, state.provers[top_ranked(state.provers)].account_id),
        state.match_and_start_job(job_id).job(job_id) == Ok::<Job, MarketError>(
            state.jobs[job_id as int].with_status(JobStatus::InProgress),
        ),
{
    lemma_top_ranked_exists(state.provers);
    let t = top_ranked(state.provers);
    assert(holds_account(state.provers, t, state.provers[t].account_id));
}

/// Completing a job that is not `InProgress` is refused, whatever the ledger
/// is said to have answered: no payment is due and nothing changes.
pub proof fn lemma_completion_needs_job_in_progress(
    state: MarketState,
    caller: AccountId,
    job_id: JobId,
    reply: LedgerReply,
)
    requires
        has_job(state.jobs, job_id),
        state.jobs[job_id as int].status != JobStatus::InProgress,
    ensures
        state.settlement(caller, job_id) == Err::<Payment, MarketError>(
            MarketError::InvalidStateTransition,
        ),
        state.completion(caller, job_id, reply) == Err::<bool, MarketError>(
            MarketError::InvalidStateTransition,
        ),
        state.complete_job(caller, job_id, reply) == state,
{
}

/// For a job that is `InProgress` the payment due is exactly its price, to
/// the caller. If the ledger paid, the job is `Completed` afterwards and
/// nothing else has changed; if the ledger rejected the payment, the
/// completion fails with `TransferFailed` and nothing has changed, so the
/// job is still `InProgress`.
pub proof fn lemma_completion_of_job_in_progress(
    state: MarketState,
    caller: AccountId,
    job_id: JobId,
)
    requires
        has_job(state.jobs, job_id),
        state.jobs[job_id as int].status == JobStatus::InProgress,
    ensures
        state.settlement(caller, job_id) == Ok::<Payment, MarketError>(
            (Payment { to: caller, amount: state.jobs[job_id as int].price }),
        ),
        state.completion(caller, job_id, LedgerReply::Paid) == Ok::<bool, MarketError>(true),
        state.complete_job(caller, job_id, LedgerReply::Paid) == (MarketState {
            jobs: state.jobs.update(
                job_id as int,
                state.jobs[job_id as int].with_status(JobStatus::Completed),
            ),
            ..state
        }),
        state.completion(caller, job_id, LedgerReply::Rejected) == Err::<bool, MarketError>(
            MarketError::TransferFailed,
        ),
        state.complete_job(caller, job_id, LedgerReply::Rejected) == state,
{
}

/// Whenever a completion changes the status of a job, the change is the
/// legal one from `InProgress` to `Completed`.
pub proof fn lemma_completion_is_legal(
    state: MarketState,
    caller: AccountId,
    job_id: JobId,
    reply: LedgerReply,
    other: JobId,
)
    requires
        has_job(state.jobs, other),
    ensures
        has_job(state.complete_job(caller, job_id, reply).jobs, other),
        state.complete_job(caller, job_id, reply).jobs[other as int].status
            == state.jobs[other as int].status || state.jobs[other as int].status.may_become(
            state.complete_job(caller, job_id, reply).jobs[other as int].status,
        ),
{
}

/// Setting the reputation of an account that is not registered fails with
/// `NotFound` and leaves the registry as it was.
pub proof fn lemma_reputation_needs_registered_account(
    state: MarketState,
    prover_id: AccountId,
    new_reputation: u64,
)
    requires
        !is_registered(state.provers, prover_id),
    ensures
        state.reputation_update(prover_id) == Err::<(), MarketError>(MarketError::NotFound),
        state.update_prover_reputation(prover_id, new_reputation) == state,
{
}

/// Setting the reputation of a registered account changes the reputation of
/// that account and nothing else.
pub proof fn lemma_reputation_of_registered_account(
    state: MarketState,
    prover_id: AccountId,
    new_reputation: u64,
)
    requires
        state.wf(),
        is_registered(state.provers, prover_id),
    ensures
        state.reputation_update(prover_id) == Ok::<(), MarketError>(()),
        state.update_prover_reputation(prover_id, new_reputation).prover(prover_id) == Ok::<
            Prover,
            MarketError,
        >(record_of(state.provers, prover_id).with_reputation(new_reputation)),
{
    let p = position_of(state.provers, prover_id);
    assert(holds_account(state.provers, p, prover_id));
    let next = state.update_prover_reputation(prover_id, new_reputation);
    lemma_after_reputation(state.provers, prover_id, new_reputation);
    assert(holds_account(next.provers, p, prover_id));
    lemma_position_unique(next.provers, p, prover_id);
}

/// No operation removes a job or touches its id, requester, price or proof
/// type. The status of a job changes in two ways only: a match that found a
/// prover makes it `InProgress`, and a completion that was paid makes a job
/// `InProgress` `Completed`.
pub proof fn lemma_jobs_are_kept(state: MarketState, op: Operation, job_id: JobId)
    requires
        state.wf(),
        has_job(state.jobs, job_id),
    ensures
        has_job(state.apply(op).jobs, job_id),
        state.apply(op).jobs[job_id as int].job_id == state.jobs[job_id as int].job_id,
        state.apply(op).jobs[job_id as int].requester == state.jobs[job_id as int].requester,
        state.apply(op).jobs[job_id as int].price == state.jobs[job_id as int].price,
        state.apply(op).jobs[job_id as int].proof_type == state.jobs[job_id as int].proof_type,
        ({
            let before = state.jobs[job_id as int].status;
            let after = state.apply(op).jobs[job_id as int].status;
            ||| after == before
            ||| op matches Operation::MatchAndStartJob { job_id: matched } && matched == job_id
                && state.provers.len() > 0 && after == JobStatus::InProgress
            ||| op matches Operation::CompleteJob { job_id: completed, reply, .. } && completed
                == job_id && reply == LedgerReply::Paid && before == JobStatus::InProgress
                && after == JobStatus::Completed
        }),
{
}

/// A registered prover stays registered, and its performance rating stays
/// what it was, under every operation but a new registration of its own
/// account.
pub proof fn lemma_rating_is_kept(state: MarketState, op: Operation, account_id: AccountId)
    requires
        state.wf(),
        is_registered(state.provers, account_id),
        !(op matches Operation::RegisterProver { caller, .. } && caller == account_id),
    ensures
        is_registered(state.apply(op).provers, account_id),
        record_of(state.apply(op).provers, account_id).performance_rating == record_of(
            state.provers,
            account_id,
        ).performance_rating,
{
    let p = position_of(state.provers, account_id);
    assert(holds_account(state.provers, p, account_id));
    let next = state.apply(op).provers;
    match op {
        Operation::RegisterProver { caller, performance_rating } => {
            lemma_after_register(state.provers, caller, performance_rating);
            if is_registered(state.provers, caller) {
                let q = position_of(state.provers, caller);
                assert(holds_account(state.provers, q, caller));
                assert(q != p);
            }
            assert(holds_account(next, p, account_id));
            lemma_position_unique(next, p, account_id);
        },
        Operation::UpdateProverReputation { prover_id, new_reputation } => {
            lemma_after_reputation(state.provers, prover_id, new_reputation);
            if is_registered(state.provers, prover_id) {
                let q = position_of(state.provers, prover_id);
                assert(holds_account(state.provers, q, prover_id));
            }
            assert(holds_account(next, p, account_id));
            lemma_position_unique(next, p, account_id);
        },
        _ => {},
    }
}

} // verus!
