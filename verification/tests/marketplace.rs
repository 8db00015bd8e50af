use zk_proof_marketplace::{
    AccountId, Job, JobStatus, LedgerReply, MarketError, Payment, ProofType, Prover,
    ZKProofMarketplace,
};

fn account(tag: u8) -> AccountId {
    AccountId([tag; 32])
}

fn status_of(market: &ZKProofMarketplace, job_id: u64) -> JobStatus {
    market.job(job_id).unwrap().status
}

#[test]
fn new_marketplace_is_empty() {
    let market = ZKProofMarketplace::new();
    assert_eq!(market.next_job_id(), 0);
    assert!(market.jobs().is_empty());
    assert!(market.provers().is_empty());
    assert!(market.can_submit());
    assert_eq!(market.job(0), Err(MarketError::NotFound));
    assert_eq!(market.prover(account(1)), Err(MarketError::NotFound));
}

#[test]
fn submitted_ids_start_at_zero_and_increase_by_one() {
    let mut market = ZKProofMarketplace::new();
    let mut previous: Option<u64> = None;
    let mut expected: u64 = 0;
    while expected < 50 {
        let id: u64 = market.submit_job(account(7), ProofType::ZkSTARK, 1_000);
        assert_eq!(id, expected);
        if let Some(before) = previous {
            assert!(id > before);
        }
        previous = Some(id);
        expected += 1;
        assert_eq!(market.next_job_id(), expected);
    }
    let jobs = market.jobs();
    assert_eq!(jobs.len(), 50);
    let mut position: u64 = 0;
    for job in jobs.iter() {
        assert_eq!(job.job_id, position);
        position += 1;
    }
}

#[test]
fn ids_keep_increasing_across_other_operations() {
    let mut market = ZKProofMarketplace::new();
    let first: u64 = market.submit_job(account(1), ProofType::ZkSNARK, 10);
    assert!(market.register_prover(account(2), 5));
    assert_eq!(market.match_and_start_job(first), Ok(Some(account(2))));
    let second: u64 = market.submit_job(account(1), ProofType::ZKML, 20);
    assert_eq!(market.complete_job(account(2), first, LedgerReply::Paid), Ok(true));
    assert_eq!(market.update_prover_reputation(account(2), 3), Ok(()));
    let third: u64 = market.submit_job(account(3), ProofType::ZkSTARK, 30);
    assert_eq!((first, second, third), (0, 1, 2));
    assert_eq!(market.next_job_id(), 3);
}

#[test]
fn submitted_job_is_stored_open_with_its_requester() {
    let mut market = ZKProofMarketplace::new();
    let id: u64 = market.submit_job(account(9), ProofType::ZKML, 12_345);
    assert_eq!(
        market.job(id),
        Ok(Job {
            job_id: 0,
            requester: account(9),
            price: 12_345,
            proof_type: ProofType::ZKML,
            status: JobStatus::Open,
        })
    );
}

#[test]
fn price_is_not_validated() {
    let mut market = ZKProofMarketplace::new();
    let free: u64 = market.submit_job(account(1), ProofType::ZkSNARK, 0);
    let dear: u64 = market.submit_job(account(1), ProofType::ZkSNARK, u128::MAX);
    assert_eq!(market.job(free).unwrap().price, 0);
    assert_eq!(market.job(dear).unwrap().price, u128::MAX);
}

#[test]
fn match_without_provers_returns_none_and_leaves_job_open() {
    let mut market = ZKProofMarketplace::new();
    let id: u64 = market.submit_job(account(1), ProofType::ZkSNARK, 100);
    assert_eq!(market.match_and_start_job(id), Ok(None));
    assert_eq!(status_of(&market, id), JobStatus::Open);
    assert_eq!(market.jobs().len(), 1);
    assert!(market.provers().is_empty());
}

#[test]
fn match_on_missing_job_is_not_found() {
    let mut market = ZKProofMarketplace::new();
    assert!(market.register_prover(account(2), 5));
    assert_eq!(market.match_and_start_job(0), Err(MarketError::NotFound));
    let id: u64 = market.submit_job(account(1), ProofType::ZkSNARK, 100);
    assert_eq!(market.match_and_start_job(id + 1), Err(MarketError::NotFound));
    assert_eq!(market.match_and_start_job(u64::MAX), Err(MarketError::NotFound));
    assert_eq!(status_of(&market, id), JobStatus::Open);
}

#[test]
fn match_selects_highest_rating_of_10_50_30() {
    let mut market = ZKProofMarketplace::new();
    let id: u64 = market.submit_job(account(1), ProofType::ZkSNARK, 100);
    assert!(market.register_prover(account(10), 10));
    assert!(market.register_prover(account(50), 50));
    assert!(market.register_prover(account(30), 30));
    assert_eq!(market.match_and_start_job(id), Ok(Some(account(50))));
    assert_eq!(status_of(&market, id), JobStatus::InProgress);
    assert_eq!(market.prover(account(50)).unwrap().performance_rating, 50);
}

#[test]
fn match_prefers_first_registered_among_equal_top_ratings() {
    let mut market = ZKProofMarketplace::new();
    let id: u64 = market.submit_job(account(1), ProofType::ZkSNARK, 100);
    assert!(market.register_prover(account(3), 20));
    assert!(market.register_prover(account(4), 70));
    assert!(market.register_prover(account(5), 70));
    assert!(market.register_prover(account(6), 70));
    assert_eq!(market.match_and_start_job(id), Ok(Some(account(4))));
}

#[test]
fn match_does_not_change_provers_or_other_jobs() {
    let mut market = ZKProofMarketplace::new();
    let first: u64 = market.submit_job(account(1), ProofType::ZkSNARK, 100);
    let second: u64 = market.submit_job(account(1), ProofType::ZkSTARK, 200);
    assert!(market.register_prover(account(2), 5));
    let provers_before = market.provers();
    assert_eq!(market.match_and_start_job(second), Ok(Some(account(2))));
    assert_eq!(market.provers(), provers_before);
    assert_eq!(status_of(&market, first), JobStatus::Open);
    assert_eq!(status_of(&market, second), JobStatus::InProgress);
    assert_eq!(market.job(second).unwrap().price, 200);
    assert_eq!(market.next_job_id(), 2);
}

#[test]
fn match_runs_again_on_a_job_that_is_not_open() {
    let mut market = ZKProofMarketplace::new();
    let id: u64 = market.submit_job(account(1), ProofType::ZkSNARK, 100);
    assert!(market.register_prover(account(2), 5));
    assert_eq!(market.match_and_start_job(id), Ok(Some(account(2))));
    assert_eq!(market.complete_job(account(2), id, LedgerReply::Paid), Ok(true));
    assert_eq!(status_of(&market, id), JobStatus::Completed);
    assert!(market.register_prover(account(3), 9));
    assert_eq!(market.match_and_start_job(id), Ok(Some(account(3))));
    assert_eq!(status_of(&market, id), JobStatus::InProgress);
}

#[test]
fn complete_open_job_is_refused_without_change() {
    let mut market = ZKProofMarketplace::new();
    let id: u64 = market.submit_job(account(1), ProofType::ZkSNARK, 100);
    assert!(market.register_prover(account(2), 5));
    let jobs_before = market.jobs();
    let provers_before = market.provers();
    assert_eq!(
        market.settlement(account(2), id),
        Err(MarketError::InvalidStateTransition)
    );
    assert_eq!(
        market.complete_job(account(2), id, LedgerReply::Paid),
        Err(MarketError::InvalidStateTransition)
    );
    assert_eq!(
        market.complete_job(account(2), id, LedgerReply::Rejected),
        Err(MarketError::InvalidStateTransition)
    );
    assert_eq!(market.jobs(), jobs_before);
    assert_eq!(market.provers(), provers_before);
    assert_eq!(market.next_job_id(), 1);
    assert_eq!(status_of(&market, id), JobStatus::Open);
}

#[test]
fn complete_completed_job_is_refused_without_change() {
    let mut market = ZKProofMarketplace::new();
    let id: u64 = market.submit_job(account(1), ProofType::ZkSNARK, 100);
    assert!(market.register_prover(account(2), 5));
    assert_eq!(market.match_and_start_job(id), Ok(Some(account(2))));
    assert_eq!(market.complete_job(account(2), id, LedgerReply::Paid), Ok(true));
    let jobs_before = market.jobs();
    assert_eq!(
        market.settlement(account(2), id),
        Err(MarketError::InvalidStateTransition)
    );
    assert_eq!(
        market.complete_job(account(2), id, LedgerReply::Paid),
        Err(MarketError::InvalidStateTransition)
    );
    assert_eq!(market.jobs(), jobs_before);
    assert_eq!(status_of(&market, id), JobStatus::Completed);
}

#[test]
fn complete_missing_job_is_not_found() {
    let mut market = ZKProofMarketplace::new();
    assert_eq!(market.settlement(account(2), 0), Err(MarketError::NotFound));
    assert_eq!(
        market.complete_job(account(2), 0, LedgerReply::Paid),
        Err(MarketError::NotFound)
    );
    let id: u64 = market.submit_job(account(1), ProofType::ZkSNARK, 100);
    assert_eq!(
        market.complete_job(account(2), id + 1, LedgerReply::Rejected),
        Err(MarketError::NotFound)
    );
    assert_eq!(status_of(&market, id), JobStatus::Open);
}

#[test]
fn complete_job_in_progress_pays_price_to_caller_and_completes() {
    let mut market = ZKProofMarketplace::new();
    let id: u64 = market.submit_job(account(1), ProofType::ZkSNARK, 4_200);
    assert!(market.register_prover(account(2), 5));
    assert_eq!(market.match_and_start_job(id), Ok(Some(account(2))));
    assert_eq!(
        market.settlement(account(2), id),
        Ok(Payment { to: account(2), amount: 4_200 })
    );
    assert_eq!(market.complete_job(account(2), id, LedgerReply::Paid), Ok(true));
    assert_eq!(
        market.job(id),
        Ok(Job {
            job_id: id,
            requester: account(1),
            price: 4_200,
            proof_type: ProofType::ZkSNARK,
            status: JobStatus::Completed,
        })
    );
}

#[test]
fn settlement_pays_whoever_calls() {
    let mut market = ZKProofMarketplace::new();
    let id: u64 = market.submit_job(account(1), ProofType::ZkSNARK, 77);
    assert!(market.register_prover(account(2), 5));
    assert_eq!(market.match_and_start_job(id), Ok(Some(account(2))));
    assert_eq!(
        market.settlement(account(8), id),
        Ok(Payment { to: account(8), amount: 77 })
    );
    assert_eq!(market.complete_job(account(8), id, LedgerReply::Paid), Ok(true));
    assert_eq!(status_of(&market, id), JobStatus::Completed);
}

#[test]
fn rejected_transfer_leaves_job_in_progress() {
    let mut market = ZKProofMarketplace::new();
    let id: u64 = market.submit_job(account(1), ProofType::ZkSNARK, 4_200);
    assert!(market.register_prover(account(2), 5));
    assert_eq!(market.match_and_start_job(id), Ok(Some(account(2))));
    let jobs_before = market.jobs();
    assert_eq!(
        market.complete_job(account(2), id, LedgerReply::Rejected),
        Err(MarketError::TransferFailed)
    );
    assert_eq!(market.jobs(), jobs_before);
    assert_eq!(status_of(&market, id), JobStatus::InProgress);
    assert_eq!(
        market.settlement(account(2), id),
        Ok(Payment { to: account(2), amount: 4_200 })
    );
    assert_eq!(market.complete_job(account(2), id, LedgerReply::Paid), Ok(true));
    assert_eq!(status_of(&market, id), JobStatus::Completed);
}

#[test]
fn update_reputation_of_unregistered_account_is_not_found() {
    let mut market = ZKProofMarketplace::new();
    assert!(market.register_prover(account(2), 5));
    let provers_before = market.provers();
    assert_eq!(
        market.update_prover_reputation(account(3), 99),
        Err(MarketError::NotFound)
    );
    assert_eq!(market.provers(), provers_before);
    assert_eq!(market.prover(account(3)), Err(MarketError::NotFound));
}

#[test]
fn update_reputation_overwrites_and_keeps_rating() {
    let mut market = ZKProofMarketplace::new();
    assert!(market.register_prover(account(2), 5));
    assert!(market.register_prover(account(3), 6));
    assert_eq!(market.update_prover_reputation(account(2), 99), Ok(()));
    assert_eq!(
        market.prover(account(2)),
        Ok(Prover { account_id: account(2), reputation: 99, performance_rating: 5 })
    );
    assert_eq!(market.update_prover_reputation(account(2), 1), Ok(()));
    assert_eq!(market.prover(account(2)).unwrap().reputation, 1);
    assert_eq!(market.update_prover_reputation(account(2), u64::MAX), Ok(()));
    assert_eq!(market.prover(account(2)).unwrap().reputation, u64::MAX);
    assert_eq!(
        market.prover(account(3)),
        Ok(Prover { account_id: account(3), reputation: 0, performance_rating: 6 })
    );
}

#[test]
fn register_then_get_returns_rating() {
    let mut market = ZKProofMarketplace::new();
    assert!(market.register_prover(account(2), 1234));
    assert_eq!(market.prover(account(2)).unwrap().performance_rating, 1234);
    assert_eq!(
        market.prover(account(2)),
        Ok(Prover { account_id: account(2), reputation: 0, performance_rating: 1234 })
    );
}

#[test]
fn registering_again_replaces_record_and_resets_reputation() {
    let mut market = ZKProofMarketplace::new();
    assert!(market.register_prover(account(2), 10));
    assert!(market.register_prover(account(3), 20));
    assert_eq!(market.update_prover_reputation(account(2), 8), Ok(()));
    assert!(market.register_prover(account(2), 20));
    assert_eq!(
        market.provers(),
        vec![
            Prover { account_id: account(2), reputation: 0, performance_rating: 20 },
            Prover { account_id: account(3), reputation: 0, performance_rating: 20 },
        ]
    );
    let id: u64 = market.submit_job(account(1), ProofType::ZkSNARK, 1);
    assert_eq!(market.match_and_start_job(id), Ok(Some(account(2))));
}

#[test]
fn accounts_differing_in_one_byte_are_different_provers() {
    let mut last = [0u8; 32];
    last[31] = 1;
    let mut first = [0u8; 32];
    first[0] = 1;
    assert_ne!(AccountId(last), AccountId([0u8; 32]));
    assert_ne!(AccountId(first), AccountId(last));
    assert_eq!(AccountId(last), AccountId(last));
    let mut market = ZKProofMarketplace::new();
    assert!(market.register_prover(AccountId([0u8; 32]), 1));
    assert!(market.register_prover(AccountId(last), 2));
    assert!(market.register_prover(AccountId(first), 3));
    assert_eq!(market.provers().len(), 3);
    assert_eq!(market.prover(AccountId(last)).unwrap().performance_rating, 2);
    assert_eq!(market.prover(AccountId(first)).unwrap().performance_rating, 3);
}

#[test]
fn restore_accepts_what_a_marketplace_holds() {
    let mut market = ZKProofMarketplace::new();
    let id: u64 = market.submit_job(account(1), ProofType::ZkSNARK, 100);
    market.submit_job(account(1), ProofType::ZKML, 200);
    assert!(market.register_prover(account(2), 5));
    assert_eq!(market.match_and_start_job(id), Ok(Some(account(2))));
    let restored =
        ZKProofMarketplace::restore(market.jobs(), market.provers(), market.next_job_id());
    let mut restored = restored.expect("a state taken from a marketplace is well formed");
    assert_eq!(restored.jobs(), market.jobs());
    assert_eq!(restored.provers(), market.provers());
    assert_eq!(restored.next_job_id(), 2);
    assert_eq!(restored.complete_job(account(2), id, LedgerReply::Paid), Ok(true));
    assert_eq!(restored.submit_job(account(4), ProofType::ZkSTARK, 1), 2);
}

#[test]
fn restore_refuses_ill_formed_state() {
    let job = Job {
        job_id: 0,
        requester: account(1),
        price: 1,
        proof_type: ProofType::ZkSNARK,
        status: JobStatus::Open,
    };
    let misplaced = Job { job_id: 5, ..job };
    let prover = Prover { account_id: account(2), reputation: 0, performance_rating: 1 };
    let twin = Prover { account_id: account(2), reputation: 4, performance_rating: 9 };
    assert!(ZKProofMarketplace::restore(vec![job], vec![prover], 1).is_some());
    assert!(ZKProofMarketplace::restore(vec![], vec![], 0).is_some());
    assert!(ZKProofMarketplace::restore(vec![job], vec![prover], 0).is_none());
    assert!(ZKProofMarketplace::restore(vec![job], vec![prover], 2).is_none());
    assert!(ZKProofMarketplace::restore(vec![misplaced], vec![prover], 1).is_none());
    assert!(ZKProofMarketplace::restore(vec![job, job], vec![prover], 2).is_none());
    assert!(ZKProofMarketplace::restore(vec![job], vec![prover, twin], 1).is_none());
}

#[test]
fn registering_twice_is_registering_once() {
    let mut market = ZKProofMarketplace::new();
    assert!(market.register_prover(account(1), 7));
    assert!(market.register_prover(account(2), 10));
    let once = market.provers();
    assert!(market.register_prover(account(2), 10));
    assert_eq!(market.provers(), once);
    assert!(market.register_prover(account(1), 7));
    assert_eq!(market.provers(), once);
}

#[test]
fn failed_operations_change_nothing() {
    let mut market = ZKProofMarketplace::new();
    let id: u64 = market.submit_job(account(1), ProofType::ZkSNARK, 5);
    assert!(market.register_prover(account(2), 1));
    let jobs = market.jobs();
    let provers = market.provers();
    assert_eq!(market.match_and_start_job(id + 9), Err(MarketError::NotFound));
    assert_eq!(
        market.complete_job(account(2), id, LedgerReply::Paid),
        Err(MarketError::InvalidStateTransition)
    );
    assert_eq!(
        market.complete_job(account(2), id + 9, LedgerReply::Paid),
        Err(MarketError::NotFound)
    );
    assert_eq!(market.update_prover_reputation(account(9), 1), Err(MarketError::NotFound));
    assert_eq!(market.jobs(), jobs);
    assert_eq!(market.provers(), provers);
    assert_eq!(market.next_job_id(), 1);
}
