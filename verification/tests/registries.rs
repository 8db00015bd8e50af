use zk_proof_marketplace::{
    AccountId, Job, JobRegistry, JobStatus, MarketError, ProofType, Prover, ProverRegistry,
};

fn account(tag: u8) -> AccountId {
    AccountId([tag; 32])
}

#[test]
fn job_registry_creates_sequential_open_jobs() {
    let mut registry = JobRegistry::new();
    assert!(registry.all().is_empty());
    assert_eq!(registry.create(account(1), 10, ProofType::ZkSNARK), 0);
    assert_eq!(registry.create(account(2), 20, ProofType::ZkSTARK), 1);
    assert_eq!(registry.create(account(1), 30, ProofType::ZKML), 2);
    assert_eq!(
        registry.get(1),
        Ok(Job {
            job_id: 1,
            requester: account(2),
            price: 20,
            proof_type: ProofType::ZkSTARK,
            status: JobStatus::Open,
        })
    );
    assert_eq!(registry.all().len(), 3);
}

#[test]
fn job_registry_get_missing_is_not_found() {
    let mut registry = JobRegistry::new();
    assert_eq!(registry.get(0), Err(MarketError::NotFound));
    registry.create(account(1), 10, ProofType::ZkSNARK);
    assert!(registry.get(0).is_ok());
    assert_eq!(registry.get(1), Err(MarketError::NotFound));
    assert_eq!(registry.get(u64::MAX), Err(MarketError::NotFound));
}

#[test]
fn job_registry_set_status_overwrites_any_status() {
    let mut registry = JobRegistry::new();
    registry.create(account(1), 10, ProofType::ZkSNARK);
    registry.create(account(1), 11, ProofType::ZkSNARK);
    assert_eq!(registry.set_status(0, JobStatus::Completed), Ok(()));
    assert_eq!(registry.get(0).unwrap().status, JobStatus::Completed);
    assert_eq!(registry.set_status(0, JobStatus::Open), Ok(()));
    assert_eq!(registry.get(0).unwrap().status, JobStatus::Open);
    assert_eq!(registry.set_status(0, JobStatus::Cancelled), Ok(()));
    assert_eq!(
        registry.get(0),
        Ok(Job {
            job_id: 0,
            requester: account(1),
            price: 10,
            proof_type: ProofType::ZkSNARK,
            status: JobStatus::Cancelled,
        })
    );
    assert_eq!(registry.get(1).unwrap().status, JobStatus::Open);
}

#[test]
fn job_registry_set_status_of_missing_job_changes_nothing() {
    let mut registry = JobRegistry::new();
    registry.create(account(1), 10, ProofType::ZkSNARK);
    let before = registry.all();
    assert_eq!(registry.set_status(1, JobStatus::InProgress), Err(MarketError::NotFound));
    assert_eq!(registry.all(), before);
}

#[test]
fn job_registry_from_jobs_checks_ids() {
    let job = Job {
        job_id: 0,
        requester: account(1),
        price: 1,
        proof_type: ProofType::ZkSNARK,
        status: JobStatus::InProgress,
    };
    let next = Job { job_id: 1, ..job };
    assert!(JobRegistry::from_jobs(vec![]).is_some());
    let registry = JobRegistry::from_jobs(vec![job, next]).expect("ids 0 and 1 in place");
    assert_eq!(registry.get(1), Ok(next));
    assert!(JobRegistry::from_jobs(vec![next, job]).is_none());
    assert!(JobRegistry::from_jobs(vec![next]).is_none());
    assert!(JobRegistry::from_jobs(vec![job, job]).is_none());
}

#[test]
fn prover_registry_registers_in_order() {
    let mut registry = ProverRegistry::new();
    assert!(registry.all().is_empty());
    registry.register(account(3), 30);
    registry.register(account(1), 10);
    registry.register(account(2), 20);
    assert_eq!(
        registry.all(),
        vec![
            Prover { account_id: account(3), reputation: 0, performance_rating: 30 },
            Prover { account_id: account(1), reputation: 0, performance_rating: 10 },
            Prover { account_id: account(2), reputation: 0, performance_rating: 20 },
        ]
    );
    assert_eq!(
        registry.get(account(1)),
        Ok(Prover { account_id: account(1), reputation: 0, performance_rating: 10 })
    );
}

#[test]
fn prover_registry_get_unregistered_is_not_found() {
    let mut registry = ProverRegistry::new();
    assert_eq!(registry.get(account(1)), Err(MarketError::NotFound));
    registry.register(account(2), 20);
    assert_eq!(registry.get(account(1)), Err(MarketError::NotFound));
}

#[test]
fn prover_registry_register_is_insert_or_replace() {
    let mut registry = ProverRegistry::new();
    registry.register(account(1), 10);
    registry.register(account(2), 20);
    assert_eq!(registry.update_reputation(account(1), 55), Ok(()));
    registry.register(account(1), 11);
    assert_eq!(
        registry.all(),
        vec![
            Prover { account_id: account(1), reputation: 0, performance_rating: 11 },
            Prover { account_id: account(2), reputation: 0, performance_rating: 20 },
        ]
    );
    registry.register(account(1), 11);
    assert_eq!(registry.all().len(), 2);
}

#[test]
fn prover_registry_update_reputation() {
    let mut registry = ProverRegistry::new();
    registry.register(account(1), 10);
    registry.register(account(2), 20);
    assert_eq!(registry.update_reputation(account(2), 7), Ok(()));
    assert_eq!(
        registry.all(),
        vec![
            Prover { account_id: account(1), reputation: 0, performance_rating: 10 },
            Prover { account_id: account(2), reputation: 7, performance_rating: 20 },
        ]
    );
    let before = registry.all();
    assert_eq!(registry.update_reputation(account(3), 7), Err(MarketError::NotFound));
    assert_eq!(registry.all(), before);
}

#[test]
fn prover_registry_from_records_checks_accounts() {
    let one = Prover { account_id: account(1), reputation: 3, performance_rating: 10 };
    let two = Prover { account_id: account(2), reputation: 0, performance_rating: 10 };
    let one_again = Prover { account_id: account(1), reputation: 0, performance_rating: 99 };
    assert!(ProverRegistry::from_records(vec![]).is_some());
    let registry = ProverRegistry::from_records(vec![one, two]).expect("two accounts");
    assert_eq!(registry.get(account(1)), Ok(one));
    assert_eq!(registry.all(), vec![one, two]);
    assert!(ProverRegistry::from_records(vec![one, two, one_again]).is_none());
    assert!(ProverRegistry::from_records(vec![one, one]).is_none());
}
