//! The prover registry: one record per account, kept in the order in which
//! the accounts first registered.

use vstd::prelude::*;
use crate::types::{AccountId, MarketError, Prover};

verus! {

/// No account has two records.
pub open spec fn accounts_distinct(records: Seq<Prover>) -> bool {
    forall|i: int, j: int|
        0 <= i < j < records.len() ==> (#[trigger] records[i]).account_id
            != (#[trigger] records[j]).account_id
}

/// Position `i` holds the record of `account`.
pub open spec fn holds_account(records: Seq<Prover>, i: int, account: AccountId) -> bool {
    0 <= i < records.len() && records[i].account_id == account
}

/// `account` has a record.
pub open spec fn is_registered(records: Seq<Prover>, account: AccountId) -> bool {
    exists|i: int| holds_account(records, i, account)
}

/// Where the record of a registered account stands.
pub open spec fn position_of(records: Seq<Prover>, account: AccountId) -> int {
    choose|i: int| holds_account(records, i, account)
}

/// The record of a registered account.
pub open spec fn record_of(records: Seq<Prover>, account: AccountId) -> Prover {
    records[position_of(records, account)]
}

/// The records after `account` registers with `performance_rating`: a fresh
/// record with reputation 0, in the place of the account's earlier record if
/// it had one, else behind all others.
pub open spec fn after_register(records: Seq<Prover>, account: AccountId, performance_rating: u64)
    -> Seq<Prover> {
    if is_registered(records, account) {
        records.update(position_of(records, account), Prover::fresh(account, performance_rating))
    } else {
        records.push(Prover::fresh(account, performance_rating))
    }
}

/// The records after the reputation of `account` is set to `reputation`.
/// Nothing changes for an account without a record.
pub open spec fn after_reputation(records: Seq<Prover>, account: AccountId, reputation: u64)
    -> Seq<Prover> {
    if is_registered(records, account) {
        records.update(
            position_of(records, account),
            record_of(records, account).with_reputation(reputation),
        )
    } else {
        records
    }
}

/// In records without a repeated account, a position that holds the account
/// is the position of the account.
pub proof fn lemma_position_unique(records: Seq<Prover>, i: int, account: AccountId)
    requires
        accounts_distinct(records),
        holds_account(records, i, account),
    ensures
        is_registered(records, account),
        position_of(records, account) == i,
        record_of(records, account) == records[i],
{
    let p = position_of(records, account);
    assert(holds_account(records, p, account));
    if p < i {
        assert(records[p].account_id != records[i].account_id);
    } else if i < p {
        assert(records[i].account_id != records[p].account_id);
    }
}

/// Registering keeps the accounts distinct and leaves the account registered
/// with the fresh record.
pub proof fn lemma_after_register(records: Seq<Prover>, account: AccountId, performance_rating: u64)
    requires
        accounts_distinct(records),
    ensures
        accounts_distinct(after_register(records, account, performance_rating)),
        is_registered(after_register(records, account, performance_rating), account),
        record_of(after_register(records, account, performance_rating), account) == Prover::fresh(
            account,
            performance_rating,
        ),
{
    let fresh = Prover::fresh(account, performance_rating);
    let next = after_register(records, account, performance_rating);
    if is_registered(records, account) {
        let p = position_of(records, account);
        assert(holds_account(records, p, account));
        assert forall|i: int, j: int| 0 <= i < j < next.len() implies
            (#[trigger] next[i]).account_id != (#[trigger] next[j]).account_id by {
            assert(records[i].account_id != records[j].account_id);
        }
        assert(holds_account(next, p, account));
        lemma_position_unique(next, p, account);
    } else {
        let p = records.len() as int;
        assert forall|i: int, j: int| 0 <= i < j < next.len() implies
            (#[trigger] next[i]).account_id != (#[trigger] next[j]).account_id by {
            if j < p {
                assert(records[i].account_id != records[j].account_id);
            } else {
                assert(!holds_account(records, i, account));
            }
        }
        assert(holds_account(next, p, account));
        lemma_position_unique(next, p, account);
    }
}

/// Setting a reputation keeps the accounts distinct, and keeps every account
/// registered or not as it was.
pub proof fn lemma_after_reputation(records: Seq<Prover>, account: AccountId, reputation: u64)
    requires
        accounts_distinct(records),
    ensures
        accounts_distinct(after_reputation(records, account, reputation)),
        after_reputation(records, account, reputation).len() == records.len(),
        forall|i: int|
            0 <= i < records.len() ==> (#[trigger] after_reputation(
                records,
                account,
                reputation,
            )[i]).account_id == records[i].account_id,
{
    let next = after_reputation(records, account, reputation);
    if is_registered(records, account) {
        let p = position_of(records, account);
        assert(holds_account(records, p, account));
        assert forall|i: int, j: int| 0 <= i < j < next.len() implies
            (#[trigger] next[i]).account_id != (#[trigger] next[j]).account_id by {
            assert(records[i].account_id != records[j].account_id);
        }
    }
}

/// The registered provers.
pub struct ProverRegistry {
    records: Vec<Prover>,
}

impl View for ProverRegistry {
    type V = Seq<Prover>;

    /// The records, in the order in which their accounts first registered.
    closed spec fn view(&self) -> Seq<Prover> {
        self.records@
    }
}

impl ProverRegistry {
    /// The registry holds at most one record per account.
    pub open spec fn wf(&self) -> bool {
        accounts_distinct(self@)
    }

    /// A registry without records.
    pub fn new() -> (registry: Self)
        ensures
            registry.wf(),
            registry@ == Seq::<Prover>::empty(),
    {
        ProverRegistry { records: Vec::new() }
    }

    /// A registry of the given records, in their order, if no account occurs
    /// twice among them.
    pub fn from_records(records: Vec<Prover>) -> (registry: Option<Self>)
        ensures
            registry is Some <==> accounts_distinct(records@),
            registry matches Some(r) ==> r.wf() && r@ == records@,
    {
        let n = records.len();
        let mut j: usize = 0;
        while j < n
            invariant
                n == records@.len(),
                j <= n,
                forall|a: int, b: int|
                    0 <= a < b < j ==> (#[trigger] records@[a]).account_id
                        != (#[trigger] records@[b]).account_id,
            decreases n - j,
        {
            let mut i: usize = 0;
            while i < j
                invariant
                    n == records@.len(),
                    j < n,
                    i <= j,
                    forall|a: int|
                        0 <= a < i ==> (#[trigger] records@[a]).account_id
                            != records@[j as int].account_id,
                decreases j - i,
            {
                if records[i].account_id == records[j].account_id {
                    return None;
                }
                i = i + 1;
            }
            j = j + 1;
        }
        Some(ProverRegistry { records })
    }

    /// The position of the record of `account`, if it has one.
    fn find(&self, account: &AccountId) -> (found: Option<usize>)
        ensures
            found is Some <==> is_registered(self@, *account),
            found matches Some(i) ==> holds_account(self@, i as int, *account),
    {
        let n = self.records.len();
        let mut i: usize = 0;
        while i < n
            invariant
                n == self.records@.len(),
                i <= n,
                forall|k: int| 0 <= k < i ==> !holds_account(self.records@, k, *account),
            decreases n - i,
        {
            if self.records[i].account_id == *account {
                assert(holds_account(self.records@, i as int, *account));
                return Some(i);
            }
            i = i + 1;
        }
        None
    }

    /// Writes a fresh record for `account_id`, with the given rating and
    /// reputation 0. An account that registers again has its record replaced
    /// where it stands, so it keeps its place in the order of registration
    /// and loses its reputation.
    pub fn register(&mut self, account_id: AccountId, performance_rating: u64)
        requires
            old(self).wf(),
        ensures
            final(self).wf(),
            final(self)@ == after_register(old(self)@, account_id, performance_rating),
    {
        let fresh = Prover { account_id, reputation: 0, performance_rating };
        proof {
            lemma_after_register(self@, account_id, performance_rating);
        }
        match self.find(&account_id) {
            Some(i) => {
                proof {
                    lemma_position_unique(self@, i as int, account_id);
                }
                self.records[i] = fresh;
            },
            None => {
                self.records.push(fresh);
            },
        }
    }

    /// The record of `account_id`; `NotFound` for an account without one.
    pub fn get(&self, account_id: AccountId) -> (found: Result<Prover, MarketError>)
        requires
            self.wf(),
        ensures
            found is Ok <==> is_registered(self@, account_id),
            found matches Ok(prover) ==> prover == record_of(self@, account_id),
            found matches Err(e) ==> e == MarketError::NotFound,
    {
        match self.find(&account_id) {
            Some(i) => {
                proof {
                    lemma_position_unique(self@, i as int, account_id);
                }
                Ok(self.records[i])
            },
            None => Err(MarketError::NotFound),
        }
    }

    /// Sets the reputation of `account_id` to `new_reputation`, whatever it
    /// was; `NotFound`, and no change, for an account without a record.
    pub fn update_reputation(&mut self, account_id: AccountId, new_reputation: u64) -> (done:
        Result<(), MarketError>)
        requires
            old(self).wf(),
        ensures
            final(self).wf(),
            final(self)@ == after_reputation(old(self)@, account_id, new_reputation),
            done is Ok <==> is_registered(old(self)@, account_id),
            done matches Err(e) ==> e == MarketError::NotFound,
    {
        proof {
            lemma_after_reputation(self@, account_id, new_reputation);
        }
        match self.find(&account_id) {
            Some(i) => {
                proof {
                    lemma_position_unique(self@, i as int, account_id);
                }
                let current = self.records[i];
                self.records[i] = Prover {
                    account_id: current.account_id,
                    reputation: new_reputation,
                    performance_rating: current.performance_rating,
                };
                Ok(())
            },
            None => Err(MarketError::NotFound),
        }
    }

    /// A snapshot of every record, in the order of registration.
    pub fn all(&self) -> (snapshot: Vec<Prover>)
        ensures
            snapshot@ == self@,
    {
        let n = self.records.len();
        let mut snapshot: Vec<Prover> = Vec::new();
        let mut i: usize = 0;
        while i < n
            invariant
                n == self.records@.len(),
                i <= n,
                snapshot@ == self.records@.subrange(0, i as int),
            decreases n - i,
        {
            snapshot.push(self.records[i]);
            assert(self.records@.subrange(0, i + 1) == self.records@.subrange(0, i as int).push(
                self.records@[i as int],
            ));
            i = i + 1;
        }
        assert(self.records@.subrange(0, n as int) == self.records@);
        snapshot
    }
}

} // verus!
