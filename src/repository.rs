//! Keyed stores for accounts and ledger entries, with in-memory implementations.
use std::collections::HashMap;
use vstd::prelude::*;
use vstd::std_specs::hash::group_hash_axioms;

use crate::account::Account;
use crate::client::ClientId;
use crate::transaction::{Transaction, TransactionId, TransactionStatus};

verus! {

broadcast use group_hash_axioms;

/// Why a ledger store refused an operation.
#[derive(Clone, Copy, Debug, PartialEq, Eq, Structural)]
pub enum LedgerError {
    /// An entry with this transaction id is already stored.
    DuplicateId,
    /// No entry with this transaction id is stored.
    NotFound,
}

/// `accounts` listed in some order, each stored account exactly once.
pub open spec fn lists_all(r: Seq<Account>, accounts: Map<u16, Account>) -> bool {
    exists|keys: Seq<u16>|
        #[trigger] keys.to_set() == accounts.dom() && keys.no_duplicates() && r == keys.map_values(
            |k: u16| accounts[k],
        )
}

/// Keyed access to the accounts, by client id. Accounts are never deleted.
pub trait AccountRepository {
    /// The stored accounts, by client id.
    spec fn accounts(&self) -> Map<u16, Account>;

    /// The store's own consistency condition.
    spec fn inv(&self) -> bool;

    /// The account of `client_id`, if there is one.
    fn get(&self, client_id: ClientId) -> (r: Option<Account>)
        requires
            self.inv(),
        ensures
            r == (if self.accounts().contains_key(client_id.0) {
                Some(self.accounts()[client_id.0])
            } else {
                None
            }),
    ;

    /// The account of `client_id`, or a fresh one if there is none (which is not
    /// stored until it is upserted).
    fn get_or_new(&self, client_id: ClientId) -> (r: Account)
        requires
            self.inv(),
        ensures
            r == (if self.accounts().contains_key(client_id.0) {
                self.accounts()[client_id.0]
            } else {
                Account::new_spec(client_id)
            }),
    ;

    /// Stores `account` under its client id, replacing what was there.
    fn upsert(&mut self, account: Account)
        requires
            old(self).inv(),
        ensures
            final(self).inv(),
            final(self).accounts() == old(self).accounts().insert(account.client_id.0, account),
    ;

    /// Every stored account, once each, in no fixed order.
    fn balances(&self) -> (r: Vec<Account>)
        requires
            self.inv(),
        ensures
            lists_all(r@, self.accounts()),
    ;
}

/// Keyed access to the ledger entries, by transaction id. Entries are never
/// deleted.
pub trait TransactionRepository {
    /// The stored entries, by transaction id.
    spec fn entries(&self) -> Map<u32, Transaction>;

    /// The entry of `tx_id`, if there is one.
    fn get(&self, tx_id: TransactionId) -> (r: Option<Transaction>)
        ensures
            r == (if self.entries().contains_key(tx_id.0) {
                Some(self.entries()[tx_id.0])
            } else {
                None
            }),
    ;

    /// Stores `tx`, unless an entry with its id is already stored.
    fn insert(&mut self, tx: Transaction) -> (r: Result<(), LedgerError>)
        ensures
            old(self).entries().contains_key(tx.id.0) ==> r == Err::<(), LedgerError>(
                LedgerError::DuplicateId,
            ) && final(self).entries() == old(self).entries(),
            !old(self).entries().contains_key(tx.id.0) ==> r == Ok::<(), LedgerError>(())
                && final(self).entries() == old(self).entries().insert(tx.id.0, tx),
    ;

    /// Sets the status of the entry of `tx_id`, if there is one.
    fn update_status(&mut self, tx_id: TransactionId, status: TransactionStatus) -> (r: Result<
        (),
        LedgerError,
    >)
        ensures
            old(self).entries().contains_key(tx_id.0) ==> r == Ok::<(), LedgerError>(())
                && final(self).entries() == old(self).entries().insert(
                tx_id.0,
                Transaction { status, ..old(self).entries()[tx_id.0] },
            ),
            !old(self).entries().contains_key(tx_id.0) ==> r == Err::<(), LedgerError>(
                LedgerError::NotFound,
            ) && final(self).entries() == old(self).entries(),
    ;
}

/// Accounts held in memory, listed in the order of their first upsert.
pub struct InMemoryAccountRepository {
    accounts: HashMap<u16, Account>,
    order: Vec<u16>,
}

impl InMemoryAccountRepository {
    /// An empty store.
    pub fn new() -> (r: InMemoryAccountRepository)
        ensures
            r.inv(),
            r.accounts() == Map::<u16, Account>::empty(),
    {
        let r = InMemoryAccountRepository { accounts: HashMap::new(), order: Vec::new() };
        proof {
            assert(r.order@.to_set() =~= r.accounts@.dom());
        }
        r
    }
}

impl AccountRepository for InMemoryAccountRepository {
    closed spec fn accounts(&self) -> Map<u16, Account> {
        self.accounts@
    }

    closed spec fn inv(&self) -> bool {
        &&& self.order@.no_duplicates()
        &&& self.order@.to_set() == self.accounts@.dom()
    }

    fn get(&self, client_id: ClientId) -> (r: Option<Account>) {
        match self.accounts.get(&client_id.0) {
            Some(a) => Some(*a),
            None => None,
        }
    }

    fn get_or_new(&self, client_id: ClientId) -> (r: Account) {
        match self.accounts.get(&client_id.0) {
            Some(a) => *a,
            None => Account::new(client_id),
        }
    }

    fn upsert(&mut self, account: Account) {
        let key = account.client_id.0;
        let ghost before = self.order@;
        if !self.accounts.contains_key(&key) {
            proof {
                assert(!self.order@.contains(key)) by {
                    if self.order@.contains(key) {
                        assert(self.order@.to_set().contains(key));
                    }
                }
            }
            self.order.push(key);
        }
        self.accounts.insert(key, account);
        proof {
            assert forall|k: u16| self.order@.contains(k) <==> before.contains(k) || k == key by {
                if self.order@ != before {
                    assert(self.order@ == before.push(key));
                    if before.contains(k) {
                        let j = choose|j: int| 0 <= j < before.len() && before[j] == k;
                        assert(self.order@[j] == k);
                    }
                    if self.order@.contains(k) && k != key {
                        let j = choose|j: int| 0 <= j < self.order@.len() && self.order@[j] == k;
                        assert(j < before.len());
                        assert(before[j] == k);
                    }
                    assert(self.order@[before.len() as int] == key);
                } else {
                    assert(before.to_set().contains(key));
                }
            }
            assert(self.order@.to_set() =~= self.accounts@.dom());
        }
    }

    fn balances(&self) -> (r: Vec<Account>) {
        let mut r: Vec<Account> = Vec::new();
        let mut i: usize = 0;
        while i < self.order.len()
            invariant
                self.inv(),
                i <= self.order@.len(),
                r@ == self.order@.take(i as int).map_values(|k: u16| self.accounts@[k]),
            decreases self.order@.len() - i,
        {
            let key = self.order[i];
            proof {
                assert(self.order@.to_set().contains(key));
            }
            match self.accounts.get(&key) {
                Some(a) => r.push(*a),
                None => {},
            }
            proof {
                assert(self.order@.take(i + 1) =~= self.order@.take(i as int).push(key));
            }
            i = i + 1;
        }
        proof {
            assert(self.order@.take(i as int) =~= self.order@);
            assert(lists_all(r@, self.accounts@));
        }
        r
    }
}

/// Ledger entries held in memory.
pub struct InMemoryTxRepository {
    txs: HashMap<u32, Transaction>,
}

impl InMemoryTxRepository {
    /// An empty store.
    pub fn new() -> (r: InMemoryTxRepository)
        ensures
            r.entries() == Map::<u32, Transaction>::empty(),
    {
        InMemoryTxRepository { txs: HashMap::new() }
    }
}

impl TransactionRepository for InMemoryTxRepository {
    closed spec fn entries(&self) -> Map<u32, Transaction> {
        self.txs@
    }

    fn get(&self, tx_id: TransactionId) -> (r: Option<Transaction>) {
        match self.txs.get(&tx_id.0) {
            Some(t) => Some(*t),
            None => None,
        }
    }

    fn insert(&mut self, tx: Transaction) -> (r: Result<(), LedgerError>) {
        if self.txs.contains_key(&tx.id.0) {
            return Err(LedgerError::DuplicateId);
        }
        self.txs.insert(tx.id.0, tx);
        Ok(())
    }

    fn update_status(&mut self, tx_id: TransactionId, status: TransactionStatus) -> (r: Result<
        (),
        LedgerError,
    >) {
        match self.txs.get(&tx_id.0) {
            Some(t) => {
                let updated = Transaction { status, ..*t };
                self.txs.insert(tx_id.0, updated);
                Ok(())
            },
            None => Err(LedgerError::NotFound),
        }
    }
}

} // verus!
