//! The processing engine: applies each transaction record, in order, to the
//! account store and the ledger store.
use vstd::prelude::*;

use crate::account::{Account, AccountError, Direction};
use crate::client::ClientId;
use crate::repository::{AccountRepository, LedgerError, TransactionRepository};
use crate::transaction::{
    Chargeback, Deposit, Dispute, Resolve, Transaction, TransactionId, TransactionStatus,
    TransactionType, TxRecord, Withdrawal,
};

verus! {

/// Why a record was not applied (in full). Each error concerns its own record
/// only; processing goes on with the next one.
#[derive(Clone, Copy, Debug, PartialEq, Eq, Structural)]
pub enum EngineError {
    /// The transaction id already belongs to a processed deposit or withdrawal.
    Replay,
    /// The referenced ledger entry is missing or not in the status the event needs.
    Precondition,
    /// The client has no account.
    AccountNotFound,
    /// The account refused the operation.
    Account(AccountError),
    /// The ledger store refused the write.
    Ledger(LedgerError),
}

/// The state the engine works on: the accounts by client id and the ledger
/// entries by transaction id.
pub type State = (Map<u16, Account>, Map<u32, Transaction>);

/// Every stored account satisfies the balance invariant.
pub open spec fn all_balanced(accounts: Map<u16, Account>) -> bool {
    forall|k: u16| #[trigger] accounts.contains_key(k) ==> accounts[k].balanced()
}

/// The account operation that `record` would apply in state `s` needs no
/// rounding or clamping of decimals.
pub open spec fn step_exact(s: State, record: TxRecord) -> bool {
    match record {
        TxRecord::Deposit(d) => account_or_new(s.0, d.client_id).deposit_exact(d.amount@),
        TxRecord::Withdrawal(w) => s.0.contains_key(w.client_id.0) ==> s.0[w.client_id.0].withdrawal_exact(
            w.amount@,
        ),
        TxRecord::Dispute(d) => s.0.contains_key(d.client_id.0) && s.1.contains_key(d.tx_id.0)
            ==> s.0[d.client_id.0].dispute_exact(direction_of(s.1[d.tx_id.0])),
        TxRecord::Resolve(r) => s.0.contains_key(r.client_id.0) && s.1.contains_key(r.tx_id.0)
            ==> s.0[r.client_id.0].resolve_exact(direction_of(s.1[r.tx_id.0])),
        TxRecord::Chargeback(c) => s.0.contains_key(c.client_id.0) && s.1.contains_key(c.tx_id.0)
            ==> s.0[c.client_id.0].chargeback_exact(direction_of(s.1[c.tx_id.0])),
    }
}

/// No record of `records`, applied in order from `s`, needs rounding or clamping.
pub open spec fn run_exact(s: State, records: Seq<TxRecord>) -> bool {
    forall|i: int|
        0 <= i < records.len() ==> #[trigger] step_exact(run(s, records.take(i)), records[i])
}

/// Every stored account is valid and stored under its own client id.
pub open spec fn accounts_ok(accounts: Map<u16, Account>) -> bool {
    forall|k: u16| #[trigger]
        accounts.contains_key(k) ==> accounts[k].wf() && accounts[k].client_id.0 == k
}

/// The account a deposit works on: the stored one, or a fresh one.
pub open spec fn account_or_new(accounts: Map<u16, Account>, client_id: ClientId) -> Account {
    if accounts.contains_key(client_id.0) {
        accounts[client_id.0]
    } else {
        Account::new_spec(client_id)
    }
}

/// The replay guard: a transaction id whose entry was processed cannot be used
/// again.
pub open spec fn is_replay(entries: Map<u32, Transaction>, tx_id: TransactionId) -> bool {
    entries.contains_key(tx_id.0) && entries[tx_id.0].status == TransactionStatus::Processed
}

/// The direction in which a dispute on `entry` moves funds.
pub open spec fn direction_of(entry: Transaction) -> Direction {
    if entry.tx_type == TransactionType::Withdrawal {
        Direction::Increase(entry.amount@)
    } else {
        Direction::Decrease(entry.amount@)
    }
}

/// Commits a deposit or withdrawal whose effect on the account is `op`: on success
/// the account is stored and the entry is `processed`, otherwise the entry is
/// `failed`. The entry is written only if its transaction id is free.
pub open spec fn commit_attempt(
    s: State,
    client_id: ClientId,
    tx_id: TransactionId,
    op: Result<Account, EngineError>,
    processed: Transaction,
    failed: Transaction,
) -> (State, Result<(), EngineError>) {
    let (accounts, entry, outcome) = match op {
        Ok(a) => (s.0.insert(client_id.0, a), processed, Ok(())),
        Err(e) => (s.0, failed, Err(e)),
    };
    if s.1.contains_key(tx_id.0) {
        ((accounts, s.1), Err(EngineError::Ledger(LedgerError::DuplicateId)))
    } else {
        ((accounts, s.1.insert(tx_id.0, entry)), outcome)
    }
}

/// An account's refusal, as the engine reports it.
pub open spec fn lift(r: Result<Account, AccountError>) -> Result<Account, EngineError> {
    match r {
        Ok(a) => Ok(a),
        Err(e) => Err(EngineError::Account(e)),
    }
}

/// A deposit: unless replayed, credited to the client's account (created if
/// missing) and recorded in the ledger.
pub open spec fn deposit_step(s: State, d: Deposit) -> (State, Result<(), EngineError>) {
    if is_replay(s.1, d.tx_id) {
        (s, Err(EngineError::Replay))
    } else {
        commit_attempt(
            s,
            d.client_id,
            d.tx_id,
            lift(account_or_new(s.0, d.client_id).deposit_spec(d.amount@)),
            Transaction::from_deposit_spec(d, TransactionStatus::Processed),
            Transaction::from_deposit_spec(d, TransactionStatus::Failed),
        )
    }
}

/// A withdrawal: unless replayed, debited from the client's existing account and
/// recorded in the ledger.
pub open spec fn withdrawal_step(s: State, w: Withdrawal) -> (State, Result<(), EngineError>) {
    if is_replay(s.1, w.tx_id) {
        (s, Err(EngineError::Replay))
    } else {
        commit_attempt(
            s,
            w.client_id,
            w.tx_id,
            if s.0.contains_key(w.client_id.0) {
                lift(s.0[w.client_id.0].withdrawal_spec(w.amount@))
            } else {
                Err(EngineError::AccountNotFound)
            },
            Transaction::from_withdrawal_spec(w, TransactionStatus::Processed),
            Transaction::from_withdrawal_spec(w, TransactionStatus::Failed),
        )
    }
}

/// A dispute, resolve or chargeback: the entry of `tx_id` must be in status
/// `required`; the account of `client_id` must exist and accept `op`; then the
/// account is stored and the entry moves to `target`. Otherwise nothing changes.
pub open spec fn lifecycle_step(
    s: State,
    client_id: ClientId,
    tx_id: TransactionId,
    required: TransactionStatus,
    target: TransactionStatus,
    op: spec_fn(Account, Direction) -> Result<Account, AccountError>,
) -> (State, Result<(), EngineError>) {
    if !(s.1.contains_key(tx_id.0) && s.1[tx_id.0].status == required) {
        (s, Err(EngineError::Precondition))
    } else if !s.0.contains_key(client_id.0) {
        (s, Err(EngineError::AccountNotFound))
    } else {
        let entry = s.1[tx_id.0];
        match op(s.0[client_id.0], direction_of(entry)) {
            Err(e) => (s, Err(EngineError::Account(e))),
            Ok(a) => (
                (s.0.insert(client_id.0, a), s.1.insert(tx_id.0, Transaction { status: target, ..entry })),
                Ok(()),
            ),
        }
    }
}

/// What one record does to the state, and the outcome reported for it.
pub open spec fn step(s: State, record: TxRecord) -> (State, Result<(), EngineError>) {
    match record {
        TxRecord::Deposit(d) => deposit_step(s, d),
        TxRecord::Withdrawal(w) => withdrawal_step(s, w),
        TxRecord::Dispute(d) => lifecycle_step(
            s,
            d.client_id,
            d.tx_id,
            TransactionStatus::Processed,
            TransactionStatus::Disputed,
            |a: Account, dir: Direction| a.dispute_spec(dir),
        ),
        TxRecord::Resolve(r) => lifecycle_step(
            s,
            r.client_id,
            r.tx_id,
            TransactionStatus::Disputed,
            TransactionStatus::Resolved,
            |a: Account, dir: Direction| a.resolve_spec(dir),
        ),
        TxRecord::Chargeback(c) => lifecycle_step(
            s,
            c.client_id,
            c.tx_id,
            TransactionStatus::Disputed,
            TransactionStatus::Chargedback,
            |a: Account, dir: Direction| a.chargeback_spec(dir),
        ),
    }
}

/// The state after applying `records`, in order, to `s`.
pub open spec fn run(s: State, records: Seq<TxRecord>) -> State
    decreases records.len(),
{
    if records.len() == 0 {
        s
    } else {
        step(run(s, records.drop_last()), records.last()).0
    }
}

/// Replaying a deposit: once a deposit has been applied, applying the same
/// record again is rejected as a replay and changes neither the balances nor the
/// ledger, whose entry stays `Processed`.
pub proof fn lemma_deposit_replay_rejected(s: State, d: Deposit)
    requires
        step(s, TxRecord::Deposit(d)).1 is Ok,
    ensures
        ({
            let once = step(s, TxRecord::Deposit(d)).0;
            &&& step(once, TxRecord::Deposit(d)) == (once, Err::<(), EngineError>(EngineError::Replay))
            &&& once.1[d.tx_id.0].status == TransactionStatus::Processed
        }),
{
}

/// A locked account stays locked, whatever record comes next.
pub proof fn lemma_step_keeps_lock(s: State, record: TxRecord, client: u16)
    requires
        s.0.contains_key(client),
        s.0[client].is_locked,
    ensures
        step(s, record).0.0.contains_key(client),
        step(s, record).0.0[client].is_locked,
{
}

/// A locked account stays locked for the rest of the run.
pub proof fn lemma_run_keeps_lock(s: State, records: Seq<TxRecord>, client: u16)
    requires
        s.0.contains_key(client),
        s.0[client].is_locked,
    ensures
        run(s, records).0.contains_key(client),
        run(s, records).0[client].is_locked,
    decreases records.len(),
{
    if records.len() > 0 {
        lemma_run_keeps_lock(s, records.drop_last(), client);
        lemma_step_keeps_lock(run(s, records.drop_last()), records.last(), client);
    }
}

/// A chargeback that is applied leaves the client's account locked.
pub proof fn lemma_chargeback_locks(s: State, c: Chargeback)
    requires
        step(s, TxRecord::Chargeback(c)).1 is Ok,
    ensures
        step(s, TxRecord::Chargeback(c)).0.0.contains_key(c.client_id.0),
        step(s, TxRecord::Chargeback(c)).0.0[c.client_id.0].is_locked,
{
}

/// A dispute that references a transaction id not yet in the ledger is rejected
/// and changes nothing.
pub proof fn lemma_dispute_before_transaction_rejected(s: State, d: Dispute)
    requires
        !s.1.contains_key(d.tx_id.0),
    ensures
        step(s, TxRecord::Dispute(d)) == (s, Err::<(), EngineError>(EngineError::Precondition)),
{
}

/// Applies transaction records to an account store and a ledger store.
pub struct PaymentEngine<AR, TR> {
    accounts: AR,
    transactions: TR,
}

impl<AR: AccountRepository, TR: TransactionRepository> PaymentEngine<AR, TR> {
    /// The accounts and ledger entries held by the two stores.
    pub closed spec fn state(&self) -> State {
        (self.accounts.accounts(), self.transactions.entries())
    }

    /// The account store is consistent and every account in it is valid and
    /// stored under its own client id.
    pub closed spec fn inv(&self) -> bool {
        self.accounts.inv() && accounts_ok(self.accounts.accounts())
    }

    /// An engine over the two stores.
    pub fn new(accounts: AR, transactions: TR) -> (r: Self)
        requires
            accounts.inv(),
            accounts_ok(accounts.accounts()),
        ensures
            r.inv(),
            r.state() == (accounts.accounts(), transactions.entries()),
    {
        PaymentEngine { accounts, transactions }
    }

    /// The account store.
    pub fn accounts(&self) -> (r: &AR)
        requires
            self.inv(),
        ensures
            r.inv(),
            r.accounts() == self.state().0,
    {
        &self.accounts
    }

    /// The ledger store.
    pub fn transactions(&self) -> (r: &TR)
        ensures
            r.entries() == self.state().1,
    {
        &self.transactions
    }

    /// Applies one record: checks its preconditions against the ledger, updates the
    /// account and the ledger entry, and reports the outcome.
    pub fn process_record(&mut self, record: TxRecord) -> (r: Result<(), EngineError>)
        requires
            old(self).inv(),
        ensures
            final(self).inv(),
            (final(self).state(), r) == step(old(self).state(), record),
            all_balanced(old(self).state().0) && step_exact(old(self).state(), record)
                ==> all_balanced(final(self).state().0),
    {
        match record {
            TxRecord::Deposit(deposit) => {
                let existing = self.transactions.get(deposit.tx_id);
                match prevent_replay_attack(existing) {
                    Ok(()) => self.handle_deposit(deposit),
                    Err(err) => Err(err),
                }
            },
            TxRecord::Withdrawal(withdrawal) => {
                let existing = self.transactions.get(withdrawal.tx_id);
                match prevent_replay_attack(existing) {
                    Ok(()) => self.handle_withdrawal(withdrawal),
                    Err(err) => Err(err),
                }
            },
            TxRecord::Dispute(dispute) => {
                let referenced = self.transactions.get(dispute.tx_id);
                match tx_exists_and_has_been_processed(referenced) {
                    Ok(tx) => self.handle_dispute(dispute, direction_for(tx)),
                    Err(err) => Err(err),
                }
            },
            TxRecord::Resolve(resolve) => {
                let referenced = self.transactions.get(resolve.tx_id);
                match tx_exists_and_has_been_disputed(referenced) {
                    Ok(tx) => self.handle_resolve(resolve, direction_for(tx)),
                    Err(err) => Err(err),
                }
            },
            TxRecord::Chargeback(chargeback) => {
                let referenced = self.transactions.get(chargeback.tx_id);
                match tx_exists_and_has_been_disputed(referenced) {
                    Ok(tx) => self.handle_chargeback(chargeback, direction_for(tx)),
                    Err(err) => Err(err),
                }
            },
        }
    }

    /// Applies the records in order, each to completion before the next, and
    /// reports the outcome of each. A failed record does not stop the run.
    pub fn process(&mut self, records: Vec<TxRecord>) -> (r: Vec<Result<(), EngineError>>)
        requires
            old(self).inv(),
        ensures
            final(self).inv(),
            final(self).state() == run(old(self).state(), records@),
            all_balanced(old(self).state().0) && run_exact(old(self).state(), records@)
                ==> all_balanced(final(self).state().0),
            r@.len() == records@.len(),
            forall|i: int|
                0 <= i < records@.len() ==> #[trigger] r@[i] == step(
                    run(old(self).state(), records@.take(i)),
                    records@[i],
                ).1,
    {
        let ghost start = self.state();
        let mut outcomes: Vec<Result<(), EngineError>> = Vec::new();
        let mut i: usize = 0;
        while i < records.len()
            invariant
                self.inv(),
                i <= records@.len(),
                self.state() == run(start, records@.take(i as int)),
                all_balanced(start.0) && run_exact(start, records@) ==> all_balanced(
                    self.state().0,
                ),
                outcomes@.len() == i,
                forall|j: int|
                    0 <= j < i ==> #[trigger] outcomes@[j] == step(
                        run(start, records@.take(j)),
                        records@[j],
                    ).1,
            decreases records@.len() - i,
        {
            let record = records[i];
            let outcome = self.process_record(record);
            proof {
                assert(records@.take(i + 1).drop_last() =~= records@.take(i as int));
                assert(records@.take(i + 1).last() == records@[i as int]);
            }
            outcomes.push(outcome);
            i = i + 1;
        }
        proof {
            assert(records@.take(i as int) =~= records@);
        }
        outcomes
    }

    fn handle_deposit(&mut self, deposit: Deposit) -> (r: Result<(), EngineError>)
        requires
            old(self).inv(),
            !is_replay(old(self).state().1, deposit.tx_id),
        ensures
            final(self).inv(),
            (final(self).state(), r) == step(old(self).state(), TxRecord::Deposit(deposit)),
            all_balanced(old(self).state().0) && step_exact(old(self).state(), TxRecord::Deposit(deposit))
                ==> all_balanced(final(self).state().0),
    {
        let mut account = self.accounts.get_or_new(deposit.client_id);
        let outcome = account.deposit(deposit.amount.into_inner());
        let status = match outcome {
            Ok(()) => {
                self.accounts.upsert(account);
                TransactionStatus::Processed
            },
            Err(_) => TransactionStatus::Failed,
        };
        let tx = Transaction::from_deposit(deposit, status);
        match self.transactions.insert(tx) {
            Err(err) => Err(EngineError::Ledger(err)),
            Ok(()) => match outcome {
                Ok(()) => Ok(()),
                Err(err) => Err(EngineError::Account(err)),
            },
        }
    }

    fn handle_withdrawal(&mut self, withdrawal: Withdrawal) -> (r: Result<(), EngineError>)
        requires
            old(self).inv(),
            !is_replay(old(self).state().1, withdrawal.tx_id),
        ensures
            final(self).inv(),
            (final(self).state(), r) == step(old(self).state(), TxRecord::Withdrawal(withdrawal)),
            all_balanced(old(self).state().0) && step_exact(old(self).state(), TxRecord::Withdrawal(withdrawal))
                ==> all_balanced(final(self).state().0),
    {
        let outcome = match self.accounts.get(withdrawal.client_id) {
            None => Err(EngineError::AccountNotFound),
            Some(found) => {
                let mut account = found;
                match account.try_withdrawal(withdrawal.amount.into_inner()) {
                    Ok(()) => {
                        self.accounts.upsert(account);
                        Ok(())
                    },
                    Err(err) => Err(EngineError::Account(err)),
                }
            },
        };
        let status = match outcome {
            Ok(()) => TransactionStatus::Processed,
            Err(_) => TransactionStatus::Failed,
        };
        let tx = Transaction::from_withdrawal(withdrawal, status);
        match self.transactions.insert(tx) {
            Err(err) => Err(EngineError::Ledger(err)),
            Ok(()) => outcome,
        }
    }

    fn handle_dispute(&mut self, dispute: Dispute, direction: Direction) -> (r: Result<
        (),
        EngineError,
    >)
        requires
            old(self).inv(),
            old(self).state().1.contains_key(dispute.tx_id.0),
            old(self).state().1[dispute.tx_id.0].status == TransactionStatus::Processed,
            direction == direction_of(old(self).state().1[dispute.tx_id.0]),
            direction.amount().wf(),
        ensures
            final(self).inv(),
            (final(self).state(), r) == step(old(self).state(), TxRecord::Dispute(dispute)),
            all_balanced(old(self).state().0) && step_exact(old(self).state(), TxRecord::Dispute(dispute))
                ==> all_balanced(final(self).state().0),
    {
        match self.accounts.get(dispute.client_id) {
            None => Err(EngineError::AccountNotFound),
            Some(found) => {
                let mut account = found;
                match account.dispute(direction) {
                    Err(err) => Err(EngineError::Account(err)),
                    Ok(()) => {
                        self.accounts.upsert(account);
                        match self.transactions.update_status(
                            dispute.tx_id,
                            TransactionStatus::Disputed,
                        ) {
                            Ok(()) => Ok(()),
                            Err(err) => Err(EngineError::Ledger(err)),
                        }
                    },
                }
            },
        }
    }

    fn handle_resolve(&mut self, resolve: Resolve, direction: Direction) -> (r: Result<
        (),
        EngineError,
    >)
        requires
            old(self).inv(),
            old(self).state().1.contains_key(resolve.tx_id.0),
            old(self).state().1[resolve.tx_id.0].status == TransactionStatus::Disputed,
            direction == direction_of(old(self).state().1[resolve.tx_id.0]),
            direction.amount().wf(),
        ensures
            final(self).inv(),
            (final(self).state(), r) == step(old(self).state(), TxRecord::Resolve(resolve)),
            all_balanced(old(self).state().0) && step_exact(old(self).state(), TxRecord::Resolve(resolve))
                ==> all_balanced(final(self).state().0),
    {
        match self.accounts.get(resolve.client_id) {
            None => Err(EngineError::AccountNotFound),
            Some(found) => {
                let mut account = found;
                match account.resolve(direction) {
                    Err(err) => Err(EngineError::Account(err)),
                    Ok(()) => {
                        self.accounts.upsert(account);
                        match self.transactions.update_status(
                            resolve.tx_id,
                            TransactionStatus::Resolved,
                        ) {
                            Ok(()) => Ok(()),
                            Err(err) => Err(EngineError::Ledger(err)),
                        }
                    },
                }
            },
        }
    }

    fn handle_chargeback(&mut self, chargeback: Chargeback, direction: Direction) -> (r: Result<
        (),
        EngineError,
    >)
        requires
            old(self).inv(),
            old(self).state().1.contains_key(chargeback.tx_id.0),
            old(self).state().1[chargeback.tx_id.0].status == TransactionStatus::Disputed,
            direction == direction_of(old(self).state().1[chargeback.tx_id.0]),
            direction.amount().wf(),
        ensures
            final(self).inv(),
            (final(self).state(), r) == step(old(self).state(), TxRecord::Chargeback(chargeback)),
            all_balanced(old(self).state().0) && step_exact(old(self).state(), TxRecord::Chargeback(chargeback))
                ==> all_balanced(final(self).state().0),
    {
        match self.accounts.get(chargeback.client_id) {
            None => Err(EngineError::AccountNotFound),
            Some(found) => {
                let mut account = found;
                match account.chargeback(direction) {
                    Err(err) => Err(EngineError::Account(err)),
                    Ok(()) => {
                        self.accounts.upsert(account);
                        match self.transactions.update_status(
                            chargeback.tx_id,
                            TransactionStatus::Chargedback,
                        ) {
                            Ok(()) => Ok(()),
                            Err(err) => Err(EngineError::Ledger(err)),
                        }
                    },
                }
            },
        }
    }
}

/// The replay guard on a deposit or withdrawal, given the entry already stored
/// under its transaction id.
fn prevent_replay_attack(maybe_tx: Option<Transaction>) -> (r: Result<(), EngineError>)
    ensures
        r == (match maybe_tx {
            Some(tx) => if tx.status == TransactionStatus::Processed {
                Err(EngineError::Replay)
            } else {
                Ok(())
            },
            None => Ok(()),
        }),
{
    match maybe_tx {
        Some(tx) => if tx.status == TransactionStatus::Processed {
            Err(EngineError::Replay)
        } else {
            Ok(())
        },
        None => Ok(()),
    }
}

fn tx_exists_and_has_been_processed(maybe_tx: Option<Transaction>) -> (r: Result<
    Transaction,
    EngineError,
>)
    ensures
        r == expect_status(maybe_tx, TransactionStatus::Processed),
{
    ensure_tx_and_status(maybe_tx, TransactionStatus::Processed)
}

fn tx_exists_and_has_been_disputed(maybe_tx: Option<Transaction>) -> (r: Result<
    Transaction,
    EngineError,
>)
    ensures
        r == expect_status(maybe_tx, TransactionStatus::Disputed),
{
    ensure_tx_and_status(maybe_tx, TransactionStatus::Disputed)
}

/// The referenced entry, if it exists and has the expected status.
pub open spec fn expect_status(maybe_tx: Option<Transaction>, expected: TransactionStatus) -> Result<
    Transaction,
    EngineError,
> {
    match maybe_tx {
        Some(tx) => if tx.status == expected {
            Ok(tx)
        } else {
            Err(EngineError::Precondition)
        },
        None => Err(EngineError::Precondition),
    }
}

fn ensure_tx_and_status(maybe_tx: Option<Transaction>, expected_status: TransactionStatus) -> (r:
    Result<Transaction, EngineError>)
    ensures
        r == expect_status(maybe_tx, expected_status),
{
    match maybe_tx {
        Some(tx) => if tx.status == expected_status {
            Ok(tx)
        } else {
            Err(EngineError::Precondition)
        },
        None => Err(EngineError::Precondition),
    }
}

/// The direction in which a dispute on `tx` moves funds.
fn direction_for(tx: Transaction) -> (r: Direction)
    ensures
        r == direction_of(tx),
        r.amount().wf(),
{
    let amount = tx.amount.into_inner();
    if tx.tx_type == TransactionType::Withdrawal {
        Direction::Increase(amount)
    } else {
        Direction::Decrease(amount)
    }
}

} // verus!
