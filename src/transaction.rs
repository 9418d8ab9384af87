//! Transaction records read from the input, and the ledger entries kept for
//! deposits and withdrawals.
use vstd::prelude::*;

use crate::amount::NonNegativeDecimal;
use crate::client::ClientId;

verus! {

/// Identifies a transaction; unique across all ledger entries.
#[derive(Clone, Copy, Debug, Hash, PartialEq, Eq, Structural)]
pub struct TransactionId(pub u32);

impl TransactionId {
    pub fn new(id: u32) -> (r: TransactionId)
        ensures
            r.0 == id,
    {
        TransactionId(id)
    }
}

/// One event of the input stream.
#[derive(Clone, Copy, Debug)]
pub enum TxRecord {
    Deposit(Deposit),
    Withdrawal(Withdrawal),
    Dispute(Dispute),
    Resolve(Resolve),
    Chargeback(Chargeback),
}

/// Credits `amount` to the client's account.
#[derive(Clone, Copy, Debug)]
pub struct Deposit {
    pub client_id: ClientId,
    pub tx_id: TransactionId,
    pub amount: NonNegativeDecimal,
}

/// Debits `amount` from the client's account.
#[derive(Clone, Copy, Debug)]
pub struct Withdrawal {
    pub client_id: ClientId,
    pub tx_id: TransactionId,
    pub amount: NonNegativeDecimal,
}

/// Opens a dispute on an earlier deposit or withdrawal.
#[derive(Clone, Copy, Debug)]
pub struct Dispute {
    pub client_id: ClientId,
    pub tx_id: TransactionId,
}

/// Closes a dispute in the client's favour of keeping the funds.
#[derive(Clone, Copy, Debug)]
pub struct Resolve {
    pub client_id: ClientId,
    pub tx_id: TransactionId,
}

/// Closes a dispute by reversing the transaction; locks the account.
#[derive(Clone, Copy, Debug)]
pub struct Chargeback {
    pub client_id: ClientId,
    pub tx_id: TransactionId,
}

impl From<Deposit> for TxRecord {
    fn from(deposit: Deposit) -> (r: TxRecord) {
        TxRecord::Deposit(deposit)
    }
}

impl vstd::std_specs::convert::FromSpecImpl<Deposit> for TxRecord {
    open spec fn obeys_from_spec() -> bool {
        true
    }

    open spec fn from_spec(deposit: Deposit) -> TxRecord {
        TxRecord::Deposit(deposit)
    }
}

impl From<Withdrawal> for TxRecord {
    fn from(withdrawal: Withdrawal) -> (r: TxRecord) {
        TxRecord::Withdrawal(withdrawal)
    }
}

impl vstd::std_specs::convert::FromSpecImpl<Withdrawal> for TxRecord {
    open spec fn obeys_from_spec() -> bool {
        true
    }

    open spec fn from_spec(withdrawal: Withdrawal) -> TxRecord {
        TxRecord::Withdrawal(withdrawal)
    }
}

impl From<Dispute> for TxRecord {
    fn from(dispute: Dispute) -> (r: TxRecord) {
        TxRecord::Dispute(dispute)
    }
}

impl vstd::std_specs::convert::FromSpecImpl<Dispute> for TxRecord {
    open spec fn obeys_from_spec() -> bool {
        true
    }

    open spec fn from_spec(dispute: Dispute) -> TxRecord {
        TxRecord::Dispute(dispute)
    }
}

impl From<Resolve> for TxRecord {
    fn from(resolve: Resolve) -> (r: TxRecord) {
        TxRecord::Resolve(resolve)
    }
}

impl vstd::std_specs::convert::FromSpecImpl<Resolve> for TxRecord {
    open spec fn obeys_from_spec() -> bool {
        true
    }

    open spec fn from_spec(resolve: Resolve) -> TxRecord {
        TxRecord::Resolve(resolve)
    }
}

impl From<Chargeback> for TxRecord {
    fn from(chargeback: Chargeback) -> (r: TxRecord) {
        TxRecord::Chargeback(chargeback)
    }
}

impl vstd::std_specs::convert::FromSpecImpl<Chargeback> for TxRecord {
    open spec fn obeys_from_spec() -> bool {
        true
    }

    open spec fn from_spec(chargeback: Chargeback) -> TxRecord {
        TxRecord::Chargeback(chargeback)
    }
}

/// Where a ledger entry stands in the dispute lifecycle.
#[derive(Clone, Copy, Debug, PartialEq, Eq, Structural)]
pub enum TransactionStatus {
    Processed,
    Failed,
    Disputed,
    Resolved,
    Chargedback,
}

/// The kind of a ledger entry.
#[derive(Clone, Copy, Debug, PartialEq, Eq, Structural)]
pub enum TransactionType {
    Deposit,
    Withdrawal,
}

/// The ledger entry of one deposit or withdrawal attempt.
#[derive(Clone, Copy, Debug)]
pub struct Transaction {
    pub tx_type: TransactionType,
    pub client_id: ClientId,
    pub id: TransactionId,
    pub amount: NonNegativeDecimal,
    pub status: TransactionStatus,
}

impl Transaction {
    pub open spec fn from_deposit_spec(deposit: Deposit, status: TransactionStatus) -> Transaction {
        Transaction {
            tx_type: TransactionType::Deposit,
            client_id: deposit.client_id,
            id: deposit.tx_id,
            amount: deposit.amount,
            status,
        }
    }

    pub open spec fn from_withdrawal_spec(
        withdrawal: Withdrawal,
        status: TransactionStatus,
    ) -> Transaction {
        Transaction {
            tx_type: TransactionType::Withdrawal,
            client_id: withdrawal.client_id,
            id: withdrawal.tx_id,
            amount: withdrawal.amount,
            status,
        }
    }

    /// The entry for `deposit`, with the given status.
    pub fn from_deposit(deposit: Deposit, status: TransactionStatus) -> (r: Transaction)
        ensures
            r == Transaction::from_deposit_spec(deposit, status),
    {
        Transaction {
            id: deposit.tx_id,
            client_id: deposit.client_id,
            tx_type: TransactionType::Deposit,
            amount: deposit.amount,
            status,
        }
    }

    /// The entry for `withdrawal`, with the given status.
    pub fn from_withdrawal(withdrawal: Withdrawal, status: TransactionStatus) -> (r: Transaction)
        ensures
            r == Transaction::from_withdrawal_spec(withdrawal, status),
    {
        Transaction {
            id: withdrawal.tx_id,
            client_id: withdrawal.client_id,
            tx_type: TransactionType::Withdrawal,
            amount: withdrawal.amount,
            status,
        }
    }
}

} // verus!
