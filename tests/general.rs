use toy_payment_engine::account::AccountError;
use toy_payment_engine::amount::{Amount, NonNegativeDecimal};
use toy_payment_engine::client::ClientId;
use toy_payment_engine::engine::{EngineError, PaymentEngine};
use toy_payment_engine::repository::{
    AccountRepository, InMemoryAccountRepository, InMemoryTxRepository, LedgerError,
    TransactionRepository,
};
use toy_payment_engine::transaction::{
    Chargeback, Deposit, Dispute, Resolve, TransactionId, TransactionStatus, TransactionType,
    TxRecord, Withdrawal,
};

type Engine = PaymentEngine<InMemoryAccountRepository, InMemoryTxRepository>;

fn setup() -> Engine {
    PaymentEngine::new(InMemoryAccountRepository::new(), InMemoryTxRepository::new())
}

fn amount(n: i128) -> NonNegativeDecimal {
    NonNegativeDecimal::try_from(Amount::new(n, 0)).unwrap()
}

fn units(n: i128) -> Amount {
    Amount::new(n, 0)
}

fn deposit(client: u16, tx: u32, n: i128) -> TxRecord {
    TxRecord::from(Deposit {
        client_id: ClientId::new(client),
        tx_id: TransactionId::new(tx),
        amount: amount(n),
    })
}

fn withdrawal(client: u16, tx: u32, n: i128) -> TxRecord {
    TxRecord::from(Withdrawal {
        client_id: ClientId::new(client),
        tx_id: TransactionId::new(tx),
        amount: amount(n),
    })
}

fn dispute(client: u16, tx: u32) -> TxRecord {
    TxRecord::from(Dispute { client_id: ClientId::new(client), tx_id: TransactionId::new(tx) })
}

fn resolve(client: u16, tx: u32) -> TxRecord {
    TxRecord::from(Resolve { client_id: ClientId::new(client), tx_id: TransactionId::new(tx) })
}

fn chargeback(client: u16, tx: u32) -> TxRecord {
    TxRecord::from(Chargeback { client_id: ClientId::new(client), tx_id: TransactionId::new(tx) })
}

#[test]
fn must_not_process_the_same_tx_multiple_times() {
    let mut engine = setup();

    // arrange
    let client_id = ClientId::new(1);
    let tx_id = TransactionId::new(1);
    let deposit = Deposit {
        client_id,
        tx_id,
        amount: NonNegativeDecimal::try_from(Amount::new(42, 0)).unwrap(),
    };

    // reapplying the same transaction ten times
    let txs: Vec<TxRecord> = [deposit; 10].into_iter().map(TxRecord::from).collect();

    // act
    let outcomes = engine.process(txs);

    // assert
    let account = engine.accounts().get(client_id);
    let account = account.expect("An account for client_id: {client_id:?} should be present");
    assert_eq!(account.client_id, client_id);
    assert_eq!(account.available, units(42), "unexpected available amount");
    assert_eq!(account.held, units(0), "unexpected held amount");
    assert_eq!(account.total, units(42), "unexpected total amount");
    assert!(!account.is_locked, "unexpected is_locked");

    let tx = engine.transactions().get(tx_id);
    let tx = tx.expect("Expected tx with id: {tx_id:?} to be present");
    assert_eq!(tx.tx_type, TransactionType::Deposit, "Unexpected tx_types");
    assert_eq!(tx.status, TransactionStatus::Processed, "Unexpected tx_status");

    assert_eq!(outcomes[0], Ok(()));
    for outcome in &outcomes[1..] {
        assert_eq!(*outcome, Err(EngineError::Replay));
    }
}

#[test]
fn chargeback_of_a_disputed_withdrawal_locks_the_account() {
    let mut engine = setup();
    let client_id = ClientId::new(1);

    let outcomes = engine.process(vec![deposit(1, 1, 10), withdrawal(1, 2, 5), dispute(1, 2)]);
    assert_eq!(outcomes, vec![Ok(()), Ok(()), Ok(())]);

    let account = engine.accounts().get(client_id).unwrap();
    assert_eq!(account.available, units(5));
    assert_eq!(account.held, units(5));
    assert_eq!(account.total, units(10));
    assert!(!account.is_locked);

    let outcome = engine.process_record(chargeback(1, 2));
    assert_eq!(outcome, Ok(()));

    let account = engine.accounts().get(client_id).unwrap();
    assert_eq!(account.available, units(5));
    assert_eq!(account.held, units(5));
    assert_eq!(account.total, units(10));
    assert!(account.is_locked);
    let tx = engine.transactions().get(TransactionId::new(2)).unwrap();
    assert_eq!(tx.status, TransactionStatus::Chargedback);

    let _outcomes = engine.process(vec![deposit(1, 3, 1), dispute(1, 3), resolve(1, 3)]);
    assert!(engine.accounts().get(client_id).unwrap().is_locked);
}

#[test]
fn chargeback_of_a_disputed_deposit_takes_the_funds_back() {
    let mut engine = setup();
    let client_id = ClientId::new(2);

    let outcomes = engine.process(vec![
        deposit(2, 1, 10),
        deposit(2, 2, 10),
        dispute(2, 2),
        chargeback(2, 2),
    ]);
    assert_eq!(outcomes, vec![Ok(()), Ok(()), Ok(()), Ok(())]);

    let account = engine.accounts().get(client_id).unwrap();
    assert_eq!(account.available, units(0));
    assert_eq!(account.held, units(10));
    assert_eq!(account.total, units(10));
    assert!(account.is_locked);
}

#[test]
fn dispute_before_the_transaction_is_rejected() {
    let mut engine = setup();

    let outcomes = engine.process(vec![dispute(1, 1), deposit(1, 1, 10)]);

    assert_eq!(outcomes, vec![Err(EngineError::Precondition), Ok(())]);
    let account = engine.accounts().get(ClientId::new(1)).unwrap();
    assert_eq!(account.available, units(10));
    assert_eq!(account.held, units(0));
    let tx = engine.transactions().get(TransactionId::new(1)).unwrap();
    assert_eq!(tx.status, TransactionStatus::Processed);
}

#[test]
fn resolve_and_chargeback_need_a_disputed_entry() {
    let mut engine = setup();

    let outcomes = engine.process(vec![
        deposit(1, 1, 10),
        resolve(1, 1),
        chargeback(1, 1),
        dispute(1, 1),
        dispute(1, 1),
        resolve(1, 1),
        resolve(1, 1),
    ]);

    assert_eq!(
        outcomes,
        vec![
            Ok(()),
            Err(EngineError::Precondition),
            Err(EngineError::Precondition),
            Ok(()),
            Err(EngineError::Precondition),
            Ok(()),
            Err(EngineError::Precondition),
        ]
    );
    let account = engine.accounts().get(ClientId::new(1)).unwrap();
    assert_eq!(account.available, units(10));
    assert_eq!(account.held, units(0));
    assert_eq!(account.total, units(10));
    assert!(!account.is_locked);
}

#[test]
fn withdrawal_without_an_account_fails() {
    let mut engine = setup();

    let outcome = engine.process_record(withdrawal(3, 1, 5));

    assert_eq!(outcome, Err(EngineError::AccountNotFound));
    assert!(engine.accounts().get(ClientId::new(3)).is_none());
    let tx = engine.transactions().get(TransactionId::new(1)).unwrap();
    assert_eq!(tx.status, TransactionStatus::Failed);
    assert_eq!(tx.tx_type, TransactionType::Withdrawal);
}

#[test]
fn failed_withdrawal_reports_insufficient_funds() {
    let mut engine = setup();

    let outcomes = engine.process(vec![deposit(1, 1, 10), withdrawal(1, 2, 14)]);

    assert_eq!(
        outcomes,
        vec![Ok(()), Err(EngineError::Account(AccountError::InsufficientFunds))]
    );
}

#[test]
fn retrying_a_failed_id_applies_it_but_keeps_the_failed_entry() {
    let mut engine = setup();

    let outcomes = engine.process(vec![deposit(1, 1, 10), withdrawal(1, 2, 14), withdrawal(1, 2, 4)]);

    assert_eq!(outcomes[2], Err(EngineError::Ledger(LedgerError::DuplicateId)));
    let account = engine.accounts().get(ClientId::new(1)).unwrap();
    assert_eq!(account.available, units(6));
    assert_eq!(account.total, units(6));
    let tx = engine.transactions().get(TransactionId::new(2)).unwrap();
    assert_eq!(tx.status, TransactionStatus::Failed);
}

#[test]
fn dispute_without_an_account_fails() {
    let mut engine = setup();

    let outcomes = engine.process(vec![deposit(1, 1, 10), dispute(9, 1)]);

    assert_eq!(outcomes[1], Err(EngineError::AccountNotFound));
    let tx = engine.transactions().get(TransactionId::new(1)).unwrap();
    assert_eq!(tx.status, TransactionStatus::Processed);
}

#[test]
fn balances_list_every_account_once() {
    let mut engine = setup();

    let _outcomes = engine.process(vec![deposit(1, 1, 10), deposit(2, 2, 20), deposit(1, 3, 5)]);

    let mut balances = engine.accounts().balances();
    balances.sort_by_key(|a| a.client_id.0);
    assert_eq!(balances.len(), 2);
    assert_eq!(balances[0].client_id, ClientId::new(1));
    assert_eq!(balances[0].total, units(15));
    assert_eq!(balances[1].client_id, ClientId::new(2));
    assert_eq!(balances[1].total, units(20));
}

#[test]
fn ledger_store_refuses_unknown_and_duplicate_ids() {
    let mut ledger = InMemoryTxRepository::new();
    let entry = toy_payment_engine::transaction::Transaction::from_deposit(
        Deposit { client_id: ClientId::new(1), tx_id: TransactionId::new(1), amount: amount(1) },
        TransactionStatus::Processed,
    );

    assert_eq!(ledger.update_status(TransactionId::new(1), TransactionStatus::Disputed), Err(LedgerError::NotFound));
    assert_eq!(ledger.insert(entry), Ok(()));
    assert_eq!(ledger.insert(entry), Err(LedgerError::DuplicateId));
    assert_eq!(ledger.update_status(TransactionId::new(1), TransactionStatus::Disputed), Ok(()));
    assert_eq!(ledger.get(TransactionId::new(1)).unwrap().status, TransactionStatus::Disputed);
}

#[test]
fn total_stays_available_plus_held() {
    let mut engine = setup();
    let records = vec![
        deposit(1, 1, 10),
        deposit(1, 2, 7),
        withdrawal(1, 3, 4),
        dispute(1, 2),
        dispute(1, 3),
        resolve(1, 2),
        withdrawal(1, 4, 100),
        chargeback(1, 3),
        deposit(2, 5, 3),
        dispute(2, 5),
        chargeback(2, 5),
    ];

    for record in records {
        let _outcome = engine.process_record(record);
        for account in engine.accounts().balances() {
            assert_eq!(account.total, account.available.saturating_add(account.held));
            assert!(!account.available.is_negative());
            assert!(!account.held.is_negative());
        }
    }

    let account = engine.accounts().get(ClientId::new(1)).unwrap();
    assert_eq!(account.available, units(13));
    assert_eq!(account.held, units(4));
    assert_eq!(account.total, units(17));
    assert!(account.is_locked);
}
