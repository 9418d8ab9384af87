use rust_decimal::Decimal;
use toy_payment_engine::account::{Account, AccountError, Direction};
use toy_payment_engine::amount::Amount;
use toy_payment_engine::client::ClientId;

fn amount(d: Decimal) -> Amount {
    Amount::new(d.mantissa(), d.scale())
}

fn units(n: i64) -> Amount {
    amount(Decimal::from(n))
}

#[test]
fn can_deposit() {
    let mut acc = Account::new(ClientId::new(42));
    let amount = units(12);

    let res = acc.deposit(amount);
    assert_eq!(res, Ok(()));

    assert_eq!(acc.available, amount);
    assert_eq!(acc.total, amount);
    assert_eq!(acc.held, units(0));
    assert!(!acc.is_locked);
}

#[test]
fn can_deposit_multiple_times() {
    let mut acc = Account::new(ClientId::new(42));
    let given = Decimal::new(2312345, 5);

    for i in 1..=10 {
        let res = acc.deposit(amount(given));
        assert_eq!(res, Ok(()), "Failed to deposit in iteration: {i}");
    }

    let expected_amount = amount(given.saturating_mul(Decimal::from(10)));

    assert_eq!(acc.available, expected_amount);
    assert_eq!(acc.total, expected_amount);
    assert_eq!(acc.held, units(0));
    assert!(!acc.is_locked);
}

#[test]
fn can_deposit_zero_amount() {
    let mut acc = Account::new(ClientId::new(42));
    let amount = amount(Decimal::new(31415, 4));

    let _res = acc.deposit(amount);
    let res = acc.deposit(Amount::zero());

    assert_eq!(res, Ok(()), "Expected zero deposit to succeed");
}

#[test]
fn cant_deposit_negative_amount() {
    let mut acc = Account::new(ClientId::new(42));
    let amount = amount(Decimal::new(-2312345, 5));

    let res = acc.deposit(amount);

    assert_eq!(
        res,
        Err(AccountError::NegativeAmount),
        "Expected deposit to fail, if adding a negative account"
    );
}

#[test]
fn can_withdrawal() {
    let mut acc = Account::new(ClientId::new(42));

    let res = acc.deposit(units(12));
    assert_eq!(res, Ok(()));

    let res = acc.try_withdrawal(units(4));
    assert_eq!(res, Ok(()));

    assert_eq!(acc.available, units(8));
    assert_eq!(acc.total, units(8));
    assert_eq!(acc.held, units(0));
    assert!(!acc.is_locked);
}

#[test]
fn can_withdrawal_multiple_times() {
    let mut acc = Account::new(ClientId::new(42));
    let given = Decimal::new(2312345, 5);

    let res = acc.deposit(amount(given));
    assert_eq!(res, Ok(()));

    for i in 1..=10 {
        let res = acc.try_withdrawal(units(1));
        assert_eq!(res, Ok(()), "Failed to withdraw in iteration: {i}");
    }

    let expected_amount = amount(given.saturating_sub(Decimal::from(10)));

    assert_eq!(acc.available, expected_amount);
    assert_eq!(acc.total, expected_amount);
    assert_eq!(acc.held, units(0));
    assert!(!acc.is_locked);
}

#[test]
fn account_cant_deposit_negative_amount() {
    let mut acc = Account::new(ClientId::new(42));
    let amount = amount(Decimal::new(-2312345, 5));

    let res = acc.try_withdrawal(amount);
    assert_eq!(
        res,
        Err(AccountError::NegativeAmount),
        "Expected withdrawal to fail, if a negative amount is provided"
    );
}

#[test]
fn cant_withdraw_more_than_available() {
    let mut acc = Account::new(ClientId::new(42));
    let _res = acc.deposit(units(10));

    let res = acc.try_withdrawal(units(14));

    assert_eq!(res, Err(AccountError::InsufficientFunds));
    assert_eq!(acc.available, units(10));
    assert_eq!(acc.total, units(10));
}

#[test]
fn can_dispute_the_previous_deposit() {
    let mut acc = Account::new(ClientId::new(42));
    let amount = units(10);

    let res = acc.deposit(amount);
    assert_eq!(res, Ok(()));

    let res = acc.dispute(Direction::Decrease(amount));
    assert_eq!(res, Ok(()));

    assert_eq!(acc.available, Amount::zero());
    assert_eq!(acc.total, amount);
    assert_eq!(acc.held, amount);
    assert!(!acc.is_locked);
}

#[test]
fn can_dispute_after_multiple_deposits() {
    let mut acc = Account::new(ClientId::new(42));
    let amount = units(10);

    let res = acc.deposit(amount);
    assert_eq!(res, Ok(()));

    let res = acc.deposit(amount);
    assert_eq!(res, Ok(()));

    let res = acc.dispute(Direction::Decrease(units(15)));
    assert_eq!(res, Ok(()));

    assert_eq!(acc.available, units(5));
    assert_eq!(acc.total, units(20));
    assert_eq!(acc.held, units(15));
    assert!(!acc.is_locked);
}

#[test]
fn can_dispute_zero_amount() {
    let mut acc = Account::new(ClientId::new(42));
    let amount = amount(Decimal::new(31415, 4));

    let _res = acc.deposit(amount);
    let res = acc.dispute(Direction::Decrease(Amount::zero()));

    assert_eq!(res, Ok(()), "Expected dispute of zero amount to succeed");
}

#[test]
fn cant_dispute_negative_amount() {
    let mut acc = Account::new(ClientId::new(42));
    let amount = amount(Decimal::new(2312345, 5));

    let _res = acc.deposit(amount);
    let res = acc.dispute(Direction::Decrease(units(-30)));

    assert_eq!(
        res,
        Err(AccountError::NegativeAmount),
        "Expected dispute of negative amount to fail"
    );
}

#[test]
fn cant_dispute_a_greater_amount_than_available() {
    let mut acc = Account::new(ClientId::new(42));
    let amount = amount(Decimal::new(2312345, 5));

    let _res = acc.deposit(amount);
    let res = acc.dispute(Direction::Decrease(units(30)));

    assert_eq!(
        res,
        Err(AccountError::InsufficientFunds),
        "Expected dispute of too high amount to fail"
    );
}

#[test]
fn can_resolve_deposited() {
    let mut acc = Account::new(ClientId::new(42));
    let amount = units(10);

    let _res = acc.deposit(amount);
    let _res = acc.deposit(amount);
    let res = acc.dispute(Direction::Decrease(units(10)));

    assert_eq!(res, Ok(()));
    assert_eq!(acc.available, units(10));
    assert_eq!(acc.held, units(10));
    assert_eq!(acc.total, units(20));

    let res = acc.resolve(Direction::Decrease(units(10)));

    assert_eq!(res, Ok(()));
    assert_eq!(acc.available, units(20));
    assert_eq!(acc.held, units(0));
    assert_eq!(acc.total, units(20));
}

#[test]
fn can_resolve_withdrawal() {
    let mut acc = Account::new(ClientId::new(42));
    let amount = units(10);

    let _res = acc.deposit(amount);
    let res = acc.try_withdrawal(units(5));
    assert_eq!(res, Ok(()));
    assert_eq!(acc.available, units(5));
    assert_eq!(acc.held, units(0));
    assert_eq!(acc.total, units(5));

    let res = acc.dispute(Direction::Increase(units(5)));
    assert_eq!(res, Ok(()));
    assert_eq!(acc.available, units(5));
    assert_eq!(acc.held, units(5));
    assert_eq!(acc.total, units(10));

    let res = acc.resolve(Direction::Increase(units(5)));
    assert_eq!(res, Ok(()));
    assert_eq!(acc.available, units(10));
    assert_eq!(acc.held, units(0));
    assert_eq!(acc.total, units(10));
}

#[test]
fn cant_resolve_more_than_held() {
    let mut acc = Account::new(ClientId::new(42));
    let _res = acc.deposit(units(10));

    let res = acc.resolve(Direction::Decrease(units(10)));

    assert_eq!(res, Err(AccountError::InsufficientHeldFunds));
    assert_eq!(acc.available, units(10));
    assert_eq!(acc.held, units(0));
}

#[test]
fn can_chargeback_deposited() {
    let mut acc = Account::new(ClientId::new(42));
    let amount = units(10);

    let _res = acc.deposit(amount);
    let _res = acc.deposit(amount);
    let res = acc.dispute(Direction::Decrease(units(10)));

    assert_eq!(res, Ok(()));
    assert_eq!(acc.available, units(10));
    assert_eq!(acc.held, units(10));
    assert_eq!(acc.total, units(20));

    let res = acc.resolve(Direction::Decrease(units(10)));

    assert_eq!(res, Ok(()));
    assert_eq!(acc.available, units(20));
    assert_eq!(acc.held, units(0));
    assert_eq!(acc.total, units(20));

    let res = acc.chargeback(Direction::Decrease(units(10)));

    assert_eq!(res, Ok(()));
    assert_eq!(acc.available, units(10));
    assert_eq!(acc.held, units(0));
    assert_eq!(acc.total, units(10));
}

#[test]
fn can_chargeback_withdrawal() {
    let mut acc = Account::new(ClientId::new(42));
    let amount = units(10);

    let _res = acc.deposit(amount);
    let res = acc.try_withdrawal(units(5));
    assert_eq!(res, Ok(()));
    assert_eq!(acc.available, units(5));
    assert_eq!(acc.held, units(0));
    assert_eq!(acc.total, units(5));

    let res = acc.dispute(Direction::Increase(units(5)));
    assert_eq!(res, Ok(()));
    assert_eq!(acc.available, units(5));
    assert_eq!(acc.held, units(5));
    assert_eq!(acc.total, units(10));

    let res = acc.resolve(Direction::Increase(units(5)));
    assert_eq!(res, Ok(()));
    assert_eq!(acc.available, units(10));
    assert_eq!(acc.held, units(0));
    assert_eq!(acc.total, units(10));

    let res = acc.chargeback(Direction::Increase(units(5)));
    assert_eq!(res, Ok(()));
    assert_eq!(acc.available, units(10));
    assert_eq!(acc.held, units(0));
    assert_eq!(acc.total, units(10));
}

#[test]
fn chargeback_locks_the_account() {
    let mut acc = Account::new(ClientId::new(42));
    let _res = acc.deposit(units(10));
    assert!(!acc.is_locked);

    let res = acc.chargeback(Direction::Increase(units(5)));

    assert_eq!(res, Ok(()));
    assert!(acc.is_locked);
    let _res = acc.deposit(units(1));
    assert!(acc.is_locked);
}

#[test]
fn cant_chargeback_a_deposit_beyond_available() {
    let mut acc = Account::new(ClientId::new(42));
    let _res = acc.deposit(units(10));
    let _res = acc.dispute(Direction::Decrease(units(10)));

    let res = acc.chargeback(Direction::Decrease(units(10)));

    assert_eq!(res, Err(AccountError::InsufficientFunds));
    assert_eq!(acc.available, units(0));
    assert_eq!(acc.held, units(10));
    assert_eq!(acc.total, units(10));
    assert!(!acc.is_locked);
}
