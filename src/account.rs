//! Client accounts and the balance arithmetic of each event.
use vstd::prelude::*;

use crate::amount::{exact, Amount};
use crate::client::ClientId;

verus! {

/// Why an account refused an operation. A refused operation leaves the account
/// as it was.
#[derive(Clone, Copy, Debug, PartialEq, Eq, Structural)]
pub enum AccountError {
    /// The amount is below zero.
    NegativeAmount,
    /// The amount exceeds the available funds.
    InsufficientFunds,
    /// The amount exceeds the held funds.
    InsufficientHeldFunds,
}

/// Which way a dispute moves the funds of the referenced entry: `Increase` for a
/// disputed withdrawal, `Decrease` for a disputed deposit.
#[derive(Clone, Copy, Debug)]
pub enum Direction {
    Increase(Amount),
    Decrease(Amount),
}

impl Direction {
    pub open spec fn amount(self) -> Amount {
        match self {
            Direction::Increase(a) => a,
            Direction::Decrease(a) => a,
        }
    }
}

/// The balances of one client.
#[derive(Clone, Copy, Debug)]
pub struct Account {
    pub client_id: ClientId,
    pub available: Amount,
    pub held: Amount,
    pub total: Amount,
    pub is_locked: bool,
}

/// `after` and `r` are what an operation whose outcome is `expected` leaves and
/// returns, starting from `before`.
pub open spec fn applied(
    before: Account,
    after: Account,
    r: Result<(), AccountError>,
    expected: Result<Account, AccountError>,
) -> bool {
    match expected {
        Ok(a) => r == Ok::<(), AccountError>(()) && after == a,
        Err(e) => r == Err::<(), AccountError>(e) && after == before,
    }
}

impl Account {
    /// All balances are valid decimals.
    pub open spec fn wf(self) -> bool {
        self.available.wf() && self.held.wf() && self.total.wf()
    }

    /// The balance invariant: `total == available + held`, and neither
    /// `available` nor `held` is below zero.
    pub open spec fn balanced(self) -> bool {
        &&& self.total.value() == self.available.value() + self.held.value()
        &&& self.available.value() >= 0
        &&& self.held.value() >= 0
    }

    /// A deposit of `amount` needs no rounding or clamping.
    pub open spec fn deposit_exact(self, amount: Amount) -> bool {
        &&& exact(self.available, amount, self.available.value() + amount.value())
        &&& exact(self.total, amount, self.total.value() + amount.value())
    }

    /// A withdrawal of `amount` needs no rounding or clamping.
    pub open spec fn withdrawal_exact(self, amount: Amount) -> bool {
        &&& exact(self.available, amount, self.available.value() - amount.value())
        &&& exact(self.total, amount, self.total.value() - amount.value())
    }

    /// A dispute in `direction` needs no rounding or clamping.
    pub open spec fn dispute_exact(self, direction: Direction) -> bool {
        let a = direction.amount();
        &&& exact(self.held, a, self.held.value() + a.value())
        &&& match direction {
            Direction::Increase(_) => exact(
                self.available,
                self.held.add_spec(a),
                self.available.value() + self.held.value() + a.value(),
            ),
            Direction::Decrease(_) => exact(
                self.available,
                a,
                self.available.value() - a.value(),
            ),
        }
    }

    /// A resolve in `direction` needs no rounding or clamping.
    pub open spec fn resolve_exact(self, direction: Direction) -> bool {
        let a = direction.amount();
        &&& exact(self.available, a, self.available.value() + a.value())
        &&& exact(self.held, a, self.held.value() - a.value())
    }

    /// A chargeback in `direction` needs no rounding or clamping.
    pub open spec fn chargeback_exact(self, direction: Direction) -> bool {
        let a = direction.amount();
        &&& exact(self.available, a, self.available.value() - a.value())
        &&& exact(self.total, a, self.total.value() - a.value())
    }

    pub open spec fn new_spec(client_id: ClientId) -> Account {
        Account {
            client_id,
            available: Amount { mantissa: 0, scale: 0 },
            held: Amount { mantissa: 0, scale: 0 },
            total: Amount { mantissa: 0, scale: 0 },
            is_locked: false,
        }
    }

    pub open spec fn deposit_spec(self, amount: Amount) -> Result<Account, AccountError> {
        if amount.value() < 0 {
            Err(AccountError::NegativeAmount)
        } else {
            Ok(
                Account {
                    available: self.available.add_spec(amount),
                    total: self.total.add_spec(amount),
                    ..self
                },
            )
        }
    }

    pub open spec fn withdrawal_spec(self, amount: Amount) -> Result<Account, AccountError> {
        if amount.value() < 0 {
            Err(AccountError::NegativeAmount)
        } else if amount.value() > self.available.value() {
            Err(AccountError::InsufficientFunds)
        } else {
            Ok(
                Account {
                    available: self.available.sub_spec(amount),
                    total: self.total.sub_spec(amount),
                    ..self
                },
            )
        }
    }

    /// Disputing a withdrawal adds its amount to `held` and recomputes `total`;
    /// disputing a deposit moves its amount from `available` to `held`.
    pub open spec fn dispute_spec(self, direction: Direction) -> Result<Account, AccountError> {
        let a = direction.amount();
        if a.value() < 0 {
            Err(AccountError::NegativeAmount)
        } else {
            match direction {
                Direction::Increase(_) => {
                    let held = self.held.add_spec(a);
                    Ok(Account { held, total: self.available.add_spec(held), ..self })
                },
                Direction::Decrease(_) => {
                    if a.value() > self.available.value() {
                        Err(AccountError::InsufficientFunds)
                    } else {
                        Ok(
                            Account {
                                available: self.available.sub_spec(a),
                                held: self.held.add_spec(a),
                                ..self
                            },
                        )
                    }
                },
            }
        }
    }

    /// Either way, resolving moves the amount from `held` back to `available`.
    pub open spec fn resolve_spec(self, direction: Direction) -> Result<Account, AccountError> {
        let a = direction.amount();
        if a.value() < 0 {
            Err(AccountError::NegativeAmount)
        } else if a.value() > self.held.value() {
            Err(AccountError::InsufficientHeldFunds)
        } else {
            Ok(
                Account {
                    available: self.available.add_spec(a),
                    held: self.held.sub_spec(a),
                    ..self
                },
            )
        }
    }

    /// A chargeback locks the account; for a deposit it also takes the amount out
    /// of `available` and `total`.
    pub open spec fn chargeback_spec(self, direction: Direction) -> Result<Account, AccountError> {
        let a = direction.amount();
        if a.value() < 0 {
            Err(AccountError::NegativeAmount)
        } else {
            match direction {
                Direction::Increase(_) => Ok(Account { is_locked: true, ..self }),
                Direction::Decrease(_) => {
                    if a.value() > self.available.value() {
                        Err(AccountError::InsufficientFunds)
                    } else {
                        Ok(
                            Account {
                                available: self.available.sub_spec(a),
                                total: self.total.sub_spec(a),
                                is_locked: true,
                                ..self
                            },
                        )
                    }
                },
            }
        }
    }

    /// A fresh account: all balances zero, not locked.
    pub fn new(client_id: ClientId) -> (r: Account)
        ensures
            r == Account::new_spec(client_id),
            r.wf(),
            r.balanced(),
    {
        Account {
            client_id,
            available: Amount::zero(),
            held: Amount::zero(),
            total: Amount::zero(),
            is_locked: false,
        }
    }

    /// Adds `amount` to `available` and `total`.
    pub fn deposit(&mut self, amount: Amount) -> (r: Result<(), AccountError>)
        requires
            old(self).wf(),
            amount.wf(),
        ensures
            final(self).wf(),
            applied(*old(self), *final(self), r, old(self).deposit_spec(amount)),
            r is Ok && exact(old(self).available, amount, old(self).available.value() + amount.value())
                ==> final(self).available.value() == old(self).available.value() + amount.value(),
            r is Ok && exact(old(self).total, amount, old(self).total.value() + amount.value())
                ==> final(self).total.value() == old(self).total.value() + amount.value(),
            old(self).balanced() && old(self).deposit_exact(amount) ==> final(self).balanced(),
    {
        if amount.is_negative() {
            return Err(AccountError::NegativeAmount);
        }
        self.available = self.available.saturating_add(amount);
        self.total = self.total.saturating_add(amount);
        Ok(())
    }

    /// Takes `amount` out of `available` and `total`, if that much is available.
    pub fn try_withdrawal(&mut self, amount: Amount) -> (r: Result<(), AccountError>)
        requires
            old(self).wf(),
            amount.wf(),
        ensures
            final(self).wf(),
            applied(*old(self), *final(self), r, old(self).withdrawal_spec(amount)),
            r is Ok && exact(old(self).available, amount, old(self).available.value() - amount.value())
                ==> final(self).available.value() == old(self).available.value() - amount.value(),
            r is Ok && exact(old(self).total, amount, old(self).total.value() - amount.value())
                ==> final(self).total.value() == old(self).total.value() - amount.value(),
            old(self).balanced() && old(self).withdrawal_exact(amount) ==> final(self).balanced(),
    {
        if amount.is_negative() {
            return Err(AccountError::NegativeAmount);
        }
        if self.available.less_than(&amount) {
            return Err(AccountError::InsufficientFunds);
        }
        self.available = self.available.saturating_sub(amount);
        self.total = self.total.saturating_sub(amount);
        Ok(())
    }

    /// Opens a dispute, moving funds as `direction` says.
    pub fn dispute(&mut self, direction: Direction) -> (r: Result<(), AccountError>)
        requires
            old(self).wf(),
            direction.amount().wf(),
        ensures
            final(self).wf(),
            applied(*old(self), *final(self), r, old(self).dispute_spec(direction)),
            old(self).balanced() && old(self).dispute_exact(direction) ==> final(self).balanced(),
            r is Ok && old(self).dispute_exact(direction) ==> final(self).held.value() == old(
                self,
            ).held.value() + direction.amount().value(),
            r is Ok && old(self).dispute_exact(direction) && direction is Decrease
                ==> final(self).available.value() == old(self).available.value()
                - direction.amount().value(),
    {
        match direction {
            Direction::Increase(amount) => {
                if amount.is_negative() {
                    return Err(AccountError::NegativeAmount);
                }
                self.held = self.held.saturating_add(amount);
                self.total = self.available.saturating_add(self.held);
            },
            Direction::Decrease(amount) => {
                if amount.is_negative() {
                    return Err(AccountError::NegativeAmount);
                }
                if self.available.less_than(&amount) {
                    return Err(AccountError::InsufficientFunds);
                }
                self.available = self.available.saturating_sub(amount);
                self.held = self.held.saturating_add(amount);
            },
        }
        Ok(())
    }

    /// Closes a dispute, moving the amount from `held` back to `available`.
    pub fn resolve(&mut self, direction: Direction) -> (r: Result<(), AccountError>)
        requires
            old(self).wf(),
            direction.amount().wf(),
        ensures
            final(self).wf(),
            applied(*old(self), *final(self), r, old(self).resolve_spec(direction)),
            old(self).balanced() && old(self).resolve_exact(direction) ==> final(self).balanced(),
            r is Ok && old(self).resolve_exact(direction) ==> final(self).available.value() == old(
                self,
            ).available.value() + direction.amount().value() && final(self).held.value() == old(
                self,
            ).held.value() - direction.amount().value(),
    {
        let amount = match direction {
            Direction::Increase(amount) => amount,
            Direction::Decrease(amount) => amount,
        };
        if amount.is_negative() {
            return Err(AccountError::NegativeAmount);
        }
        if self.held.less_than(&amount) {
            return Err(AccountError::InsufficientHeldFunds);
        }
        self.available = self.available.saturating_add(amount);
        self.held = self.held.saturating_sub(amount);
        Ok(())
    }

    /// Reverses a disputed transaction and locks the account.
    pub fn chargeback(&mut self, direction: Direction) -> (r: Result<(), AccountError>)
        requires
            old(self).wf(),
            direction.amount().wf(),
        ensures
            final(self).wf(),
            applied(*old(self), *final(self), r, old(self).chargeback_spec(direction)),
            r is Ok ==> final(self).is_locked,
            old(self).balanced() && old(self).chargeback_exact(direction) ==> final(self).balanced(),
    {
        match direction {
            Direction::Increase(amount) => {
                if amount.is_negative() {
                    return Err(AccountError::NegativeAmount);
                }
            },
            Direction::Decrease(amount) => {
                if amount.is_negative() {
                    return Err(AccountError::NegativeAmount);
                }
                if self.available.less_than(&amount) {
                    return Err(AccountError::InsufficientFunds);
                }
                self.available = self.available.saturating_sub(amount);
                self.total = self.total.saturating_sub(amount);
            },
        }
        self.is_locked = true;
        Ok(())
    }
}

} // verus!
