//! A client account holding available, held and total funds, along with its
//! locked/unlocked flag and its identifier.
//!
//! Amounts are exact fixed-point currency values: unsigned integer counts of
//! the smallest accepted denomination. Every operation preserves the account
//! invariant `total == available + held`; an operation whose guard fails
//! leaves the account unchanged.

use vstd::prelude::*;

verus! {

/// A client account stating available, held and total funds, along with its
/// locked/unlocked state flag and its identifier.
#[derive(Clone, Copy, Debug, PartialEq, Eq, Structural)]
pub struct Account {
    pub id: u16,
    pub available: u64,
    pub held: u64,
    pub total: u64,
    pub locked: bool,
}

impl Account {
    /// The account invariant: the total balance is exactly the sum of the
    /// available and held funds.
    pub open spec fn well_formed(self) -> bool {
        self.total == self.available + self.held
    }

    /// The account after a deposit of `amount`: available and total both grow
    /// by `amount`.
    pub open spec fn after_deposit(self, amount: u64) -> Account {
        Account {
            id: self.id,
            available: (self.available + amount) as u64,
            held: self.held,
            total: (self.total + amount) as u64,
            locked: self.locked,
        }
    }

    /// The account after a withdrawal of `amount`: available and total both
    /// shrink by `amount` if the funds are available, and nothing changes
    /// otherwise.
    pub open spec fn after_withdraw(self, amount: u64) -> Account {
        if amount <= self.available {
            Account {
                id: self.id,
                available: (self.available - amount) as u64,
                held: self.held,
                total: (self.total - amount) as u64,
                locked: self.locked,
            }
        } else {
            self
        }
    }

    /// The account after a dispute of `amount`: the amount moves from
    /// available to held if it is available, and nothing changes otherwise.
    pub open spec fn after_dispute(self, amount: u64) -> Account {
        if amount <= self.available {
            Account {
                id: self.id,
                available: (self.available - amount) as u64,
                held: (self.held + amount) as u64,
                total: self.total,
                locked: self.locked,
            }
        } else {
            self
        }
    }

    /// The account after a resolve of `amount`: the amount moves from held
    /// back to available if that much is held, and nothing changes otherwise.
    pub open spec fn after_resolve(self, amount: u64) -> Account {
        if amount <= self.held {
            Account {
                id: self.id,
                available: (self.available + amount) as u64,
                held: (self.held - amount) as u64,
                total: self.total,
                locked: self.locked,
            }
        } else {
            self
        }
    }

    /// The account after a chargeback of `amount`: held and total both shrink
    /// by `amount` and the account becomes locked if that much is held, and
    /// nothing changes otherwise.
    pub open spec fn after_chargeback(self, amount: u64) -> Account {
        if amount <= self.held {
            Account {
                id: self.id,
                available: self.available,
                held: (self.held - amount) as u64,
                total: (self.total - amount) as u64,
                locked: true,
            }
        } else {
            self
        }
    }

    /// A fresh account for client `id`, with zero balances and unlocked.
    #[must_use]
    pub fn new(id: u16) -> (account: Account)
        ensures
            account == (Account { id, available: 0, held: 0, total: 0, locked: false }),
            account.well_formed(),
    {
        Account { id, available: 0, held: 0, total: 0, locked: false }
    }

    /// Deposit funds on the client account by increasing the available and
    /// total amounts.
    pub fn deposit(&mut self, amount: u64)
        requires
            old(self).well_formed(),
            old(self).total + amount <= u64::MAX,
        ensures
            *final(self) == old(self).after_deposit(amount),
            final(self).well_formed(),
    {
        self.available = self.available + amount;
        self.total = self.total + amount;
    }

    /// Withdraw funds on the client account by decreasing the available and
    /// total amounts. The method has no effect if funds are insufficient and
    /// returns true in case of success.
    pub fn withdraw(&mut self, amount: u64) -> (applied: bool)
        requires
            old(self).well_formed(),
        ensures
            applied == (amount <= old(self).available),
            *final(self) == old(self).after_withdraw(amount),
            final(self).well_formed(),
    {
        if amount > self.available {
            return false;
        }

        self.available = self.available - amount;
        self.total = self.total - amount;
        true
    }

    /// Dispute a transaction by withholding funds: the disputed amount moves
    /// from available to held. The method has no effect if the amount exceeds
    /// the available funds.
    pub fn dispute(&mut self, amount: u64)
        requires
            old(self).well_formed(),
        ensures
            *final(self) == old(self).after_dispute(amount),
            final(self).well_formed(),
    {
        if amount > self.available {
            return;
        }

        self.available = self.available - amount;
        self.held = self.held + amount;
    }

    /// Resolve a dispute by releasing funds: the amount moves from held back
    /// to available. The method has no effect if the amount exceeds the held
    /// funds.
    pub fn resolve(&mut self, amount: u64)
        requires
            old(self).well_formed(),
        ensures
            *final(self) == old(self).after_resolve(amount),
            final(self).well_formed(),
    {
        if amount > self.held {
            return;
        }

        self.held = self.held - amount;
        self.available = self.available + amount;
    }

    /// Resolve a dispute by charging funds back: held and total both shrink
    /// by the amount, which leaves the account entirely, and the account is
    /// locked. The method has no effect if the amount exceeds the held funds.
    pub fn chargeback(&mut self, amount: u64)
        requires
            old(self).well_formed(),
        ensures
            *final(self) == old(self).after_chargeback(amount),
            final(self).well_formed(),
    {
        if amount > self.held {
            return;
        }

        self.held = self.held - amount;
        self.total = self.total - amount;
        self.locked = true;
    }
}

/// Law: an operation whose guard fails leaves the account unchanged.
pub proof fn lemma_rejection_is_identity(account: Account, amount: u64)
    ensures
        amount > account.available ==> account.after_withdraw(amount) == account,
        amount > account.available ==> account.after_dispute(amount) == account,
        amount > account.held ==> account.after_resolve(amount) == account,
        amount > account.held ==> account.after_chargeback(amount) == account,
{
}

/// Law: consecutive deposits accumulate exactly; the available and total
/// funds grow by the sum of the deposited amounts and the held funds do not
/// move.
pub proof fn lemma_deposits_accumulate(account: Account, first: u64, second: u64)
    requires
        account.well_formed(),
        account.total + first + second <= u64::MAX,
    ensures
        account.after_deposit(first).after_deposit(second).available == account.available + first
            + second,
        account.after_deposit(first).after_deposit(second).held == account.held,
        account.after_deposit(first).after_deposit(second).total == account.total + first + second,
{
}

/// Law: a dispute followed by a resolve of the same amount is an identity
/// round trip on the account.
pub proof fn lemma_dispute_resolve_round_trip(account: Account, amount: u64)
    requires
        account.well_formed(),
        amount <= account.available,
    ensures
        account.after_dispute(amount).after_resolve(amount) == account,
{
}

/// Law: a dispute followed by a chargeback of the same amount removes the
/// amount from the account entirely and locks it: available and total both
/// end up smaller by the amount, and held funds return to where they stood.
pub proof fn lemma_dispute_chargeback_removes_funds(account: Account, amount: u64)
    requires
        account.well_formed(),
        amount <= account.available,
    ensures
        account.after_dispute(amount).after_chargeback(amount) == (Account {
            id: account.id,
            available: (account.available - amount) as u64,
            held: account.held,
            total: (account.total - amount) as u64,
            locked: true,
        }),
{
}

} // verus!
