use crate::decimal::{checked_difference, checked_sum, difference, sum, Amount};
use crate::transaction::{amount_or_zero, transaction_wf, Transaction, TransactionType};
use vstd::prelude::*;

verus! {

/// The state of one client's funds.
#[derive(Debug, Clone, Copy, PartialEq, Eq, Structural)]
pub struct Account {
    pub client: u16,
    pub available: Amount,
    pub held: Amount,
    pub locked: bool,
}

/// `acc` with new balances and lock flag, client kept.
pub open spec fn with_balances(acc: Account, available: Amount, held: Amount, locked: bool) -> Account {
    Account { client: acc.client, available, held, locked }
}

/// Moves `x` from available to held, or back where `release` holds;
/// `None` where either side would leave the decimal range.
pub open spec fn shift(acc: Account, x: Amount, release: bool) -> Option<Account> {
    let (h, a) = if release {
        (difference(acc.held, x), sum(acc.available, x))
    } else {
        (sum(acc.held, x), difference(acc.available, x))
    };
    match (h, a) {
        (Some(h), Some(a)) => Some(with_balances(acc, a, h, acc.locked)),
        _ => None,
    }
}

/// The account after record `t`. A record whose decimal arithmetic
/// overflows, or a dispute-family record with no reference, changes nothing.
pub open spec fn apply(acc: Account, t: Transaction) -> Account {
    match t.transaction_type {
        TransactionType::Deposit => match sum(acc.available, amount_or_zero(t)) {
            Some(a) => with_balances(acc, a, acc.held, acc.locked),
            None => acc,
        },
        TransactionType::Withdrawal => match difference(acc.available, amount_or_zero(t)) {
            Some(a) => with_balances(acc, a, acc.held, acc.locked),
            None => acc,
        },
        TransactionType::Dispute(Some(r)) => match shift(acc, amount_or_zero(*r), false) {
            Some(n) => n,
            None => acc,
        },
        TransactionType::Resolve(Some(r)) => match shift(acc, amount_or_zero(*r), true) {
            Some(n) => n,
            None => acc,
        },
        TransactionType::Chargeback(Some(r)) => {
            let x = amount_or_zero(*r);
            match (difference(acc.held, x), difference(acc.available, x)) {
                (Some(h), Some(a)) => with_balances(acc, a, h, true),
                _ => acc,
            }
        },
        _ => acc,
    }
}

impl Account {
    /// Balances are in the decimal range.
    pub open spec fn wf(self) -> bool {
        self.available.wf() && self.held.wf()
    }

    /// A fresh account: zero balances, unlocked.
    pub open spec fn spec_new(client: u16) -> Account {
        Account { client, available: Amount::spec_zero(), held: Amount::spec_zero(), locked: false }
    }

    /// A fresh account for `client`: zero balances, unlocked.
    pub fn new(client: u16) -> (r: Account)
        ensures
            r == Account::spec_new(client),
            r.wf(),
    {
        Account { client, available: Amount::zero(), held: Amount::zero(), locked: false }
    }

    /// Available plus held; `None` where the sum leaves the decimal range.
    pub fn total(&self) -> (r: Option<Amount>)
        requires
            self.wf(),
        ensures
            r == sum(self.available, self.held),
            r matches Some(x) ==> x.wf(),
    {
        checked_sum(self.available, self.held)
    }

    /// Applies one record to the account. The lock flag is not consulted; a
    /// record whose decimal arithmetic overflows leaves the account as it was.
    pub fn update_transaction(&mut self, transaction: &Transaction)
        requires
            old(self).wf(),
            transaction_wf(*transaction),
        ensures
            *final(self) == apply(*old(self), *transaction),
            final(self).wf(),
    {
        match &transaction.transaction_type {
            TransactionType::Deposit => {
                if let Some(a) = checked_sum(self.available, transaction.amount()) {
                    self.available = a;
                }
            },
            TransactionType::Withdrawal => {
                if let Some(a) = checked_difference(self.available, transaction.amount()) {
                    self.available = a;
                }
            },
            TransactionType::Dispute(Some(r)) => {
                let x = r.amount();
                match (checked_sum(self.held, x), checked_difference(self.available, x)) {
                    (Some(h), Some(a)) => {
                        self.held = h;
                        self.available = a;
                    },
                    _ => {},
                }
            },
            TransactionType::Resolve(Some(r)) => {
                let x = r.amount();
                match (checked_difference(self.held, x), checked_sum(self.available, x)) {
                    (Some(h), Some(a)) => {
                        self.held = h;
                        self.available = a;
                    },
                    _ => {},
                }
            },
            TransactionType::Chargeback(Some(r)) => {
                let x = r.amount();
                match (checked_difference(self.held, x), checked_difference(self.available, x)) {
                    (Some(h), Some(a)) => {
                        self.held = h;
                        self.available = a;
                        self.locked = true;
                    },
                    _ => {},
                }
            },
            _ => {},
        }
    }
}

} // verus!
