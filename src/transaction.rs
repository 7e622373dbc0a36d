use crate::decimal::Amount;
use std::collections::HashMap;
use vstd::prelude::*;

verus! {

broadcast use vstd::std_specs::hash::group_hash_axioms;

/// The operation a record performs. The dispute family carries a copy of the
/// money-movement record it acts on, once linked.
#[derive(Debug, PartialEq, Eq)]
pub enum TransactionType {
    Deposit,
    Withdrawal,
    Dispute(Option<Box<Transaction>>),
    Resolve(Option<Box<Transaction>>),
    Chargeback(Option<Box<Transaction>>),
}

/// One record of the log.
#[derive(Debug, PartialEq, Eq)]
pub struct Transaction {
    pub transaction_type: TransactionType,
    pub client: u16,
    pub tx: u32,
    pub amount: Option<Amount>,
}

/// A tag that names none of the five operation kinds.
#[derive(Debug, Clone, Copy, PartialEq, Eq, Structural)]
pub struct InvalidOperationKind;

/// The kind that a tag names, with no reference attached yet.
pub open spec fn kind_of_tag(s: Seq<char>) -> Option<TransactionType> {
    if s == "deposit"@ {
        Some(TransactionType::Deposit)
    } else if s == "withdrawal"@ {
        Some(TransactionType::Withdrawal)
    } else if s == "dispute"@ {
        Some(TransactionType::Dispute(None))
    } else if s == "resolve"@ {
        Some(TransactionType::Resolve(None))
    } else if s == "chargeback"@ {
        Some(TransactionType::Chargeback(None))
    } else {
        None
    }
}

/// The copy of the record that `index` holds under `tx`, if any.
pub open spec fn reference_for(tx: u32, index: Map<u32, Transaction>) -> Option<Box<Transaction>> {
    if index.contains_key(tx) {
        Some(Box::new(index[tx]))
    } else {
        None
    }
}

/// `t` with its dispute-family reference resolved against `index`; other
/// records are returned as they are.
pub open spec fn linked(t: Transaction, index: Map<u32, Transaction>) -> Transaction {
    let kind = match t.transaction_type {
        TransactionType::Dispute(_) => TransactionType::Dispute(reference_for(t.tx, index)),
        TransactionType::Resolve(_) => TransactionType::Resolve(reference_for(t.tx, index)),
        TransactionType::Chargeback(_) => TransactionType::Chargeback(reference_for(t.tx, index)),
        other => other,
    };
    Transaction { transaction_type: kind, ..t }
}

/// The amount of a record, zero where none was supplied.
pub open spec fn amount_or_zero(t: Transaction) -> Amount {
    match t.amount {
        Some(a) => a,
        None => Amount::spec_zero(),
    }
}

/// Whether `t` is a deposit or a withdrawal.
pub open spec fn is_money_movement(t: Transaction) -> bool {
    t.transaction_type is Deposit || t.transaction_type is Withdrawal
}

/// The supplied amount, if any, is in the decimal range.
pub open spec fn amount_wf(t: Transaction) -> bool {
    t.amount matches Some(a) ==> a.wf()
}

/// Amounts of the record and of any record it refers to are in range.
pub open spec fn transaction_wf(t: Transaction) -> bool {
    &&& amount_wf(t)
    &&& match t.transaction_type {
        TransactionType::Dispute(Some(r)) => amount_wf(*r),
        TransactionType::Resolve(Some(r)) => amount_wf(*r),
        TransactionType::Chargeback(Some(r)) => amount_wf(*r),
        _ => true,
    }
}

/// A copy of the record that `transactions` holds under `tx`.
pub fn get_boxed_transaction(tx: u32, transactions: &HashMap<u32, Transaction>) -> (r: Option<
    Box<Transaction>,
>)
    ensures
        r == reference_for(tx, transactions@),
{
    match transactions.get(&tx) {
        Some(t) => Some(Box::new(t.duplicate())),
        None => None,
    }
}

fn is_tag(s: &String, tag: &str) -> (r: bool)
    ensures
        r == (s@ == tag@),
{
    let t = tag.to_owned();
    s.eq(&t)
}

impl TransactionType {
    /// Reads an operation kind from its tag (exact, case-sensitive match).
    pub fn parse(s: &str) -> (r: Result<TransactionType, InvalidOperationKind>)
        ensures
            kind_of_tag(s@) matches Some(k) ==> r == Ok::<TransactionType, InvalidOperationKind>(k),
            kind_of_tag(s@) is None ==> r == Err::<TransactionType, InvalidOperationKind>(InvalidOperationKind),
    {
        let s = s.to_owned();
        if is_tag(&s, "deposit") {
            Ok(TransactionType::Deposit)
        } else if is_tag(&s, "withdrawal") {
            Ok(TransactionType::Withdrawal)
        } else if is_tag(&s, "dispute") {
            Ok(TransactionType::Dispute(None))
        } else if is_tag(&s, "resolve") {
            Ok(TransactionType::Resolve(None))
        } else if is_tag(&s, "chargeback") {
            Ok(TransactionType::Chargeback(None))
        } else {
            Err(InvalidOperationKind)
        }
    }

    /// A copy of this kind, reference included.
    fn duplicate(&self) -> (r: TransactionType)
        ensures
            r == *self,
        decreases self,
    {
        match self {
            TransactionType::Deposit => TransactionType::Deposit,
            TransactionType::Withdrawal => TransactionType::Withdrawal,
            TransactionType::Dispute(t) => TransactionType::Dispute(duplicate_reference(t)),
            TransactionType::Resolve(t) => TransactionType::Resolve(duplicate_reference(t)),
            TransactionType::Chargeback(t) => TransactionType::Chargeback(duplicate_reference(t)),
        }
    }
}

fn duplicate_reference(t: &Option<Box<Transaction>>) -> (r: Option<Box<Transaction>>)
    ensures
        r == *t,
    decreases t,
{
    match t {
        Some(b) => Some(Box::new(b.duplicate())),
        None => None,
    }
}

impl std::str::FromStr for TransactionType {
    type Err = InvalidOperationKind;

    fn from_str(s: &str) -> Result<TransactionType, InvalidOperationKind> {
        TransactionType::parse(s)
    }
}

impl Clone for Transaction {
    fn clone(&self) -> Transaction {
        self.duplicate()
    }
}

impl Transaction {
    /// A copy of this record that shares nothing with it.
    pub fn duplicate(&self) -> (r: Transaction)
        ensures
            r == *self,
        decreases self,
    {
        Transaction {
            transaction_type: self.transaction_type.duplicate(),
            client: self.client,
            tx: self.tx,
            amount: self.amount,
        }
    }
    /// Attaches to a dispute-family record a copy of the record that
    /// `transactions` holds under its `tx`; leaves other records as they are.
    pub fn link_transaction(&mut self, transactions: &HashMap<u32, Transaction>)
        ensures
            *final(self) == linked(*old(self), transactions@),
    {
        let tx = self.tx;
        match &self.transaction_type {
            TransactionType::Dispute(_) => {
                self.transaction_type = TransactionType::Dispute(
                    get_boxed_transaction(tx, transactions),
                );
            },
            TransactionType::Resolve(_) => {
                self.transaction_type = TransactionType::Resolve(
                    get_boxed_transaction(tx, transactions),
                );
            },
            TransactionType::Chargeback(_) => {
                self.transaction_type = TransactionType::Chargeback(
                    get_boxed_transaction(tx, transactions),
                );
            },
            _ => {},
        }
    }

    /// A record from the fields of one row: its kind tag, client, transaction
    /// identifier and optional amount. Fails only on an unknown tag.
    pub fn from_fields(kind: &str, client: u16, tx: u32, amount: Option<Amount>) -> (r: Result<
        Transaction,
        InvalidOperationKind,
    >)
        ensures
            kind_of_tag(kind@) matches Some(k) ==> r == Ok::<Transaction, InvalidOperationKind>(
                Transaction { transaction_type: k, client, tx, amount },
            ),
            kind_of_tag(kind@) is None ==> r == Err::<Transaction, InvalidOperationKind>(
                InvalidOperationKind,
            ),
    {
        match TransactionType::parse(kind) {
            Ok(transaction_type) => Ok(Transaction { transaction_type, client, tx, amount }),
            Err(e) => Err(e),
        }
    }

    /// Whether this is a deposit or a withdrawal.
    pub fn is_money_movement(&self) -> (r: bool)
        ensures
            r == is_money_movement(*self),
    {
        match self.transaction_type {
            TransactionType::Deposit | TransactionType::Withdrawal => true,
            _ => false,
        }
    }

    /// The amount of the record, zero where none was supplied.
    pub fn amount(&self) -> (r: Amount)
        ensures
            r == amount_or_zero(*self),
    {
        match self.amount {
            Some(a) => a,
            None => Amount::zero(),
        }
    }
}

} // verus!
