use crate::account::{apply, Account};
use crate::transaction::{amount_wf, is_money_movement, linked, Transaction};
use std::collections::HashMap;
use vstd::prelude::*;

verus! {

broadcast use vstd::std_specs::hash::group_hash_axioms;

/// The state carried through a replay: accounts by client, and the
/// money-movement records by transaction identifier.
pub type Ledger = (Map<u16, Account>, Map<u32, Transaction>);

/// The account that `accounts` holds for `client`, or a fresh one.
pub open spec fn account_or_new(accounts: Map<u16, Account>, client: u16) -> Account {
    if accounts.contains_key(client) {
        accounts[client]
    } else {
        Account::spec_new(client)
    }
}

/// The index after `t`: a deposit or withdrawal is recorded under its `tx`.
pub open spec fn record(index: Map<u32, Transaction>, t: Transaction) -> Map<u32, Transaction> {
    if is_money_movement(t) {
        index.insert(t.tx, t)
    } else {
        index
    }
}

/// One step of the replay: record, link, then apply to the client's account.
pub open spec fn step(s: Ledger, t: Transaction) -> Ledger {
    let index = record(s.1, t);
    let acc = account_or_new(s.0, t.client);
    (s.0.insert(t.client, apply(acc, linked(t, index))), index)
}

/// The state after replaying `ts` in order from an empty ledger.
pub open spec fn replay(ts: Seq<Transaction>) -> Ledger
    decreases ts.len(),
{
    if ts.len() == 0 {
        (Map::empty(), Map::empty())
    } else {
        step(replay(ts.drop_last()), ts.last())
    }
}

/// Every supplied amount in the log is in the decimal range.
pub open spec fn log_wf(ts: Seq<Transaction>) -> bool {
    forall|i: int| 0 <= i < ts.len() ==> amount_wf(#[trigger] ts[i])
}

/// Every account and every indexed amount is in the decimal range.
pub open spec fn ledger_wf(accounts: Map<u16, Account>, index: Map<u32, Transaction>) -> bool {
    &&& forall|c: u16| #[trigger] accounts.contains_key(c) ==> accounts[c].wf()
    &&& forall|k: u32| #[trigger] index.contains_key(k) ==> amount_wf(index[k])
}

/// Replays `records` in order and returns every client's final account.
pub fn process_transactions(records: &Vec<Transaction>) -> (r: HashMap<u16, Account>)
    requires
        log_wf(records@),
    ensures
        r@ == replay(records@).0,
        forall|c: u16| #[trigger] r@.contains_key(c) ==> r@[c].wf(),
{
    let mut accounts: HashMap<u16, Account> = HashMap::new();
    let mut transactions: HashMap<u32, Transaction> = HashMap::new();
    let mut i: usize = 0;
    while i < records.len()
        invariant
            i <= records.len(),
            log_wf(records@),
            (accounts@, transactions@) == replay(records@.take(i as int)),
            ledger_wf(accounts@, transactions@),
        decreases records.len() - i,
    {
        let mut transaction = records[i].duplicate();
        assert(records@.take(i + 1).drop_last() =~= records@.take(i as int));
        if transaction.is_money_movement() {
            transactions.insert(transaction.tx, transaction.duplicate());
        } else {
            transaction.link_transaction(&transactions);
        }
        let mut account = match accounts.get(&transaction.client) {
            Some(a) => {
                assert(accounts@.contains_key(transaction.client));
                *a
            },
            None => Account::new(transaction.client),
        };
        account.update_transaction(&transaction);
        accounts.insert(transaction.client, account);
        i = i + 1;
    }
    assert(records@.take(records.len() as int) =~= records@);
    accounts
}

} // verus!
