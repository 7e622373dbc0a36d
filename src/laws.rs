use crate::account::{apply, Account};
use crate::decimal::{
    lemma_difference_exact, lemma_sum_exact, max_scale, representable, sum, Amount,
};
use crate::engine::{account_or_new, replay, step};
use crate::transaction::{amount_or_zero, amount_wf, is_money_movement, Transaction, TransactionType};
use vstd::prelude::*;

verus! {

/// The largest of three scales.
pub open spec fn scale_of_three(a: Amount, b: Amount, c: Amount) -> nat {
    let s = max_scale(a, b);
    if s >= c.scale {
        s
    } else {
        c.scale as nat
    }
}

/// Whether `t` is a dispute, a resolve or a chargeback.
pub open spec fn is_dispute_family(t: Transaction) -> bool {
    t.transaction_type is Dispute || t.transaction_type is Resolve || t.transaction_type is Chargeback
}

/// An account's total is its available funds plus its held funds: where that
/// sum fits, the total is exactly it.
pub proof fn lemma_total_is_available_plus_held(acc: Account)
    requires
        acc.wf(),
        representable(
            acc.available.at_scale(max_scale(acc.available, acc.held)) + acc.held.at_scale(
                max_scale(acc.available, acc.held),
            ),
        ),
    ensures
        sum(acc.available, acc.held) matches Some(total) && total.at_scale(
            max_scale(acc.available, acc.held),
        ) == acc.available.at_scale(max_scale(acc.available, acc.held)) + acc.held.at_scale(
            max_scale(acc.available, acc.held),
        ),
{
    lemma_sum_exact(acc.available, acc.held, max_scale(acc.available, acc.held));
}

/// Two deposits leave the same available funds in either order: the old
/// funds plus both amounts, where every partial sum fits.
pub proof fn lemma_deposits_commute(acc: Account, d1: Transaction, d2: Transaction)
    requires
        acc.wf(),
        d1.transaction_type is Deposit,
        d2.transaction_type is Deposit,
        amount_wf(d1),
        amount_wf(d2),
        ({
            let t = scale_of_three(acc.available, amount_or_zero(d1), amount_or_zero(d2));
            let a = acc.available.at_scale(t);
            let x = amount_or_zero(d1).at_scale(t);
            let y = amount_or_zero(d2).at_scale(t);
            representable(a + x) && representable(a + y) && representable(a + x + y)
        }),
    ensures
        ({
            let t = scale_of_three(acc.available, amount_or_zero(d1), amount_or_zero(d2));
            let total = acc.available.at_scale(t) + amount_or_zero(d1).at_scale(t)
                + amount_or_zero(d2).at_scale(t);
            &&& apply(apply(acc, d1), d2).available.at_scale(t) == total
            &&& apply(apply(acc, d2), d1).available.at_scale(t) == total
            &&& apply(apply(acc, d1), d2).held == acc.held
            &&& apply(apply(acc, d2), d1).held == acc.held
        }),
{
    let t = scale_of_three(acc.available, amount_or_zero(d1), amount_or_zero(d2));
    let x = amount_or_zero(d1);
    let y = amount_or_zero(d2);
    lemma_sum_exact(acc.available, x, t);
    let a1 = apply(acc, d1);
    lemma_sum_exact(a1.available, y, t);
    let a2 = apply(acc, d2);
    lemma_sum_exact(acc.available, y, t);
    lemma_sum_exact(a2.available, x, t);
}

/// Disputing a record and then resolving it moves its amount from available
/// to held and back, so both balances end where they began.
pub proof fn lemma_dispute_then_resolve(
    acc: Account,
    r: Transaction,
    dispute: Transaction,
    resolve: Transaction,
)
    requires
        acc.wf(),
        amount_wf(r),
        dispute.transaction_type == TransactionType::Dispute(Some(Box::new(r))),
        resolve.transaction_type == TransactionType::Resolve(Some(Box::new(r))),
        ({
            let t = scale_of_three(acc.available, acc.held, amount_or_zero(r));
            let x = amount_or_zero(r).at_scale(t);
            &&& representable(acc.available.at_scale(t))
            &&& representable(acc.held.at_scale(t))
            &&& representable(acc.available.at_scale(t) - x)
            &&& representable(acc.held.at_scale(t) + x)
        }),
    ensures
        ({
            let t = scale_of_three(acc.available, acc.held, amount_or_zero(r));
            let x = amount_or_zero(r).at_scale(t);
            let disputed = apply(acc, dispute);
            let resolved = apply(disputed, resolve);
            &&& disputed.available.at_scale(t) == acc.available.at_scale(t) - x
            &&& disputed.held.at_scale(t) == acc.held.at_scale(t) + x
            &&& resolved.available.at_scale(t) == acc.available.at_scale(t)
            &&& resolved.held.at_scale(t) == acc.held.at_scale(t)
            &&& resolved.locked == acc.locked
            &&& resolved.client == acc.client
        }),
{
    let t = scale_of_three(acc.available, acc.held, amount_or_zero(r));
    let x = amount_or_zero(r);
    lemma_sum_exact(acc.held, x, t);
    lemma_difference_exact(acc.available, x, t);
    let disputed = apply(acc, dispute);
    lemma_difference_exact(disputed.held, x, t);
    lemma_sum_exact(disputed.available, x, t);
}

/// A chargeback after a dispute takes the record's amount out of held funds
/// and once more out of available funds, and locks the account.
pub proof fn lemma_dispute_then_chargeback(
    acc: Account,
    r: Transaction,
    dispute: Transaction,
    chargeback: Transaction,
)
    requires
        acc.wf(),
        amount_wf(r),
        dispute.transaction_type == TransactionType::Dispute(Some(Box::new(r))),
        chargeback.transaction_type == TransactionType::Chargeback(Some(Box::new(r))),
        ({
            let t = scale_of_three(acc.available, acc.held, amount_or_zero(r));
            let x = amount_or_zero(r).at_scale(t);
            &&& representable(acc.held.at_scale(t))
            &&& representable(acc.available.at_scale(t) - x)
            &&& representable(acc.available.at_scale(t) - x - x)
            &&& representable(acc.held.at_scale(t) + x)
        }),
    ensures
        ({
            let t = scale_of_three(acc.available, acc.held, amount_or_zero(r));
            let x = amount_or_zero(r).at_scale(t);
            let charged = apply(apply(acc, dispute), chargeback);
            &&& charged.available.at_scale(t) == acc.available.at_scale(t) - x - x
            &&& charged.held.at_scale(t) == acc.held.at_scale(t)
            &&& charged.locked
            &&& charged.client == acc.client
        }),
{
    let t = scale_of_three(acc.available, acc.held, amount_or_zero(r));
    let x = amount_or_zero(r);
    lemma_sum_exact(acc.held, x, t);
    lemma_difference_exact(acc.available, x, t);
    let disputed = apply(acc, dispute);
    lemma_difference_exact(disputed.held, x, t);
    lemma_difference_exact(disputed.available, x, t);
}

/// A locked account stays locked whatever record comes next.
pub proof fn lemma_locked_stays_locked(acc: Account, t: Transaction)
    requires
        acc.locked,
    ensures
        apply(acc, t).locked,
{
}

/// A dispute-family record whose `tx` names no recorded deposit or
/// withdrawal changes neither its client's account nor the index.
pub proof fn lemma_unknown_reference_is_noop(
    accounts: Map<u16, Account>,
    index: Map<u32, Transaction>,
    t: Transaction,
)
    requires
        is_dispute_family(t),
        !index.contains_key(t.tx),
    ensures
        step((accounts, index), t).0[t.client] == account_or_new(accounts, t.client),
        step((accounts, index), t).0.remove(t.client) == accounts.remove(t.client),
        step((accounts, index), t).1 == index,
{
    assert(step((accounts, index), t).0.remove(t.client) =~= accounts.remove(t.client));
}

/// Where a client's records are all deposits and withdrawals, its account
/// depends on those records alone, however other clients' records are
/// interleaved with them.
pub proof fn lemma_other_clients_do_not_matter(ts: Seq<Transaction>, c: u16)
    requires
        forall|i: int| 0 <= i < ts.len() && (#[trigger] ts[i]).client == c ==> is_money_movement(ts[i]),
    ensures
        account_or_new(replay(ts).0, c) == account_or_new(
            replay(ts.filter(|t: Transaction| t.client == c)).0,
            c,
        ),
    decreases ts.len(),
{
    if ts.len() > 0 {
        let init = ts.drop_last();
        let last = ts.last();
        assert forall|i: int| 0 <= i < init.len() && (#[trigger] init[i]).client == c implies is_money_movement(init[i]) by {
            assert(init[i] == ts[i]);
        }
        lemma_other_clients_do_not_matter(init, c);
        let own = ts.filter(|t: Transaction| t.client == c);
        let own_init = init.filter(|t: Transaction| t.client == c);
        assert(ts.drop_last() == init);
        reveal_with_fuel(Seq::filter, 1);
        if last.client == c {
            assert(is_money_movement(ts[ts.len() - 1]));
            assert(own == own_init.push(last));
            assert(own.drop_last() =~= own_init);
        } else {
            assert(own == own_init);
        }
    }
}

/// The replay is a function of the log: the same log gives the same
/// accounts and the same index.
pub proof fn lemma_replay_deterministic(ts1: Seq<Transaction>, ts2: Seq<Transaction>)
    requires
        ts1 == ts2,
    ensures
        replay(ts1) == replay(ts2),
{
}

} // verus!
