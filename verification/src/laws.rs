//! What holds of the engine across operations.
use vstd::prelude::*;
use crate::amount::{
    Amount, adds_exactly, subs_exactly, fits_at, max_scale_of, lemma_sum_scale,
    lemma_difference_scale, lemma_exact_bound_decreases,
};
use crate::ledger::{
    Ledger, is_locked, is_active, can_dispute, can_settle, tx_of, new_record, flagged,
    deposit_spec, deposit_step, withdraw_spec, withdraw_step, dispute_spec, dispute_step,
    resolve_spec, resolve_step, chargeback_spec, chargeback_step, empty_ledger, withdraw_allowed,
    account_or_new, apply_record, run, is_deposit_for,
    disputed_units, disputed_total_below, disputed_total, tx_id_count, held_matches_disputes,
};
use crate::handler::record_step;
use crate::types::{Record, Transaction, TransactionKind, kind_of};

verus! {

/// A locked account is frozen: no operation on it changes anything, neither its balances
/// nor the recorded transactions.
pub proof fn lemma_locked_account_is_frozen(s: Ledger, c: u16, t: u32, amount: Amount)
    requires
        is_locked(s, c),
    ensures
        deposit_spec(s, c, t, amount) == s,
        withdraw_spec(s, c, t, amount) == s,
        dispute_spec(s, c, t) == s,
        resolve_spec(s, c, t) == s,
        chargeback_spec(s, c, t) == s,
{
}

/// Accounts and transaction records are never removed, and a locked account stays locked,
/// whatever operation is applied.
pub proof fn lemma_accounts_records_and_locks_persist(
    s: Ledger,
    c: u16,
    t: u32,
    amount: Amount,
    x: u16,
    y: u32,
)
    ensures
        s.clients.contains_key(x) ==> {
            &&& deposit_spec(s, c, t, amount).clients.contains_key(x)
            &&& withdraw_spec(s, c, t, amount).clients.contains_key(x)
            &&& dispute_spec(s, c, t).clients.contains_key(x)
            &&& resolve_spec(s, c, t).clients.contains_key(x)
            &&& chargeback_spec(s, c, t).clients.contains_key(x)
        },
        s.transactions.contains_key(y) ==> {
            &&& deposit_spec(s, c, t, amount).transactions.contains_key(y)
            &&& withdraw_spec(s, c, t, amount).transactions.contains_key(y)
            &&& dispute_spec(s, c, t).transactions.contains_key(y)
            &&& resolve_spec(s, c, t).transactions.contains_key(y)
            &&& chargeback_spec(s, c, t).transactions.contains_key(y)
        },
        is_locked(s, x) ==> {
            &&& is_locked(deposit_spec(s, c, t, amount), x)
            &&& is_locked(withdraw_spec(s, c, t, amount), x)
            &&& is_locked(dispute_spec(s, c, t), x)
            &&& is_locked(resolve_spec(s, c, t), x)
            &&& is_locked(chargeback_spec(s, c, t), x)
        },
{
}

/// An operation on client `c` neither changes nor creates the account of any other client.
pub proof fn lemma_other_accounts_untouched(s: Ledger, c: u16, t: u32, amount: Amount, x: u16)
    requires
        x != c,
    ensures
        deposit_spec(s, c, t, amount).clients.contains_key(x) == s.clients.contains_key(x),
        withdraw_spec(s, c, t, amount).clients.contains_key(x) == s.clients.contains_key(x),
        dispute_spec(s, c, t).clients.contains_key(x) == s.clients.contains_key(x),
        resolve_spec(s, c, t).clients.contains_key(x) == s.clients.contains_key(x),
        chargeback_spec(s, c, t).clients.contains_key(x) == s.clients.contains_key(x),
        s.clients.contains_key(x) ==> {
            &&& deposit_spec(s, c, t, amount).clients[x] == s.clients[x]
            &&& withdraw_spec(s, c, t, amount).clients[x] == s.clients[x]
            &&& dispute_spec(s, c, t).clients[x] == s.clients[x]
            &&& resolve_spec(s, c, t).clients[x] == s.clients[x]
            &&& chargeback_spec(s, c, t).clients[x] == s.clients[x]
        },
{
}

/// Disputes, resolves and chargebacks leave every transaction other than the one they
/// name as it was, and never add one.
pub proof fn lemma_settlements_touch_only_their_transaction(s: Ledger, c: u16, t: u32, y: u32)
    requires
        y != t,
    ensures
        dispute_spec(s, c, t).transactions.contains_key(y) == s.transactions.contains_key(y),
        resolve_spec(s, c, t).transactions.contains_key(y) == s.transactions.contains_key(y),
        chargeback_spec(s, c, t).transactions.contains_key(y) == s.transactions.contains_key(y),
        s.transactions.contains_key(y) ==> {
            &&& dispute_spec(s, c, t).transactions[y] == s.transactions[y]
            &&& resolve_spec(s, c, t).transactions[y] == s.transactions[y]
            &&& chargeback_spec(s, c, t).transactions[y] == s.transactions[y]
        },
{
}

/// A transaction cannot be disputed twice: a second dispute of the same transaction
/// changes nothing.
pub proof fn lemma_dispute_twice_is_dispute_once(s: Ledger, c: u16, t: u32)
    ensures
        dispute_spec(dispute_spec(s, c, t), c, t) == dispute_spec(s, c, t),
{
}

/// Only a disputed transaction can be resolved or charged back: otherwise nothing changes.
pub proof fn lemma_settlement_needs_dispute(s: Ledger, c: u16, t: u32)
    requires
        !tx_of(s, c, t, true),
    ensures
        resolve_spec(s, c, t) == s,
        chargeback_spec(s, c, t) == s,
{
}

/// A deposit to an account that is not locked credits exactly the amount (a new account
/// starts from zero) and records the transaction as undisputed.
pub proof fn lemma_deposit_credits(s0: Ledger, c: u16, t: u32, amount: Amount, s1: Ledger)
    requires
        deposit_step(s0, c, t, amount, s1),
        !is_locked(s0, c),
        s0.clients.contains_key(c) ==> adds_exactly(s0.clients[c].available, amount),
    ensures
        s1.clients.contains_key(c),
        s1.clients[c].available.units() == (if s0.clients.contains_key(c) {
            s0.clients[c].available.units()
        } else {
            0
        }) + amount.units(),
        s0.clients.contains_key(c) ==> s1.clients[c].held == s0.clients[c].held,
        !s0.clients.contains_key(c) ==> s1.clients[c].held.units() == 0,
        !s0.clients.contains_key(c) ==> s1.clients[c].available == amount,
        !s1.clients[c].locked,
        s1.transactions.contains_key(t),
        s1.transactions[t] == new_record(c, amount),
{
    Amount::lemma_zero();
    if !s0.clients.contains_key(c) {
        Amount::lemma_zero_adds_exactly(amount);
    }
}

/// A withdrawal from an account that is not locked records the transaction; it debits
/// exactly the amount when enough is available, and changes no balance otherwise.
pub proof fn lemma_withdraw_debits(s0: Ledger, c: u16, t: u32, amount: Amount, s1: Ledger)
    requires
        withdraw_step(s0, c, t, amount, s1),
        is_active(s0, c),
        subs_exactly(s0.clients[c].available, amount),
    ensures
        s1.transactions[t] == new_record(c, amount),
        s1.clients[c].held == s0.clients[c].held,
        !s1.clients[c].locked,
        s0.clients[c].available.units() >= amount.units() ==> s1.clients[c].available.units()
            == s0.clients[c].available.units() - amount.units(),
        s0.clients[c].available.units() < amount.units() ==> s1.clients[c] == s0.clients[c],
{
}

/// A dispute moves the transaction's amount from available to held: the total is kept.
pub proof fn lemma_dispute_keeps_total(s0: Ledger, c: u16, t: u32, s1: Ledger)
    requires
        dispute_step(s0, c, t, s1),
        can_dispute(s0, c, t),
        subs_exactly(s0.clients[c].available, s0.transactions[t].amount),
        adds_exactly(s0.clients[c].held, s0.transactions[t].amount),
    ensures
        s1.clients[c].available.units() == s0.clients[c].available.units()
            - s0.transactions[t].amount.units(),
        s1.clients[c].held.units() == s0.clients[c].held.units()
            + s0.transactions[t].amount.units(),
        s1.clients[c].available.units() + s1.clients[c].held.units()
            == s0.clients[c].available.units() + s0.clients[c].held.units(),
        s1.clients[c].locked == s0.clients[c].locked,
        s1.transactions[t].disputed,
        s1.clients.dom() == s0.clients.dom(),
        forall|k: u16| #![trigger s1.clients[k]]
            s0.clients.contains_key(k) ==> s1.clients[k].available.units()
                + s1.clients[k].held.units() == s0.clients[k].available.units()
                + s0.clients[k].held.units(),
{
    assert(s1.clients.dom() =~= s0.clients.dom());
}

/// A resolve moves the transaction's amount from held back to available: the total is kept.
pub proof fn lemma_resolve_keeps_total(s0: Ledger, c: u16, t: u32, s1: Ledger)
    requires
        resolve_step(s0, c, t, s1),
        can_settle(s0, c, t),
        adds_exactly(s0.clients[c].available, s0.transactions[t].amount),
        subs_exactly(s0.clients[c].held, s0.transactions[t].amount),
    ensures
        s1.clients[c].available.units() + s1.clients[c].held.units()
            == s0.clients[c].available.units() + s0.clients[c].held.units(),
        s1.clients[c].locked == s0.clients[c].locked,
        !s1.transactions[t].disputed,
        s1.clients.dom() == s0.clients.dom(),
        forall|k: u16| #![trigger s1.clients[k]]
            s0.clients.contains_key(k) ==> s1.clients[k].available.units()
                + s1.clients[k].held.units() == s0.clients[k].available.units()
                + s0.clients[k].held.units(),
{
    assert(s1.clients.dom() =~= s0.clients.dom());
}

/// A chargeback lowers held, and so the total, by the transaction's amount, leaves
/// available as it was and locks the account.
pub proof fn lemma_chargeback_lowers_total(s0: Ledger, c: u16, t: u32, s1: Ledger)
    requires
        chargeback_step(s0, c, t, s1),
        can_settle(s0, c, t),
        subs_exactly(s0.clients[c].held, s0.transactions[t].amount),
    ensures
        s1.clients[c].available == s0.clients[c].available,
        s1.clients[c].held.units() == s0.clients[c].held.units()
            - s0.transactions[t].amount.units(),
        s1.clients[c].available.units() + s1.clients[c].held.units()
            == s0.clients[c].available.units() + s0.clients[c].held.units()
            - s0.transactions[t].amount.units(),
        is_locked(s1, c),
        !s1.transactions[t].disputed,
{
}

/// A dispute followed by a resolve of the same transaction gives back the balances the
/// account had, and the transaction records it had.
pub proof fn lemma_dispute_then_resolve_restores(
    s0: Ledger,
    s1: Ledger,
    s2: Ledger,
    c: u16,
    t: u32,
)
    requires
        dispute_step(s0, c, t, s1),
        resolve_step(s1, c, t, s2),
        can_dispute(s0, c, t),
        subs_exactly(s0.clients[c].available, s0.transactions[t].amount),
        adds_exactly(s0.clients[c].held, s0.transactions[t].amount),
        fits_at(
            s0.clients[c].available,
            max_scale_of(s0.clients[c].available, s0.transactions[t].amount),
        ),
        fits_at(s0.clients[c].held, max_scale_of(s0.clients[c].held, s0.transactions[t].amount)),
    ensures
        s2.clients.dom() == s0.clients.dom(),
        s2.clients[c].available.units() == s0.clients[c].available.units(),
        s2.clients[c].held.units() == s0.clients[c].held.units(),
        s2.clients[c].locked == s0.clients[c].locked,
        forall|x: u16| x != c && s0.clients.contains_key(x) ==> s2.clients[x] == s0.clients[x],
        s2.transactions == s0.transactions,
{
    let x = s0.transactions[t].amount;
    let a0 = s0.clients[c].available;
    let h0 = s0.clients[c].held;
    lemma_difference_scale(a0, x, s1.clients[c].available);
    lemma_sum_scale(h0, x, s1.clients[c].held);
    lemma_exact_bound_decreases(
        max_scale_of(s1.clients[c].available, x),
        max_scale_of(a0, x),
    );
    lemma_exact_bound_decreases(max_scale_of(s1.clients[c].held, x), max_scale_of(h0, x));
    assert(s2.transactions =~= s0.transactions);
    assert(s2.clients.dom() =~= s0.clients.dom());
}

/// A dispute followed by a chargeback of the same transaction takes the amount out of the
/// account for good: held is back to what it was, available and the total are less by the
/// amount, the account is locked and the transaction is no longer disputed.
pub proof fn lemma_dispute_then_chargeback(s0: Ledger, s1: Ledger, s2: Ledger, c: u16, t: u32)
    requires
        dispute_step(s0, c, t, s1),
        chargeback_step(s1, c, t, s2),
        can_dispute(s0, c, t),
        subs_exactly(s0.clients[c].available, s0.transactions[t].amount),
        adds_exactly(s0.clients[c].held, s0.transactions[t].amount),
        fits_at(s0.clients[c].held, max_scale_of(s0.clients[c].held, s0.transactions[t].amount)),
    ensures
        is_locked(s2, c),
        s2.clients[c].held.units() == s0.clients[c].held.units(),
        s2.clients[c].available.units() == s0.clients[c].available.units()
            - s0.transactions[t].amount.units(),
        s2.clients[c].available.units() + s2.clients[c].held.units() == s0.clients[c].available.units()
            + s0.clients[c].held.units() - s0.transactions[t].amount.units(),
        s2.transactions == s0.transactions,
{
    let x = s0.transactions[t].amount;
    let h0 = s0.clients[c].held;
    lemma_sum_scale(h0, x, s1.clients[c].held);
    lemma_exact_bound_decreases(max_scale_of(s1.clients[c].held, x), max_scale_of(h0, x));
    assert(s2.transactions =~= s0.transactions);
}

/// A withdrawal never makes a non-negative available balance negative, nor creates an
/// account.
pub proof fn lemma_withdraw_never_overdraws(s0: Ledger, c: u16, t: u32, amount: Amount, s1: Ledger)
    requires
        withdraw_step(s0, c, t, amount, s1),
        withdraw_allowed(s0, c, amount),
        s0.clients.contains_key(c) ==> s0.clients[c].available.units() >= 0,
    ensures
        s1.clients.contains_key(c) == s0.clients.contains_key(c),
        s1.clients.contains_key(c) ==> s1.clients[c].available.units() >= 0,
{
}

/// Two deposits with different transaction ids give the same accounts and records in
/// either order, where every sum they compute is exact.
pub proof fn lemma_deposits_commute(
    s: Ledger,
    c1: u16,
    t1: u32,
    a1: Amount,
    c2: u16,
    t2: u32,
    a2: Amount,
    p1: Ledger,
    p12: Ledger,
    q2: Ledger,
    q21: Ledger,
)
    requires
        t1 != t2,
        deposit_step(s, c1, t1, a1, p1),
        deposit_step(p1, c2, t2, a2, p12),
        deposit_step(s, c2, t2, a2, q2),
        deposit_step(q2, c1, t1, a1, q21),
        !is_locked(s, c1) ==> adds_exactly(account_or_new(s, c1).available, a1),
        !is_locked(p1, c2) ==> adds_exactly(account_or_new(p1, c2).available, a2),
        !is_locked(s, c2) ==> adds_exactly(account_or_new(s, c2).available, a2),
        !is_locked(q2, c1) ==> adds_exactly(account_or_new(q2, c1).available, a1),
    ensures
        p12.clients.dom() == q21.clients.dom(),
        forall|k: u16| #![trigger p12.clients[k]]
            p12.clients.contains_key(k) ==> {
                &&& p12.clients[k].available.units() == q21.clients[k].available.units()
                &&& p12.clients[k].held == q21.clients[k].held
                &&& p12.clients[k].locked == q21.clients[k].locked
            },
        p12.transactions == q21.transactions,
        c1 != c2 ==> p12 == q21,
{
    Amount::lemma_zero();
    assert(p12.transactions =~= q21.transactions);
    assert(p12.clients.dom() =~= q21.clients.dom());
    if c1 != c2 {
        assert(p12.clients =~= q21.clients);
    }
}

// ---------------------------------------------------------------- runs of rows

/// Applying a row adds the row's client to the accounts if the row is a deposit, and
/// otherwise neither adds nor removes an account.
pub proof fn lemma_apply_record_accounts(s: Ledger, r: Record)
    ensures
        apply_record(s, r).clients.dom() == (if kind_of(r.kind@) == Some(
            TransactionKind::Deposit,
        ) {
            s.clients.dom().insert(r.client)
        } else {
            s.clients.dom()
        }),
{
    assert(apply_record(s, r).clients.dom() =~= (if kind_of(r.kind@) == Some(
        TransactionKind::Deposit,
    ) {
        s.clients.dom().insert(r.client)
    } else {
        s.clients.dom()
    }));
}

/// A row that `Handler::process` applied leaves the state that `apply_record` gives.
pub proof fn lemma_record_step_applies(s0: Ledger, r: Record, s1: Ledger)
    requires
        record_step(s0, r, s1),
    ensures
        s1 == apply_record(s0, r),
{
}

/// Starting from no accounts, the accounts after any sequence of rows are exactly the
/// clients that some deposit row names.
pub proof fn lemma_accounts_are_the_depositors(rs: Seq<Record>)
    ensures
        forall|c: u16|
            #[trigger] run(empty_ledger(), rs).clients.contains_key(c) <==> exists|i: int|
                0 <= i < rs.len() && is_deposit_for(#[trigger] rs[i], c),
    decreases rs.len(),
{
    if rs.len() > 0 {
        let prefix = rs.drop_last();
        lemma_accounts_are_the_depositors(prefix);
        lemma_apply_record_accounts(run(empty_ledger(), prefix), rs.last());
        assert forall|c: u16|
            #[trigger] run(empty_ledger(), rs).clients.contains_key(c) <==> exists|i: int|
                0 <= i < rs.len() && is_deposit_for(#[trigger] rs[i], c) by {
            if run(empty_ledger(), rs).clients.contains_key(c) {
                if run(empty_ledger(), prefix).clients.contains_key(c) {
                    let i = choose|i: int| 0 <= i < prefix.len() && is_deposit_for(prefix[i], c);
                    assert(rs[i] == prefix[i]);
                } else {
                    assert(is_deposit_for(rs[rs.len() - 1], c));
                }
            }
            if exists|i: int| 0 <= i < rs.len() && is_deposit_for(#[trigger] rs[i], c) {
                let i = choose|i: int| 0 <= i < rs.len() && is_deposit_for(rs[i], c);
                if i < rs.len() - 1 {
                    assert(prefix[i] == rs[i]);
                }
            }
        }
    }
}

// ---------------------------------------------------------------- held funds

/// Changing the record at `t` changes the running sum of disputed amounts by the change
/// in what `t` contributes, and only if `t` is among the ids summed.
proof fn lemma_disputed_total_update(
    txs: Map<u32, Transaction>,
    c: u16,
    n: nat,
    t: u32,
    v: Transaction,
)
    requires
        n <= tx_id_count(),
    ensures
        disputed_total_below(txs.insert(t, v), c, n) == disputed_total_below(txs, c, n) + (if t
            < n {
            disputed_units(txs.insert(t, v), c, t) - disputed_units(txs, c, t)
        } else {
            0
        }),
    decreases n,
{
    if n > 0 {
        lemma_disputed_total_update(txs, c, (n - 1) as nat, t, v);
        let k = (n - 1) as u32;
        assert(k == n - 1);
        if k != t {
            assert(disputed_units(txs.insert(t, v), c, k) == disputed_units(txs, c, k));
        }
    }
}

/// A client with no disputed transaction has nothing summed.
proof fn lemma_disputed_total_zero(txs: Map<u32, Transaction>, c: u16, n: nat)
    requires
        forall|k: u32| #[trigger] disputed_units(txs, c, k) == 0,
    ensures
        disputed_total_below(txs, c, n) == 0,
    decreases n,
{
    if n > 0 {
        lemma_disputed_total_zero(txs, c, (n - 1) as nat);
        assert(disputed_units(txs, c, (n - 1) as u32) == 0);
    }
}

/// Replacing record `t` by `v` keeps each client's sum, where neither the old record nor
/// `v` is disputed.
proof fn lemma_undisputed_record_keeps_totals(txs: Map<u32, Transaction>, t: u32, v: Transaction)
    requires
        !v.disputed,
        !(txs.contains_key(t) && txs[t].disputed),
    ensures
        forall|k: u16| #[trigger] disputed_total(txs.insert(t, v), k) == disputed_total(txs, k),
{
    assert forall|k: u16| #[trigger] disputed_total(txs.insert(t, v), k) == disputed_total(txs, k) by {
        lemma_disputed_total_update(txs, k, tx_id_count(), t, v);
    }
}

/// The empty state holds no funds and no records.
pub proof fn lemma_empty_ledger_held_matches_disputes()
    ensures
        held_matches_disputes(empty_ledger()),
{
}

/// A deposit keeps every account's held funds equal to its disputed amounts, unless it
/// replaces a disputed record.
pub proof fn lemma_deposit_keeps_held_matched(
    s0: Ledger,
    c: u16,
    t: u32,
    amount: Amount,
    s1: Ledger,
)
    requires
        held_matches_disputes(s0),
        deposit_step(s0, c, t, amount, s1),
        !(s0.transactions.contains_key(t) && s0.transactions[t].disputed),
    ensures
        held_matches_disputes(s1),
{
    if !is_locked(s0, c) {
        lemma_undisputed_record_keeps_totals(s0.transactions, t, new_record(c, amount));
        if !s0.clients.contains_key(c) {
            Amount::lemma_zero();
            assert forall|k: u32| #[trigger] disputed_units(s0.transactions, c, k) == 0 by {
                if s0.transactions.contains_key(k) {
                    assert(s0.clients.contains_key(s0.transactions[k].client));
                }
            }
            lemma_disputed_total_zero(s0.transactions, c, tx_id_count());
        }
        assert forall|k: u16| #![trigger s1.clients[k]]
            s1.clients.contains_key(k) implies s1.clients[k].held.units() == disputed_total(
                s1.transactions,
                k,
            ) by {
            assert(disputed_total(s1.transactions, k) == disputed_total(s0.transactions, k));
        }
        assert forall|y: u32| #![trigger s1.transactions[y]]
            s1.transactions.contains_key(y) implies s1.clients.contains_key(
                s1.transactions[y].client,
            ) by {
            if y != t {
                assert(s0.clients.contains_key(s0.transactions[y].client));
            }
        }
    }
}

/// A withdrawal keeps every account's held funds equal to its disputed amounts, unless it
/// replaces a disputed record.
pub proof fn lemma_withdraw_keeps_held_matched(
    s0: Ledger,
    c: u16,
    t: u32,
    amount: Amount,
    s1: Ledger,
)
    requires
        held_matches_disputes(s0),
        withdraw_step(s0, c, t, amount, s1),
        !(s0.transactions.contains_key(t) && s0.transactions[t].disputed),
    ensures
        held_matches_disputes(s1),
{
    if is_active(s0, c) {
        lemma_undisputed_record_keeps_totals(s0.transactions, t, new_record(c, amount));
        assert forall|k: u16| #![trigger s1.clients[k]]
            s1.clients.contains_key(k) implies s1.clients[k].held.units() == disputed_total(
                s1.transactions,
                k,
            ) by {
            assert(disputed_total(s1.transactions, k) == disputed_total(s0.transactions, k));
        }
        assert forall|y: u32| #![trigger s1.transactions[y]]
            s1.transactions.contains_key(y) implies s1.clients.contains_key(
                s1.transactions[y].client,
            ) by {
            if y != t {
                assert(s0.clients.contains_key(s0.transactions[y].client));
            }
        }
    }
}

/// A dispute keeps every account's held funds equal to its disputed amounts, where the
/// sum it adds to held is exact.
pub proof fn lemma_dispute_keeps_held_matched(s0: Ledger, c: u16, t: u32, s1: Ledger)
    requires
        held_matches_disputes(s0),
        dispute_step(s0, c, t, s1),
        can_dispute(s0, c, t) ==> adds_exactly(s0.clients[c].held, s0.transactions[t].amount),
    ensures
        held_matches_disputes(s1),
{
    if can_dispute(s0, c, t) {
        let v = flagged(s0, t, true);
        assert forall|k: u16| #![trigger s1.clients[k]]
            s1.clients.contains_key(k) implies s1.clients[k].held.units() == disputed_total(
                s1.transactions,
                k,
            ) by {
            lemma_disputed_total_update(s0.transactions, k, tx_id_count(), t, v);
        }
        assert forall|y: u32| #![trigger s1.transactions[y]]
            s1.transactions.contains_key(y) implies s1.clients.contains_key(
                s1.transactions[y].client,
            ) by {
            assert(s0.clients.contains_key(s0.transactions[y].client));
        }
    }
}

/// A resolve keeps every account's held funds equal to its disputed amounts, where the
/// difference it takes from held is exact.
pub proof fn lemma_resolve_keeps_held_matched(s0: Ledger, c: u16, t: u32, s1: Ledger)
    requires
        held_matches_disputes(s0),
        resolve_step(s0, c, t, s1),
        can_settle(s0, c, t) ==> subs_exactly(s0.clients[c].held, s0.transactions[t].amount),
    ensures
        held_matches_disputes(s1),
{
    if can_settle(s0, c, t) {
        let v = flagged(s0, t, false);
        assert forall|k: u16| #![trigger s1.clients[k]]
            s1.clients.contains_key(k) implies s1.clients[k].held.units() == disputed_total(
                s1.transactions,
                k,
            ) by {
            lemma_disputed_total_update(s0.transactions, k, tx_id_count(), t, v);
        }
        assert forall|y: u32| #![trigger s1.transactions[y]]
            s1.transactions.contains_key(y) implies s1.clients.contains_key(
                s1.transactions[y].client,
            ) by {
            assert(s0.clients.contains_key(s0.transactions[y].client));
        }
    }
}

/// A chargeback keeps every account's held funds equal to its disputed amounts, where the
/// difference it takes from held is exact.
pub proof fn lemma_chargeback_keeps_held_matched(s0: Ledger, c: u16, t: u32, s1: Ledger)
    requires
        held_matches_disputes(s0),
        chargeback_step(s0, c, t, s1),
        can_settle(s0, c, t) ==> subs_exactly(s0.clients[c].held, s0.transactions[t].amount),
    ensures
        held_matches_disputes(s1),
{
    if can_settle(s0, c, t) {
        let v = flagged(s0, t, false);
        assert forall|k: u16| #![trigger s1.clients[k]]
            s1.clients.contains_key(k) implies s1.clients[k].held.units() == disputed_total(
                s1.transactions,
                k,
            ) by {
            lemma_disputed_total_update(s0.transactions, k, tx_id_count(), t, v);
        }
        assert forall|y: u32| #![trigger s1.transactions[y]]
            s1.transactions.contains_key(y) implies s1.clients.contains_key(
                s1.transactions[y].client,
            ) by {
            assert(s0.clients.contains_key(s0.transactions[y].client));
        }
    }
}

} // verus!
