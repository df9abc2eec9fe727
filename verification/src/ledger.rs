//! The engine's state as mathematical maps, and what each operation does to it.
//!
//! Sums and differences of amounts are those that `rust_decimal` computes, named by
//! `decimal_checked_add` and `decimal_checked_sub`. Each `*_step` relation adds to the
//! transition the arithmetic facts that hold of the sums the operation computed.
use vstd::prelude::*;
use crate::amount::{Amount, decimal_checked_add, decimal_checked_sub, add_fact, sub_fact};
use crate::types::{Client, Record, Transaction, TransactionKind, kind_of};

verus! {

/// The accounts by client id and the recorded transactions by transaction id.
#[verifier::ext_equal]
pub struct Ledger {
    pub clients: Map<u16, Client>,
    pub transactions: Map<u32, Transaction>,
}

/// Client `c` has an account and it is locked.
pub open spec fn is_locked(s: Ledger, c: u16) -> bool {
    s.clients.contains_key(c) && s.clients[c].locked
}

/// Client `c` has an account and it is not locked.
pub open spec fn is_active(s: Ledger, c: u16) -> bool {
    s.clients.contains_key(c) && !s.clients[c].locked
}

/// The account of `c`, or a fresh one if `c` has none.
pub open spec fn account_or_new(s: Ledger, c: u16) -> Client {
    if s.clients.contains_key(c) {
        s.clients[c]
    } else {
        Client::empty()
    }
}

/// The record that a deposit or withdrawal leaves.
pub open spec fn new_record(c: u16, amount: Amount) -> Transaction {
    Transaction { client: c, amount, disputed: false }
}

/// Transaction `t` is recorded for client `c` with the given dispute flag.
pub open spec fn tx_of(s: Ledger, c: u16, t: u32, disputed: bool) -> bool {
    &&& s.transactions.contains_key(t)
    &&& s.transactions[t].client == c
    &&& s.transactions[t].disputed == disputed
}

/// A dispute of `t` by `c` takes effect.
pub open spec fn can_dispute(s: Ledger, c: u16, t: u32) -> bool {
    tx_of(s, c, t, false) && is_active(s, c)
}

/// A resolve or a chargeback of `t` by `c` takes effect.
pub open spec fn can_settle(s: Ledger, c: u16, t: u32) -> bool {
    tx_of(s, c, t, true) && is_active(s, c)
}

/// Transaction `t` with its dispute flag set to `disputed`.
pub open spec fn flagged(s: Ledger, t: u32, disputed: bool) -> Transaction {
    Transaction {
        client: s.transactions[t].client,
        amount: s.transactions[t].amount,
        disputed,
    }
}

// ---------------------------------------------------------------- deposit

/// A deposit: ignored for a locked account; otherwise the account (created if missing)
/// is credited and the transaction is recorded.
pub open spec fn deposit_spec(s: Ledger, c: u16, t: u32, amount: Amount) -> Ledger {
    if is_locked(s, c) {
        s
    } else {
        let acct = account_or_new(s, c);
        Ledger {
            clients: s.clients.insert(
                c,
                Client {
                    available: decimal_checked_add(acct.available, amount).unwrap(),
                    held: acct.held,
                    locked: acct.locked,
                },
            ),
            transactions: s.transactions.insert(t, new_record(c, amount)),
        }
    }
}

/// The deposit's sum does not overflow.
pub open spec fn deposit_allowed(s: Ledger, c: u16, amount: Amount) -> bool {
    is_active(s, c) ==> decimal_checked_add(s.clients[c].available, amount) is Some
}

/// A deposit as the library performs it.
pub open spec fn deposit_step(s0: Ledger, c: u16, t: u32, amount: Amount, s1: Ledger) -> bool {
    &&& s1 == deposit_spec(s0, c, t, amount)
    &&& amount.is_valid()
    &&& !is_locked(s0, c) ==> add_fact(account_or_new(s0, c).available, amount)
}

// ---------------------------------------------------------------- withdraw

/// A withdrawal: ignored for a missing or locked account; otherwise the transaction is
/// recorded and the account is debited if it has enough available.
pub open spec fn withdraw_spec(s: Ledger, c: u16, t: u32, amount: Amount) -> Ledger {
    if !is_active(s, c) {
        s
    } else {
        let acct = s.clients[c];
        let available = if acct.available.units() >= amount.units() {
            decimal_checked_sub(acct.available, amount).unwrap()
        } else {
            acct.available
        };
        Ledger {
            clients: s.clients.insert(
                c,
                Client { available, held: acct.held, locked: acct.locked },
            ),
            transactions: s.transactions.insert(t, new_record(c, amount)),
        }
    }
}

/// The withdrawal's difference does not overflow.
pub open spec fn withdraw_allowed(s: Ledger, c: u16, amount: Amount) -> bool {
    (is_active(s, c) && s.clients[c].available.units() >= amount.units())
        ==> decimal_checked_sub(s.clients[c].available, amount) is Some
}

/// A withdrawal as the library performs it.
pub open spec fn withdraw_step(s0: Ledger, c: u16, t: u32, amount: Amount, s1: Ledger) -> bool {
    &&& s1 == withdraw_spec(s0, c, t, amount)
    &&& is_active(s0, c) ==> sub_fact(s0.clients[c].available, amount)
}

// ---------------------------------------------------------------- dispute

/// A dispute: moves the transaction's amount from available to held and marks it disputed.
pub open spec fn dispute_spec(s: Ledger, c: u16, t: u32) -> Ledger {
    if !can_dispute(s, c, t) {
        s
    } else {
        let acct = s.clients[c];
        let x = s.transactions[t].amount;
        Ledger {
            clients: s.clients.insert(
                c,
                Client {
                    available: decimal_checked_sub(acct.available, x).unwrap(),
                    held: decimal_checked_add(acct.held, x).unwrap(),
                    locked: acct.locked,
                },
            ),
            transactions: s.transactions.insert(t, flagged(s, t, true)),
        }
    }
}

/// The dispute's sums do not overflow.
pub open spec fn dispute_allowed(s: Ledger, c: u16, t: u32) -> bool {
    can_dispute(s, c, t) ==> {
        &&& decimal_checked_sub(s.clients[c].available, s.transactions[t].amount) is Some
        &&& decimal_checked_add(s.clients[c].held, s.transactions[t].amount) is Some
    }
}

/// A dispute as the library performs it.
pub open spec fn dispute_step(s0: Ledger, c: u16, t: u32, s1: Ledger) -> bool {
    &&& s1 == dispute_spec(s0, c, t)
    &&& can_dispute(s0, c, t) ==> {
        &&& sub_fact(s0.clients[c].available, s0.transactions[t].amount)
        &&& add_fact(s0.clients[c].held, s0.transactions[t].amount)
    }
}

// ---------------------------------------------------------------- resolve

/// A resolve: moves a disputed transaction's amount from held back to available and
/// clears the dispute.
pub open spec fn resolve_spec(s: Ledger, c: u16, t: u32) -> Ledger {
    if !can_settle(s, c, t) {
        s
    } else {
        let acct = s.clients[c];
        let x = s.transactions[t].amount;
        Ledger {
            clients: s.clients.insert(
                c,
                Client {
                    available: decimal_checked_add(acct.available, x).unwrap(),
                    held: decimal_checked_sub(acct.held, x).unwrap(),
                    locked: acct.locked,
                },
            ),
            transactions: s.transactions.insert(t, flagged(s, t, false)),
        }
    }
}

/// The resolve's sums do not overflow.
pub open spec fn resolve_allowed(s: Ledger, c: u16, t: u32) -> bool {
    can_settle(s, c, t) ==> {
        &&& decimal_checked_sub(s.clients[c].held, s.transactions[t].amount) is Some
        &&& decimal_checked_add(s.clients[c].available, s.transactions[t].amount) is Some
    }
}

/// A resolve as the library performs it.
pub open spec fn resolve_step(s0: Ledger, c: u16, t: u32, s1: Ledger) -> bool {
    &&& s1 == resolve_spec(s0, c, t)
    &&& can_settle(s0, c, t) ==> {
        &&& sub_fact(s0.clients[c].held, s0.transactions[t].amount)
        &&& add_fact(s0.clients[c].available, s0.transactions[t].amount)
    }
}

// ---------------------------------------------------------------- chargeback

/// A chargeback: removes a disputed transaction's amount from held, locks the account
/// and clears the dispute.
pub open spec fn chargeback_spec(s: Ledger, c: u16, t: u32) -> Ledger {
    if !can_settle(s, c, t) {
        s
    } else {
        let acct = s.clients[c];
        let x = s.transactions[t].amount;
        Ledger {
            clients: s.clients.insert(
                c,
                Client {
                    available: acct.available,
                    held: decimal_checked_sub(acct.held, x).unwrap(),
                    locked: true,
                },
            ),
            transactions: s.transactions.insert(t, flagged(s, t, false)),
        }
    }
}

/// The chargeback's difference does not overflow.
pub open spec fn chargeback_allowed(s: Ledger, c: u16, t: u32) -> bool {
    can_settle(s, c, t) ==> decimal_checked_sub(s.clients[c].held, s.transactions[t].amount) is Some
}

/// A chargeback as the library performs it.
pub open spec fn chargeback_step(s0: Ledger, c: u16, t: u32, s1: Ledger) -> bool {
    &&& s1 == chargeback_spec(s0, c, t)
    &&& can_settle(s0, c, t) ==> sub_fact(s0.clients[c].held, s0.transactions[t].amount)
}


// ---------------------------------------------------------------- input rows

/// The state with no accounts and no transactions.
pub open spec fn empty_ledger() -> Ledger {
    Ledger { clients: Map::empty(), transactions: Map::empty() }
}

/// What applying one input row does: the operation its type names; a row of any other
/// type changes nothing.
pub open spec fn apply_record(s: Ledger, r: Record) -> Ledger {
    match kind_of(r.kind@) {
        Some(TransactionKind::Deposit) => deposit_spec(s, r.client, r.tx, r.amount),
        Some(TransactionKind::Withdrawal) => withdraw_spec(s, r.client, r.tx, r.amount),
        Some(TransactionKind::Dispute) => dispute_spec(s, r.client, r.tx),
        Some(TransactionKind::Resolve) => resolve_spec(s, r.client, r.tx),
        Some(TransactionKind::Chargeback) => chargeback_spec(s, r.client, r.tx),
        None => s,
    }
}

/// The state after applying the rows `rs` in order, starting from `s`.
pub open spec fn run(s: Ledger, rs: Seq<Record>) -> Ledger
    decreases rs.len(),
{
    if rs.len() == 0 {
        s
    } else {
        apply_record(run(s, rs.drop_last()), rs.last())
    }
}

/// Row `r` is a deposit for client `c`.
pub open spec fn is_deposit_for(r: Record, c: u16) -> bool {
    kind_of(r.kind@) == Some(TransactionKind::Deposit) && r.client == c
}

// ---------------------------------------------------------------- held funds

/// What transaction `k` adds to the held funds of `c`: its amount (in units of `10^-28`)
/// if it is a disputed transaction of `c`, and nothing otherwise.
pub open spec fn disputed_units(txs: Map<u32, Transaction>, c: u16, k: u32) -> int {
    if txs.contains_key(k) && txs[k].client == c && txs[k].disputed {
        txs[k].amount.units()
    } else {
        0
    }
}

/// The sum of `disputed_units` over the transaction ids below `n`.
pub open spec fn disputed_total_below(txs: Map<u32, Transaction>, c: u16, n: nat) -> int
    decreases n,
{
    if n == 0 {
        0
    } else {
        disputed_total_below(txs, c, (n - 1) as nat) + disputed_units(txs, c, (n - 1) as u32)
    }
}

/// Number of transaction ids.
pub open spec fn tx_id_count() -> nat {
    0x1_0000_0000
}

/// The sum of the amounts of all disputed transactions of `c`.
pub open spec fn disputed_total(txs: Map<u32, Transaction>, c: u16) -> int {
    disputed_total_below(txs, c, tx_id_count())
}

/// Every recorded transaction belongs to an account, and every account holds exactly the
/// amounts of its disputed transactions.
pub open spec fn held_matches_disputes(s: Ledger) -> bool {
    &&& forall|t: u32| #![trigger s.transactions[t]]
        s.transactions.contains_key(t) ==> s.clients.contains_key(s.transactions[t].client)
    &&& forall|c: u16| #![trigger s.clients[c]]
        s.clients.contains_key(c) ==> s.clients[c].held.units() == disputed_total(
            s.transactions,
            c,
        )
}

} // verus!
