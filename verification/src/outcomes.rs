//! What each operation, and each kind of input row, does, stated directly over the
//! accounts and records before and after: which conditions make it take effect, how the
//! balances move, what happens to the dispute flag and the lock, and that nothing else
//! changes.
use vstd::prelude::*;
use crate::amount::{Amount, adds_exactly, subs_exactly, decimal_checked_add, decimal_checked_sub};
use crate::ledger::{Ledger, deposit_step, withdraw_step, dispute_step, resolve_step, chargeback_step};
use crate::handler::record_step;
use crate::types::Transaction;

verus! {

/// Transaction `t` is recorded for client `c` with dispute flag `flag`, and `c` has an
/// account that is not locked.
pub open spec fn recorded_for_open_account(s: Ledger, c: u16, t: u32, flag: bool) -> bool {
    &&& s.transactions.contains_key(t)
    &&& s.transactions[t].client == c
    &&& s.transactions[t].disputed == flag
    &&& s.clients.contains_key(c)
    &&& !s.clients[c].locked
}

/// Every account but that of `c`, and every record but that of `t`, is as it was, and no
/// other account or record appears or disappears.
pub open spec fn only_touches(s0: Ledger, s1: Ledger, c: u16, t: u32) -> bool {
    &&& s1.clients.remove(c) == s0.clients.remove(c)
    &&& s1.transactions.remove(t) == s0.transactions.remove(t)
}

/// What a deposit of `amount` to `c` under id `t` leaves. A locked account changes
/// nothing. Otherwise the account exists afterwards, unlocked, with its held funds as they
/// were (none for a new account), credited by the amount (a new account holds exactly the
/// amount), and `t` records an undisputed transaction of `c` for the amount.
pub open spec fn deposit_outcome(s0: Ledger, c: u16, t: u32, amount: Amount, s1: Ledger) -> bool {
    if s0.clients.contains_key(c) && s0.clients[c].locked {
        s1 == s0
    } else {
        &&& s1.clients.remove(c) == s0.clients.remove(c)
        &&& s1.transactions == s0.transactions.insert(
            t,
            Transaction { client: c, amount, disputed: false },
        )
        &&& s1.clients.contains_key(c)
        &&& !s1.clients[c].locked
        &&& s0.clients.contains_key(c) ==> s1.clients[c].held == s0.clients[c].held
        &&& !s0.clients.contains_key(c) ==> s1.clients[c].held.units() == 0
        &&& !s0.clients.contains_key(c) ==> s1.clients[c].available == amount
        &&& (s0.clients.contains_key(c) && adds_exactly(s0.clients[c].available, amount))
            ==> s1.clients[c].available.units() == s0.clients[c].available.units()
            + amount.units()
    }
}

/// What a withdrawal of `amount` from `c` under id `t` leaves. A missing or locked account
/// changes nothing. Otherwise `t` records an undisputed transaction of `c` for the amount,
/// held and the lock stay, and available drops by the amount if it was at least the
/// amount, and stays otherwise.
pub open spec fn withdraw_outcome(s0: Ledger, c: u16, t: u32, amount: Amount, s1: Ledger) -> bool {
    if !(s0.clients.contains_key(c) && !s0.clients[c].locked) {
        s1 == s0
    } else {
        &&& s1.clients.remove(c) == s0.clients.remove(c)
        &&& s1.transactions == s0.transactions.insert(
            t,
            Transaction { client: c, amount, disputed: false },
        )
        &&& s1.clients.contains_key(c)
        &&& !s1.clients[c].locked
        &&& s1.clients[c].held == s0.clients[c].held
        &&& s0.clients[c].available.units() < amount.units() ==> s1.clients[c]
            == s0.clients[c]
        &&& (s0.clients[c].available.units() >= amount.units() && subs_exactly(
            s0.clients[c].available,
            amount,
        )) ==> s1.clients[c].available.units() == s0.clients[c].available.units()
            - amount.units()
    }
}

/// What a dispute of `t` by `c` leaves. Unless `t` is an undisputed transaction of `c` and
/// `c` has an unlocked account, nothing changes. Otherwise, whatever the balance, the
/// amount of `t` moves from available to held, `t` is marked disputed, and the account
/// stays unlocked.
pub open spec fn dispute_outcome(s0: Ledger, c: u16, t: u32, s1: Ledger) -> bool {
    if !recorded_for_open_account(s0, c, t, false) {
        s1 == s0
    } else {
        let x = s0.transactions[t].amount;
        &&& only_touches(s0, s1, c, t)
        &&& s1.clients.contains_key(c)
        &&& s1.transactions.contains_key(t)
        &&& s1.transactions[t] == Transaction { client: c, amount: x, disputed: true }
        &&& !s1.clients[c].locked
        &&& subs_exactly(s0.clients[c].available, x) ==> s1.clients[c].available.units()
            == s0.clients[c].available.units() - x.units()
        &&& adds_exactly(s0.clients[c].held, x) ==> s1.clients[c].held.units()
            == s0.clients[c].held.units() + x.units()
    }
}

/// What a resolve of `t` by `c` leaves. Unless `t` is a disputed transaction of `c` and `c`
/// has an unlocked account, nothing changes. Otherwise the amount of `t` moves from held
/// back to available, `t` is no longer disputed, and the account stays unlocked.
pub open spec fn resolve_outcome(s0: Ledger, c: u16, t: u32, s1: Ledger) -> bool {
    if !recorded_for_open_account(s0, c, t, true) {
        s1 == s0
    } else {
        let x = s0.transactions[t].amount;
        &&& only_touches(s0, s1, c, t)
        &&& s1.clients.contains_key(c)
        &&& s1.transactions.contains_key(t)
        &&& s1.transactions[t] == Transaction { client: c, amount: x, disputed: false }
        &&& !s1.clients[c].locked
        &&& adds_exactly(s0.clients[c].available, x) ==> s1.clients[c].available.units()
            == s0.clients[c].available.units() + x.units()
        &&& subs_exactly(s0.clients[c].held, x) ==> s1.clients[c].held.units()
            == s0.clients[c].held.units() - x.units()
    }
}

/// What a chargeback of `t` by `c` leaves. Unless `t` is a disputed transaction of `c` and
/// `c` has an unlocked account, nothing changes. Otherwise the amount of `t` leaves held,
/// available stays as it was, the account is locked and `t` is no longer disputed.
pub open spec fn chargeback_outcome(s0: Ledger, c: u16, t: u32, s1: Ledger) -> bool {
    if !recorded_for_open_account(s0, c, t, true) {
        s1 == s0
    } else {
        let x = s0.transactions[t].amount;
        &&& only_touches(s0, s1, c, t)
        &&& s1.clients.contains_key(c)
        &&& s1.transactions.contains_key(t)
        &&& s1.transactions[t] == Transaction { client: c, amount: x, disputed: false }
        &&& s1.clients[c].locked
        &&& s1.clients[c].available == s0.clients[c].available
        &&& subs_exactly(s0.clients[c].held, x) ==> s1.clients[c].held.units()
            == s0.clients[c].held.units() - x.units()
    }
}

/// Applying row `r` would overflow: the operation its type names takes effect and one of
/// the sums or differences it computes has no decimal result.
pub open spec fn row_overflows(s: Ledger, r: crate::types::Record) -> bool {
    let c = r.client;
    let t = r.tx;
    ||| r.kind@ == "deposit"@ && s.clients.contains_key(c) && !s.clients[c].locked
        && decimal_checked_add(s.clients[c].available, r.amount) is None
    ||| r.kind@ == "withdrawal"@ && s.clients.contains_key(c) && !s.clients[c].locked
        && s.clients[c].available.units() >= r.amount.units() && decimal_checked_sub(
        s.clients[c].available,
        r.amount,
    ) is None
    ||| r.kind@ == "dispute"@ && recorded_for_open_account(s, c, t, false) && (decimal_checked_sub(
        s.clients[c].available,
        s.transactions[t].amount,
    ) is None || decimal_checked_add(s.clients[c].held, s.transactions[t].amount) is None)
    ||| r.kind@ == "resolve"@ && recorded_for_open_account(s, c, t, true) && (decimal_checked_sub(
        s.clients[c].held,
        s.transactions[t].amount,
    ) is None || decimal_checked_add(s.clients[c].available, s.transactions[t].amount) is None)
    ||| r.kind@ == "chargeback"@ && recorded_for_open_account(s, c, t, true) && decimal_checked_sub(
        s.clients[c].held,
        s.transactions[t].amount,
    ) is None
}

/// `Handler::deposit` does what `deposit_outcome` describes.
pub proof fn law_deposit(s0: Ledger, c: u16, t: u32, amount: Amount, s1: Ledger)
    requires
        deposit_step(s0, c, t, amount, s1),
    ensures
        deposit_outcome(s0, c, t, amount, s1),
{
    if !(s0.clients.contains_key(c) && s0.clients[c].locked) {
        Amount::lemma_zero();
        if !s0.clients.contains_key(c) {
            Amount::lemma_zero_adds_exactly(amount);
        }
        assert(s1.clients.remove(c) =~= s0.clients.remove(c));
    }
}

/// `Handler::withdraw` does what `withdraw_outcome` describes.
pub proof fn law_withdraw(s0: Ledger, c: u16, t: u32, amount: Amount, s1: Ledger)
    requires
        withdraw_step(s0, c, t, amount, s1),
    ensures
        withdraw_outcome(s0, c, t, amount, s1),
{
    if s0.clients.contains_key(c) && !s0.clients[c].locked {
        assert(s1.clients.remove(c) =~= s0.clients.remove(c));
        if s0.clients[c].available.units() < amount.units() {
            assert(s1.clients[c] == s0.clients[c]);
        }
    }
}

/// `Handler::dispute` does what `dispute_outcome` describes.
pub proof fn law_dispute(s0: Ledger, c: u16, t: u32, s1: Ledger)
    requires
        dispute_step(s0, c, t, s1),
    ensures
        dispute_outcome(s0, c, t, s1),
{
    if recorded_for_open_account(s0, c, t, false) {
        assert(s1.clients.remove(c) =~= s0.clients.remove(c));
        assert(s1.transactions.remove(t) =~= s0.transactions.remove(t));
    }
}

/// `Handler::resolve` does what `resolve_outcome` describes.
pub proof fn law_resolve(s0: Ledger, c: u16, t: u32, s1: Ledger)
    requires
        resolve_step(s0, c, t, s1),
    ensures
        resolve_outcome(s0, c, t, s1),
{
    if recorded_for_open_account(s0, c, t, true) {
        assert(s1.clients.remove(c) =~= s0.clients.remove(c));
        assert(s1.transactions.remove(t) =~= s0.transactions.remove(t));
    }
}

/// `Handler::chargeback` does what `chargeback_outcome` describes.
pub proof fn law_chargeback(s0: Ledger, c: u16, t: u32, s1: Ledger)
    requires
        chargeback_step(s0, c, t, s1),
    ensures
        chargeback_outcome(s0, c, t, s1),
{
    if recorded_for_open_account(s0, c, t, true) {
        assert(s1.clients.remove(c) =~= s0.clients.remove(c));
        assert(s1.transactions.remove(t) =~= s0.transactions.remove(t));
    }
}

/// A row that `Handler::process` applies does what its type field names: `"deposit"`,
/// `"withdrawal"`, `"dispute"`, `"resolve"` and `"chargeback"` act on the row's client,
/// transaction id and amount as the operation of that name does; a row of any other type
/// changes nothing.
pub proof fn law_rows(s0: Ledger, r: crate::types::Record, s1: Ledger)
    requires
        record_step(s0, r, s1),
    ensures
        r.kind@ == "deposit"@ ==> deposit_outcome(s0, r.client, r.tx, r.amount, s1),
        r.kind@ == "withdrawal"@ ==> withdraw_outcome(s0, r.client, r.tx, r.amount, s1),
        r.kind@ == "dispute"@ ==> dispute_outcome(s0, r.client, r.tx, s1),
        r.kind@ == "resolve"@ ==> resolve_outcome(s0, r.client, r.tx, s1),
        r.kind@ == "chargeback"@ ==> chargeback_outcome(s0, r.client, r.tx, s1),
        (r.kind@ != "deposit"@ && r.kind@ != "withdrawal"@ && r.kind@ != "dispute"@ && r.kind@
            != "resolve"@ && r.kind@ != "chargeback"@) ==> s1 == s0,
{
    reveal_strlit("deposit");
    reveal_strlit("withdrawal");
    reveal_strlit("dispute");
    reveal_strlit("resolve");
    reveal_strlit("chargeback");
    assert("withdrawal"@.len() != "deposit"@.len());
    assert("dispute"@[1] != "deposit"@[1]);
    assert("resolve"@[0] != "deposit"@[0]);
    assert("resolve"@[0] != "dispute"@[0]);
    assert("resolve"@.len() != "withdrawal"@.len());
    assert("dispute"@.len() != "withdrawal"@.len());
    assert("chargeback"@[0] != "withdrawal"@[0]);
    assert("chargeback"@.len() != "deposit"@.len());
    if r.kind@ == "deposit"@ {
        law_deposit(s0, r.client, r.tx, r.amount, s1);
    } else if r.kind@ == "withdrawal"@ {
        law_withdraw(s0, r.client, r.tx, r.amount, s1);
    } else if r.kind@ == "dispute"@ {
        law_dispute(s0, r.client, r.tx, s1);
    } else if r.kind@ == "resolve"@ {
        law_resolve(s0, r.client, r.tx, s1);
    } else if r.kind@ == "chargeback"@ {
        law_chargeback(s0, r.client, r.tx, s1);
    }
}

} // verus!
