//! The stateful engine: accounts and recorded transactions, changed one row at a time.
use std::collections::HashMap;
use vstd::prelude::*;
use crate::amount::Amount;
use crate::ledger::{
    Ledger, can_dispute, can_settle, deposit_allowed, deposit_step, withdraw_allowed,
    withdraw_step, dispute_allowed, dispute_step, resolve_allowed, resolve_step,
    chargeback_allowed, chargeback_step,
};
use crate::types::{Client, Record, Transaction, TransactionKind, kind_of, parse_kind};

verus! {

broadcast use vstd::std_specs::hash::group_hash_axioms;

/// Accounts by client id and recorded deposits and withdrawals by transaction id.
pub struct Handler {
    pub clients: HashMap<u16, Client>,
    pub transactions: HashMap<u32, Transaction>,
}

impl View for Handler {
    type V = Ledger;

    open spec fn view(&self) -> Ledger {
        Ledger { clients: self.clients@, transactions: self.transactions@ }
    }
}

/// A row can be applied without an overflow.
pub open spec fn record_allowed(s: Ledger, r: Record) -> bool {
    match kind_of(r.kind@) {
        Some(TransactionKind::Deposit) => deposit_allowed(s, r.client, r.amount),
        Some(TransactionKind::Withdrawal) => withdraw_allowed(s, r.client, r.amount),
        Some(TransactionKind::Dispute) => dispute_allowed(s, r.client, r.tx),
        Some(TransactionKind::Resolve) => resolve_allowed(s, r.client, r.tx),
        Some(TransactionKind::Chargeback) => chargeback_allowed(s, r.client, r.tx),
        None => true,
    }
}

/// What applying a row does: the operation its type names; a row of another type is
/// ignored.
pub open spec fn record_step(s0: Ledger, r: Record, s1: Ledger) -> bool {
    match kind_of(r.kind@) {
        Some(TransactionKind::Deposit) => deposit_step(s0, r.client, r.tx, r.amount, s1),
        Some(TransactionKind::Withdrawal) => withdraw_step(s0, r.client, r.tx, r.amount, s1),
        Some(TransactionKind::Dispute) => dispute_step(s0, r.client, r.tx, s1),
        Some(TransactionKind::Resolve) => resolve_step(s0, r.client, r.tx, s1),
        Some(TransactionKind::Chargeback) => chargeback_step(s0, r.client, r.tx, s1),
        None => s1 == s0,
    }
}

impl Handler {
    /// An engine with no accounts and no transactions.
    pub fn new() -> (h: Handler)
        ensures
            h@.clients == Map::<u16, Client>::empty(),
            h@.transactions == Map::<u32, Transaction>::empty(),
    {
        Handler { clients: HashMap::new(), transactions: HashMap::new() }
    }

    /// The accounts, by client id.
    pub fn get_clients(&self) -> (r: &HashMap<u16, Client>)
        ensures
            r@ == self@.clients,
    {
        &self.clients
    }

    /// Credits `amount` to `client_id`, creating the account if needed, and records the
    /// transaction; a locked account is left alone and nothing is recorded.
    pub fn deposit(&mut self, client_id: u16, tx: u32, amount: Amount)
        requires
            deposit_allowed(old(self)@, client_id, amount),
        ensures
            deposit_step(old(self)@, client_id, tx, amount, final(self)@),
    {
        proof {
            use_type_invariant(&amount);
        }
        let acct = match self.clients.get(&client_id) {
            Some(c) => *c,
            None => Client::default(),
        };
        if acct.locked {
            return;
        }
        proof {
            if !self@.clients.contains_key(client_id) {
                Amount::lemma_zero_adds_exactly(amount);
            }
        }
        let available = acct.available.checked_add(amount).unwrap();
        self.clients.insert(client_id, Client { available, held: acct.held, locked: acct.locked });
        self.transactions.insert(tx, Transaction { client: client_id, amount, disputed: false });
    }

    /// Debits `amount` from `client_id` if enough is available, and records the transaction
    /// either way; a missing or locked account is left alone and nothing is recorded.
    pub fn withdraw(&mut self, client_id: u16, tx: u32, amount: Amount)
        requires
            withdraw_allowed(old(self)@, client_id, amount),
        ensures
            withdraw_step(old(self)@, client_id, tx, amount, final(self)@),
    {
        let acct = match self.clients.get(&client_id) {
            Some(c) => *c,
            None => {
                return;
            },
        };
        if acct.locked {
            return;
        }
        let ghost s0 = self@;
        let sub = acct.available.checked_sub(amount);
        if acct.available.at_least(&amount) {
            let available = sub.unwrap();
            self.clients.insert(
                client_id,
                Client { available, held: acct.held, locked: acct.locked },
            );
        } else {
            assert(s0.clients.insert(client_id, acct) =~= s0.clients);
        }
        self.transactions.insert(tx, Transaction { client: client_id, amount, disputed: false });
    }

    /// Looks up transaction `tx` as recorded for `client_id` with dispute flag `disputed`,
    /// and the account, which must exist and not be locked.
    fn settle_target(&self, client_id: u16, tx: u32, disputed: bool) -> (r: Option<
        (Client, Transaction),
    >)
        ensures
            r is Some <==> (if disputed {
                can_settle(self@, client_id, tx)
            } else {
                can_dispute(self@, client_id, tx)
            }),
            r matches Some((c, t)) ==> c == self@.clients[client_id] && t
                == self@.transactions[tx],
    {
        let t = match self.transactions.get(&tx) {
            Some(t) => *t,
            None => {
                return None;
            },
        };
        if t.client != client_id || t.disputed != disputed {
            return None;
        }
        let c = match self.clients.get(&client_id) {
            Some(c) => *c,
            None => {
                return None;
            },
        };
        if c.locked {
            return None;
        }
        Some((c, t))
    }

    /// Moves the amount of transaction `tx` from available to held and marks it disputed;
    /// ignored unless `tx` is an undisputed transaction of `client_id` and the account
    /// exists and is not locked.
    pub fn dispute(&mut self, client_id: u16, tx: u32)
        requires
            dispute_allowed(old(self)@, client_id, tx),
        ensures
            dispute_step(old(self)@, client_id, tx, final(self)@),
    {
        let (acct, t) = match self.settle_target(client_id, tx, false) {
            Some(p) => p,
            None => {
                return;
            },
        };
        let available = acct.available.checked_sub(t.amount).unwrap();
        let held = acct.held.checked_add(t.amount).unwrap();
        self.clients.insert(client_id, Client { available, held, locked: acct.locked });
        self.transactions.insert(tx, Transaction { client: t.client, amount: t.amount, disputed: true });
    }

    /// Moves the amount of disputed transaction `tx` from held back to available and clears
    /// the dispute; ignored unless `tx` is a disputed transaction of `client_id` and the
    /// account exists and is not locked.
    pub fn resolve(&mut self, client_id: u16, tx: u32)
        requires
            resolve_allowed(old(self)@, client_id, tx),
        ensures
            resolve_step(old(self)@, client_id, tx, final(self)@),
    {
        let (acct, t) = match self.settle_target(client_id, tx, true) {
            Some(p) => p,
            None => {
                return;
            },
        };
        let held = acct.held.checked_sub(t.amount).unwrap();
        let available = acct.available.checked_add(t.amount).unwrap();
        self.clients.insert(client_id, Client { available, held, locked: acct.locked });
        self.transactions.insert(tx, Transaction { client: t.client, amount: t.amount, disputed: false });
    }

    /// Removes the amount of disputed transaction `tx` from held, locks the account and
    /// clears the dispute; ignored unless `tx` is a disputed transaction of `client_id` and
    /// the account exists and is not locked.
    pub fn chargeback(&mut self, client_id: u16, tx: u32)
        requires
            chargeback_allowed(old(self)@, client_id, tx),
        ensures
            chargeback_step(old(self)@, client_id, tx, final(self)@),
    {
        let (acct, t) = match self.settle_target(client_id, tx, true) {
            Some(p) => p,
            None => {
                return;
            },
        };
        let held = acct.held.checked_sub(t.amount).unwrap();
        self.clients.insert(client_id, Client { available: acct.available, held, locked: true });
        self.transactions.insert(tx, Transaction { client: t.client, amount: t.amount, disputed: false });
    }

    /// Whether a deposit would compute its sum without overflow.
    fn deposit_fits(&self, client_id: u16, amount: Amount) -> (b: bool)
        ensures
            b == deposit_allowed(self@, client_id, amount),
    {
        match self.clients.get(&client_id) {
            Some(c) => c.locked || c.available.checked_add(amount).is_some(),
            None => true,
        }
    }

    /// Whether a withdrawal would compute its difference without overflow.
    fn withdraw_fits(&self, client_id: u16, amount: Amount) -> (b: bool)
        ensures
            b == withdraw_allowed(self@, client_id, amount),
    {
        match self.clients.get(&client_id) {
            Some(c) => c.locked || !c.available.at_least(&amount) || c.available.checked_sub(
                amount,
            ).is_some(),
            None => true,
        }
    }

    /// Whether a dispute would compute its sums without overflow.
    fn dispute_fits(&self, client_id: u16, tx: u32) -> (b: bool)
        ensures
            b == dispute_allowed(self@, client_id, tx),
    {
        match self.settle_target(client_id, tx, false) {
            Some((c, t)) => c.available.checked_sub(t.amount).is_some() && c.held.checked_add(
                t.amount,
            ).is_some(),
            None => true,
        }
    }

    /// Whether a resolve would compute its sums without overflow.
    fn resolve_fits(&self, client_id: u16, tx: u32) -> (b: bool)
        ensures
            b == resolve_allowed(self@, client_id, tx),
    {
        match self.settle_target(client_id, tx, true) {
            Some((c, t)) => c.held.checked_sub(t.amount).is_some() && c.available.checked_add(
                t.amount,
            ).is_some(),
            None => true,
        }
    }

    /// Whether a chargeback would compute its difference without overflow.
    fn chargeback_fits(&self, client_id: u16, tx: u32) -> (b: bool)
        ensures
            b == chargeback_allowed(self@, client_id, tx),
    {
        match self.settle_target(client_id, tx, true) {
            Some((c, t)) => c.held.checked_sub(t.amount).is_some(),
            None => true,
        }
    }

    /// Applies one input row: the operation that its type names, with its client,
    /// transaction and amount; a row of any other type is ignored. Where the operation's
    /// arithmetic would overflow, nothing changes and the result is `false`.
    pub fn process(&mut self, record: &Record) -> (applied: bool)
        ensures
            applied == record_allowed(old(self)@, *record),
            applied ==> record_step(old(self)@, *record, final(self)@),
            !applied ==> final(self)@ == old(self)@,
            !applied ==> crate::outcomes::row_overflows(old(self)@, *record),
    {
        match parse_kind(&record.kind) {
            Some(TransactionKind::Deposit) => {
                if !self.deposit_fits(record.client, record.amount) {
                    return false;
                }
                self.deposit(record.client, record.tx, record.amount);
            },
            Some(TransactionKind::Withdrawal) => {
                if !self.withdraw_fits(record.client, record.amount) {
                    return false;
                }
                self.withdraw(record.client, record.tx, record.amount);
            },
            Some(TransactionKind::Dispute) => {
                if !self.dispute_fits(record.client, record.tx) {
                    return false;
                }
                self.dispute(record.client, record.tx);
            },
            Some(TransactionKind::Resolve) => {
                if !self.resolve_fits(record.client, record.tx) {
                    return false;
                }
                self.resolve(record.client, record.tx);
            },
            Some(TransactionKind::Chargeback) => {
                if !self.chargeback_fits(record.client, record.tx) {
                    return false;
                }
                self.chargeback(record.client, record.tx);
            },
            None => {},
        }
        true
    }
}

} // verus!
