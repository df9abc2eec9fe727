//! Accounts, transaction records and input rows.
use vstd::prelude::*;
use crate::amount::Amount;

verus! {

/// One input row: a transaction of some kind for a client.
#[derive(Debug)]
pub struct Record {
    /// `"deposit"`, `"withdrawal"`, `"dispute"`, `"resolve"` or `"chargeback"`.
    pub kind: String,
    pub client: u16,
    pub tx: u32,
    pub amount: Amount,
}

/// The state of a client's account.
#[derive(Clone, Copy, Debug)]
pub struct Client {
    pub available: Amount,
    pub held: Amount,
    pub locked: bool,
}

impl Client {
    /// A fresh account: nothing available, nothing held, not locked.
    pub open spec fn empty() -> Client {
        Client { available: Amount::zero_spec(), held: Amount::zero_spec(), locked: false }
    }

    /// `available + held`, or `None` where that sum overflows.
    pub fn total(&self) -> (r: Option<Amount>)
        ensures
            r == crate::amount::decimal_checked_add(self.available, self.held),
            crate::amount::add_fact(self.available, self.held),
    {
        self.available.checked_add(self.held)
    }
}

impl Default for Client {
    fn default() -> (c: Client)
        ensures
            c == Client::empty(),
    {
        Client { available: Amount::zero(), held: Amount::zero(), locked: false }
    }
}

/// A recorded deposit or withdrawal.
#[derive(Clone, Copy, Debug)]
pub struct Transaction {
    pub client: u16,
    pub amount: Amount,
    pub disputed: bool,
}

/// The kinds of rows the engine acts on.
#[derive(Clone, Copy, Debug, PartialEq, Eq, Structural)]
pub enum TransactionKind {
    Deposit,
    Withdrawal,
    Dispute,
    Resolve,
    Chargeback,
}

/// The kind that a row's type field names, if any.
pub open spec fn kind_of(s: Seq<char>) -> Option<TransactionKind> {
    if s == "deposit"@ {
        Some(TransactionKind::Deposit)
    } else if s == "withdrawal"@ {
        Some(TransactionKind::Withdrawal)
    } else if s == "dispute"@ {
        Some(TransactionKind::Dispute)
    } else if s == "resolve"@ {
        Some(TransactionKind::Resolve)
    } else if s == "chargeback"@ {
        Some(TransactionKind::Chargeback)
    } else {
        None
    }
}

/// Reads a row's type field.
pub fn parse_kind(s: &String) -> (r: Option<TransactionKind>)
    ensures
        r == kind_of(s@),
{
    if *s == "deposit".to_owned() {
        Some(TransactionKind::Deposit)
    } else if *s == "withdrawal".to_owned() {
        Some(TransactionKind::Withdrawal)
    } else if *s == "dispute".to_owned() {
        Some(TransactionKind::Dispute)
    } else if *s == "resolve".to_owned() {
        Some(TransactionKind::Resolve)
    } else if *s == "chargeback".to_owned() {
        Some(TransactionKind::Chargeback)
    } else {
        None
    }
}

} // verus!
