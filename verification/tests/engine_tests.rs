use payments_engine::amount::Amount;
use payments_engine::handler::Handler;
use payments_engine::types::{parse_kind, Client, Record, Transaction, TransactionKind};

fn d(units: i64, scale: u32) -> Amount {
    Amount::new(units, scale)
}

fn row(kind: &str, client: u16, tx: u32, amount: Amount) -> Record {
    Record { kind: kind.to_string(), client, tx, amount }
}

fn max_amount() -> Amount {
    Amount::from_parts(79_228_162_514_264_337_593_543_950_335i128, 0).unwrap()
}

#[test]
fn amount_addition_aligns_scales() {
    let sum = d(15, 1).checked_add(d(225, 2)).unwrap();
    assert_eq!(sum.mantissa(), 375);
    assert_eq!(sum.scale(), 2);
    assert_eq!(sum, d(375, 2));
}

#[test]
fn amount_subtraction_is_exact() {
    let diff = d(1, 0).checked_sub(d(3, 1)).unwrap();
    assert_eq!(diff, d(7, 1));
    let neg = d(3, 1).checked_sub(d(1, 0)).unwrap();
    assert_eq!(neg, d(-7, 1));
}

#[test]
fn amount_overflow_gives_none() {
    assert!(max_amount().checked_add(d(1, 0)).is_none());
    assert!(max_amount().checked_add(d(0, 0)).is_some());
    assert!(max_amount().checked_sub(d(-1, 0)).is_none());
}

#[test]
fn amount_equality_is_by_value() {
    assert_eq!(d(10, 1), d(1000, 3));
    assert_ne!(d(10, 1), d(1001, 3));
    assert_eq!(d(0, 0), d(0, 5));
}

#[test]
fn amount_comparison_is_by_value() {
    assert!(d(10, 1).at_least(&d(100, 2)));
    assert!(d(11, 1).at_least(&d(100, 2)));
    assert!(!d(99, 2).at_least(&d(1, 0)));
    assert!(d(-1, 0).at_least(&d(-2, 0)));
}

#[test]
fn amount_from_parts_checks_range() {
    assert!(Amount::from_parts(1, 28).is_some());
    assert!(Amount::from_parts(1, 29).is_none());
    assert!(Amount::from_parts(79_228_162_514_264_337_593_543_950_336i128, 0).is_none());
    assert!(Amount::from_parts(-79_228_162_514_264_337_593_543_950_335i128, 3).is_some());
    let a = Amount::from_parts(-42, 3).unwrap();
    assert_eq!(a.mantissa(), -42);
    assert_eq!(a.scale(), 3);
}

#[test]
fn client_total_is_available_plus_held() {
    let c = Client { available: d(150, 2), held: d(25, 1), locked: false };
    assert_eq!(c.total(), Some(d(400, 2)));
    let big = Client { available: max_amount(), held: d(1, 0), locked: false };
    assert_eq!(big.total(), None);
}

#[test]
fn default_client_is_empty() {
    let c = Client::default();
    assert_eq!(c.available, d(0, 0));
    assert_eq!(c.held, d(0, 0));
    assert!(!c.locked);
}

#[test]
fn parse_kind_reads_the_five_types() {
    assert_eq!(parse_kind(&"deposit".to_string()), Some(TransactionKind::Deposit));
    assert_eq!(parse_kind(&"withdrawal".to_string()), Some(TransactionKind::Withdrawal));
    assert_eq!(parse_kind(&"dispute".to_string()), Some(TransactionKind::Dispute));
    assert_eq!(parse_kind(&"resolve".to_string()), Some(TransactionKind::Resolve));
    assert_eq!(parse_kind(&"chargeback".to_string()), Some(TransactionKind::Chargeback));
    assert_eq!(parse_kind(&"withdraw".to_string()), None);
    assert_eq!(parse_kind(&"Deposit".to_string()), None);
    assert_eq!(parse_kind(&"".to_string()), None);
}

#[test]
fn process_runs_a_whole_history() {
    let mut h = Handler::new();
    assert!(h.process(&row("deposit", 1, 1, d(100, 1))));
    assert!(h.process(&row("deposit", 2, 2, d(20, 1))));
    assert!(h.process(&row("deposit", 1, 3, d(20, 1))));
    assert!(h.process(&row("withdrawal", 1, 4, d(15, 1))));
    assert!(h.process(&row("withdrawal", 2, 5, d(30, 1))));
    let c1 = *h.get_clients().get(&1).unwrap();
    assert_eq!(c1.available, d(105, 1));
    assert_eq!(c1.held, d(0, 0));
    let c2 = *h.get_clients().get(&2).unwrap();
    assert_eq!(c2.available, d(20, 1));
    assert_eq!(h.get_clients().len(), 2);
}

#[test]
fn process_ignores_unknown_types() {
    let mut h = Handler::new();
    assert!(h.process(&row("transfer", 1, 1, d(100, 1))));
    assert!(h.get_clients().is_empty());
    assert!(h.transactions.is_empty());
}

#[test]
fn process_refuses_an_overflowing_deposit() {
    let mut h = Handler::new();
    assert!(h.process(&row("deposit", 1, 1, max_amount())));
    assert!(!h.process(&row("deposit", 1, 2, d(1, 0))));
    assert_eq!(h.clients.get(&1).unwrap().available, max_amount());
    assert!(!h.transactions.contains_key(&2));
}

#[test]
fn process_refuses_an_overflowing_dispute() {
    let mut h = Handler::new();
    h.clients.insert(1, Client { available: d(5, 0), held: max_amount(), locked: false });
    h.transactions.insert(7, Transaction { client: 1, amount: d(5, 0), disputed: false });
    assert!(!h.process(&row("dispute", 1, 7, d(0, 0))));
    assert!(!h.transactions.get(&7).unwrap().disputed);
    assert_eq!(h.clients.get(&1).unwrap().available, d(5, 0));
}

#[test]
fn dispute_then_resolve_restores_balances() {
    let mut h = Handler::new();
    h.deposit(1, 1, d(1250, 2));
    h.deposit(1, 2, d(3, 1));
    h.dispute(1, 1);
    let mid = *h.clients.get(&1).unwrap();
    assert_eq!(mid.available, d(3, 1));
    assert_eq!(mid.held, d(1250, 2));
    assert_eq!(mid.total(), Some(d(1280, 2)));
    h.resolve(1, 1);
    let c = *h.clients.get(&1).unwrap();
    assert_eq!(c.available, d(1280, 2));
    assert_eq!(c.held, d(0, 0));
    assert!(!c.locked);
    assert!(!h.transactions.get(&1).unwrap().disputed);
}

#[test]
fn dispute_then_chargeback_removes_the_amount_and_locks() {
    let mut h = Handler::new();
    h.deposit(1, 1, d(10, 0));
    h.deposit(1, 2, d(5, 0));
    h.dispute(1, 2);
    h.chargeback(1, 2);
    let c = *h.clients.get(&1).unwrap();
    assert_eq!(c.available, d(10, 0));
    assert_eq!(c.held, d(0, 0));
    assert!(c.locked);
    assert!(!h.transactions.get(&2).unwrap().disputed);
}

#[test]
fn second_dispute_changes_nothing() {
    let mut h = Handler::new();
    h.deposit(1, 1, d(10, 0));
    h.dispute(1, 1);
    h.dispute(1, 1);
    let c = *h.clients.get(&1).unwrap();
    assert_eq!(c.available, d(0, 0));
    assert_eq!(c.held, d(10, 0));
}

#[test]
fn locked_account_ignores_every_operation() {
    let mut h = Handler::new();
    h.deposit(1, 1, d(10, 0));
    h.deposit(1, 2, d(4, 0));
    h.dispute(1, 1);
    h.dispute(1, 2);
    h.chargeback(1, 1);
    let before = *h.clients.get(&1).unwrap();
    assert!(before.locked);
    h.deposit(1, 3, d(1, 0));
    h.withdraw(1, 4, d(1, 0));
    h.resolve(1, 2);
    h.chargeback(1, 2);
    let after = *h.clients.get(&1).unwrap();
    assert!(after.locked);
    assert_eq!(after.available, before.available);
    assert_eq!(after.held, before.held);
    assert!(h.transactions.get(&2).unwrap().disputed);
    assert!(!h.transactions.contains_key(&3));
    assert!(!h.transactions.contains_key(&4));
}

#[test]
fn operations_leave_other_clients_alone() {
    let mut h = Handler::new();
    h.deposit(1, 1, d(10, 0));
    h.deposit(2, 2, d(7, 0));
    h.dispute(1, 1);
    h.withdraw(1, 3, d(100, 0));
    let c2 = *h.clients.get(&2).unwrap();
    assert_eq!(c2.available, d(7, 0));
    assert_eq!(c2.held, d(0, 0));
    assert!(!c2.locked);
}

#[test]
fn deposit_overwrites_a_transaction_with_the_same_id() {
    let mut h = Handler::new();
    h.deposit(1, 1, d(10, 0));
    h.deposit(2, 1, d(3, 0));
    let t = *h.transactions.get(&1).unwrap();
    assert_eq!(t.client, 2);
    assert_eq!(t.amount, d(3, 0));
    assert!(!t.disputed);
}

#[test]
fn withdraw_of_exactly_the_available_amount_empties_the_account() {
    let mut h = Handler::new();
    h.deposit(1, 1, d(500, 2));
    h.withdraw(1, 2, d(5, 0));
    assert_eq!(h.clients.get(&1).unwrap().available, d(0, 0));
}

#[test]
fn exact_sums_keep_the_larger_scale_or_pass_zero_through() {
    let r = d(0, 3).checked_add(d(150, 2)).unwrap();
    assert_eq!((r.mantissa(), r.scale()), (150, 2));
    let r = d(15, 1).checked_add(d(2, 0)).unwrap();
    assert_eq!((r.mantissa(), r.scale()), (35, 1));
    let r = d(25, 1).checked_add(d(0, 4)).unwrap();
    assert_eq!((r.mantissa(), r.scale()), (25, 1));
    let r = d(0, 0).checked_sub(d(150, 2)).unwrap();
    assert_eq!((r.mantissa(), r.scale()), (-150, 2));
    let r = d(0, 1).checked_sub(d(0, 3)).unwrap();
    assert_eq!((r.mantissa(), r.scale()), (0, 3));
    let r = d(25, 1).checked_sub(d(0, 4)).unwrap();
    assert_eq!((r.mantissa(), r.scale()), (25, 1));
    let r = d(3, 0).checked_sub(d(125, 2)).unwrap();
    assert_eq!((r.mantissa(), r.scale()), (175, 2));
}

#[test]
fn rounded_difference_of_larger_minus_smaller_is_not_negative() {
    let r = max_amount().checked_sub(d(1, 1)).unwrap();
    assert!(r.at_least(&d(0, 0)));
    assert_eq!(r.scale(), 0);
}

#[test]
fn withdrawal_never_overdraws() {
    let mut h = Handler::new();
    h.deposit(1, 1, d(5, 1));
    h.withdraw(1, 2, d(1, 0));
    assert_eq!(h.clients.get(&1).unwrap().available, d(5, 1));
    h.withdraw(1, 3, d(5, 1));
    assert_eq!(h.clients.get(&1).unwrap().available, d(0, 0));
    assert!(h.transactions.contains_key(&2));
}

#[test]
fn deposits_commute() {
    let mut a = Handler::new();
    a.deposit(1, 1, d(15, 1));
    a.deposit(1, 2, d(2, 0));
    let mut b = Handler::new();
    b.deposit(1, 2, d(2, 0));
    b.deposit(1, 1, d(15, 1));
    assert_eq!(a.clients.get(&1).unwrap().available, b.clients.get(&1).unwrap().available);
    assert_eq!(a.clients.get(&1).unwrap().available, d(35, 1));
    assert_eq!(a.transactions.get(&1).unwrap().amount, b.transactions.get(&1).unwrap().amount);
    assert_eq!(a.transactions.get(&2).unwrap().amount, b.transactions.get(&2).unwrap().amount);
}

#[test]
fn held_equals_the_disputed_amounts() {
    let mut h = Handler::new();
    h.deposit(1, 1, d(10, 0));
    h.deposit(1, 2, d(25, 1));
    h.deposit(1, 3, d(75, 2));
    h.dispute(1, 1);
    h.dispute(1, 3);
    assert_eq!(h.clients.get(&1).unwrap().held, d(1075, 2));
    h.resolve(1, 1);
    assert_eq!(h.clients.get(&1).unwrap().held, d(75, 2));
    h.chargeback(1, 3);
    assert_eq!(h.clients.get(&1).unwrap().held, d(0, 0));
}

#[test]
fn accounts_are_the_clients_that_deposited() {
    let mut h = Handler::new();
    assert!(h.process(&row("withdrawal", 1, 1, d(1, 0))));
    assert!(h.process(&row("dispute", 2, 1, d(0, 0))));
    assert!(h.process(&row("deposit", 3, 2, d(1, 0))));
    assert!(h.process(&row("resolve", 4, 2, d(0, 0))));
    assert!(h.process(&row("deposit", 5, 3, d(1, 0))));
    let mut ids: Vec<u16> = h.get_clients().keys().copied().collect();
    ids.sort();
    assert_eq!(ids, vec![3, 5]);
}
