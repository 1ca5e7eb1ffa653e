use kraken_ledger::errors::KrakenError;
use kraken_ledger::ledger::{process_partition, AccountRegistry};
use kraken_ledger::structures::{ClientAccount, Transaction, TransactionType};

fn rec(kind: TransactionType, tx: u32, amount: Option<i64>) -> Transaction {
    Transaction { kind, client: 1, amount, tx, state: None }
}

fn deposit(tx: u32, amount: i64) -> Transaction {
    rec(TransactionType::Deposit, tx, Some(amount))
}

fn withdrawal(tx: u32, amount: i64) -> Transaction {
    rec(TransactionType::Withdrawal, tx, Some(amount))
}

fn dispute(tx: u32) -> Transaction {
    rec(TransactionType::Dispute, tx, None)
}

fn resolve(tx: u32) -> Transaction {
    rec(TransactionType::Resolve, tx, None)
}

fn chargeback(tx: u32) -> Transaction {
    rec(TransactionType::Chargeback, tx, None)
}

fn balances(a: &ClientAccount) -> (i128, i128, i128, bool) {
    (a.available, a.held, a.total(), a.locked)
}

#[test]
fn trivial_deposit() {
    let a = process_partition(&vec![deposit(1, 15000)]);
    assert_eq!(balances(&a), (15000, 0, 15000, false));
}

#[test]
fn dispute_after_withdrawal() {
    let a = process_partition(&vec![
        deposit(1, 100000),
        withdrawal(2, 100000),
        deposit(3, 5000),
        dispute(1),
    ]);
    assert_eq!(balances(&a), (-95000, 100000, 5000, false));
}

#[test]
fn chargeback_after_withdrawal() {
    let a = process_partition(&vec![
        deposit(1, 100000),
        withdrawal(2, 100000),
        deposit(3, 5000),
        dispute(1),
        chargeback(1),
    ]);
    assert_eq!(balances(&a), (-95000, 0, -95000, true));
}

#[test]
fn resolve_without_dispute() {
    let mut a = ClientAccount::new();
    assert!(a.apply_transaction(deposit(1, 100000)).is_ok());
    assert!(a.apply_transaction(deposit(2, 10000)).is_ok());
    let r = a.apply_transaction(resolve(1));
    assert!(matches!(r, Err(KrakenError::DisputeStateError(_))));
    assert_eq!(balances(&a), (110000, 0, 110000, false));
}

#[test]
fn oversized_withdrawal() {
    let mut a = ClientAccount::new();
    assert!(a.apply_transaction(deposit(1, 1000000)).is_ok());
    let r = a.apply_transaction(withdrawal(2, 1500000));
    assert!(matches!(r, Err(KrakenError::InsufficientFunds(1))));
    assert_eq!(balances(&a), (1000000, 0, 1000000, false));
    assert_eq!(a.history.len(), 1);
}

#[test]
fn locked_account_refuses_funds() {
    let mut a = process_partition(&vec![deposit(1, 20000), dispute(1), chargeback(1)]);
    assert!(a.locked);
    let r = a.apply_transaction(deposit(2, 7000));
    assert!(matches!(r, Err(KrakenError::AccountLocked(1))));
    let r = a.apply_transaction(withdrawal(3, 1));
    assert!(matches!(r, Err(KrakenError::AccountLocked(1))));
    assert_eq!(balances(&a), (0, 0, 0, true));
}

#[test]
fn locked_account_still_disputes() {
    let mut a = process_partition(&vec![deposit(1, 20000), deposit(2, 30000), dispute(1), chargeback(1)]);
    assert!(a.apply_transaction(dispute(2)).is_ok());
    assert_eq!(balances(&a), (0, 30000, 30000, true));
    assert!(a.apply_transaction(resolve(2)).is_ok());
    assert_eq!(balances(&a), (30000, 0, 30000, true));
}

#[test]
fn second_dispute_is_refused() {
    let mut a = ClientAccount::new();
    assert!(a.apply_transaction(deposit(7, 40000)).is_ok());
    assert!(a.apply_transaction(dispute(7)).is_ok());
    let r = a.apply_transaction(dispute(7));
    assert!(matches!(r, Err(KrakenError::DisputeStateError(_))));
    assert_eq!(balances(&a), (0, 40000, 40000, false));
}

#[test]
fn dispute_after_resolve_is_refused() {
    let mut a = process_partition(&vec![deposit(7, 40000), dispute(7), resolve(7)]);
    let r = a.apply_transaction(dispute(7));
    assert!(matches!(r, Err(KrakenError::DisputeStateError(_))));
    let r = a.apply_transaction(chargeback(7));
    assert!(matches!(r, Err(KrakenError::DisputeStateError(_))));
    assert_eq!(balances(&a), (40000, 0, 40000, false));
}

#[test]
fn withdrawal_is_not_disputable() {
    let mut a = process_partition(&vec![deposit(1, 40000), withdrawal(2, 10000)]);
    let r = a.apply_transaction(dispute(2));
    assert!(matches!(r, Err(KrakenError::Error)));
    assert_eq!(balances(&a), (30000, 0, 30000, false));
}

#[test]
fn unknown_transaction_is_refused() {
    let mut a = process_partition(&vec![deposit(1, 40000)]);
    assert!(matches!(a.apply_transaction(dispute(9)), Err(KrakenError::NoSuchTransactionError(9))));
    assert!(matches!(a.apply_transaction(resolve(9)), Err(KrakenError::NoSuchTransactionError(9))));
    assert!(matches!(a.apply_transaction(chargeback(9)), Err(KrakenError::NoSuchTransactionError(9))));
    assert_eq!(balances(&a), (40000, 0, 40000, false));
}

#[test]
fn resolve_returns_funds() {
    let a = process_partition(&vec![deposit(1, 12345), dispute(1), resolve(1)]);
    assert_eq!(balances(&a), (12345, 0, 12345, false));
    assert_eq!(a.history.get(&1).unwrap().state, Some(TransactionType::Resolve));
}

#[test]
fn repeated_tx_overwrites_history() {
    let a = process_partition(&vec![deposit(1, 100), deposit(1, 200), dispute(1)]);
    assert_eq!(balances(&a), (100, 200, 300, false));
}

#[test]
fn replay_is_repeatable() {
    let records = vec![deposit(1, 500), withdrawal(2, 900), deposit(3, 700), dispute(3), withdrawal(4, 100)];
    let a = process_partition(&records);
    let b = process_partition(&records);
    assert_eq!(balances(&a), balances(&b));
    assert_eq!(balances(&a), (400, 700, 1100, false));
}

#[test]
fn kinds_parse_from_keywords() {
    assert_eq!(TransactionType::try_from("deposit").unwrap(), TransactionType::Deposit);
    assert_eq!(TransactionType::try_from("withdrawal").unwrap(), TransactionType::Withdrawal);
    assert_eq!(TransactionType::try_from("dispute").unwrap(), TransactionType::Dispute);
    assert_eq!(TransactionType::try_from("resolve").unwrap(), TransactionType::Resolve);
    assert_eq!(TransactionType::try_from("chargeback").unwrap(), TransactionType::Chargeback);
    assert!(matches!(TransactionType::try_from("Deposit"), Err(KrakenError::Enum(_))));
    assert!(matches!(TransactionType::try_from(""), Err(KrakenError::Enum(_))));
    assert!(matches!(TransactionType::try_from("deposits"), Err(KrakenError::Enum(_))));
}

#[test]
fn registry_records_each_client_once() {
    let mut reg = AccountRegistry::new();
    assert!(reg.insert(1, process_partition(&vec![deposit(1, 15000)])));
    assert!(reg.insert(2, process_partition(&vec![deposit(1, 3000)])));
    assert!(!reg.insert(1, ClientAccount::new()));
    assert_eq!(reg.get(1).unwrap().available, 15000);
    assert_eq!(reg.get(2).unwrap().available, 3000);
    assert!(reg.get(3).is_none());
    assert_eq!(reg.accounts().len(), 2);
}
