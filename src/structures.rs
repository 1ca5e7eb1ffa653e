use crate::errors::KrakenError;
use std::collections::HashMap;
use vstd::prelude::*;
use vstd::string::{StrSliceExecFns, StringExecFns};

verus! {

/// The five kinds of record the ledger understands.
#[derive(Clone, Copy, Debug, PartialEq, Eq, Structural)]
pub enum TransactionType {
    Deposit,
    Withdrawal,
    Dispute,
    Resolve,
    Chargeback,
}

/// The kind named by a lowercase keyword, if any.
pub open spec fn kind_named(s: Seq<char>) -> Option<TransactionType> {
    if s == "deposit"@ {
        Some(TransactionType::Deposit)
    } else if s == "withdrawal"@ {
        Some(TransactionType::Withdrawal)
    } else if s == "dispute"@ {
        Some(TransactionType::Dispute)
    } else if s == "resolve"@ {
        Some(TransactionType::Resolve)
    } else if s == "chargeback"@ {
        Some(TransactionType::Chargeback)
    } else {
        None
    }
}

fn text_eq(a: &str, b: &str) -> (r: bool)
    ensures
        r == (a@ == b@),
{
    let n = a.unicode_len();
    let m = b.unicode_len();
    if n != m {
        return false;
    }
    let mut i: usize = 0;
    while i < n
        invariant
            n == a@.len(),
            m == b@.len(),
            n == m,
            i <= n,
            forall|j: int| 0 <= j < i ==> a@[j] == b@[j],
        decreases n - i,
    {
        if a.get_char(i) != b.get_char(i) {
            return false;
        }
        i += 1;
    }
    assert(a@ =~= b@);
    true
}

impl TransactionType {
    /// Reads a kind from its lowercase keyword; any other text is an `Enum` error.
    pub fn try_from(value: &str) -> (r: Result<TransactionType, KrakenError>)
        ensures
            match r {
                Ok(k) => kind_named(value@) == Some(k),
                Err(e) => kind_named(value@) is None && e is Enum,
            },
    {
        if text_eq(value, "deposit") {
            Ok(TransactionType::Deposit)
        } else if text_eq(value, "withdrawal") {
            Ok(TransactionType::Withdrawal)
        } else if text_eq(value, "dispute") {
            Ok(TransactionType::Dispute)
        } else if text_eq(value, "resolve") {
            Ok(TransactionType::Resolve)
        } else if text_eq(value, "chargeback") {
            Ok(TransactionType::Chargeback)
        } else {
            Err(KrakenError::Enum(String::from_str("Invalid String for TransactionType")))
        }
    }
}

/// One input record. `amount` counts ten-thousandths of a unit and is only
/// read for deposits and withdrawals; `state` is the dispute state of a
/// record once it is kept in an account's history.
#[derive(Clone, Copy, Debug)]
pub struct Transaction {
    pub kind: TransactionType,
    pub client: u32,
    pub amount: Option<i64>,
    pub tx: u32,
    pub state: Option<TransactionType>,
}

/// Largest change that one record can make to a balance.
pub open spec fn amount_bound() -> int {
    0x8000_0000_0000_0000
}

/// The amount of a record, zero where it has none.
pub open spec fn amount_of(t: Transaction) -> int {
    match t.amount {
        Some(a) => a as int,
        None => 0,
    }
}

/// A record that the ledger can take: deposits and withdrawals carry an amount.
pub open spec fn record_ok(t: Transaction) -> bool {
    (t.kind == TransactionType::Deposit || t.kind == TransactionType::Withdrawal) ==> t.amount
        is Some
}

/// The entry kept in history for a deposit or withdrawal: undisputed.
pub open spec fn stored(t: Transaction) -> Transaction {
    Transaction { state: None, ..t }
}

/// The same history entry in another dispute state.
pub open spec fn with_state(e: Transaction, st: TransactionType) -> Transaction {
    Transaction { state: Some(st), ..e }
}

/// Why the ledger refuses a record.
pub enum Rejection {
    AccountLocked,
    InsufficientFunds,
    NoSuchTransaction,
    DisputeState,
    NotDisputable,
}

/// Whether `e` is the error for rejection `f` of record `t`.
pub open spec fn reports(e: KrakenError, f: Rejection, t: Transaction) -> bool {
    match f {
        Rejection::AccountLocked => e == KrakenError::AccountLocked(t.client),
        Rejection::InsufficientFunds => e == KrakenError::InsufficientFunds(t.client),
        Rejection::NoSuchTransaction => e == KrakenError::NoSuchTransactionError(t.tx),
        Rejection::DisputeState => e is DisputeStateError,
        Rejection::NotDisputable => e is Error,
    }
}

/// The mathematical state of an account.
pub struct AccountState {
    pub available: int,
    pub held: int,
    pub locked: bool,
    pub history: Map<u32, Transaction>,
}

impl AccountState {
    pub open spec fn initial() -> AccountState {
        AccountState { available: 0, held: 0, locked: false, history: Map::empty() }
    }

    pub open spec fn total(self) -> int {
        self.available + self.held
    }

    /// History holds deposits and withdrawals, each with its amount.
    pub open spec fn wf(self) -> bool {
        forall|k: u32| #[trigger]
            self.history.contains_key(k) ==> self.history[k].amount is Some && (
            self.history[k].kind == TransactionType::Deposit || self.history[k].kind
                == TransactionType::Withdrawal)
    }

    /// Balances leave room for one more record without overflow.
    pub open spec fn has_room(self) -> bool {
        &&& i128::MIN + amount_bound() <= self.available <= i128::MAX - amount_bound()
        &&& i128::MIN + amount_bound() <= self.held <= i128::MAX - amount_bound()
    }

    /// Balances and total are each within `n` records' worth of amounts of zero.
    pub open spec fn within(self, n: int) -> bool {
        &&& -n * amount_bound() <= self.available <= n * amount_bound()
        &&& -n * amount_bound() <= self.held <= n * amount_bound()
        &&& -n * amount_bound() <= self.total() <= n * amount_bound()
    }
}

/// The effect of one record on an account: its next state, or why it is refused.
pub open spec fn step(s: AccountState, t: Transaction) -> Result<AccountState, Rejection> {
    match t.kind {
        TransactionType::Deposit => {
            if s.locked {
                Err(Rejection::AccountLocked)
            } else {
                Ok(
                    AccountState {
                        available: s.available + amount_of(t),
                        history: s.history.insert(t.tx, stored(t)),
                        ..s
                    },
                )
            }
        },
        TransactionType::Withdrawal => {
            if s.locked {
                Err(Rejection::AccountLocked)
            } else if s.available < amount_of(t) {
                Err(Rejection::InsufficientFunds)
            } else {
                Ok(
                    AccountState {
                        available: s.available - amount_of(t),
                        history: s.history.insert(t.tx, stored(t)),
                        ..s
                    },
                )
            }
        },
        TransactionType::Dispute => {
            if !s.history.contains_key(t.tx) {
                Err(Rejection::NoSuchTransaction)
            } else {
                let e = s.history[t.tx];
                if e.state is Some {
                    Err(Rejection::DisputeState)
                } else if e.kind != TransactionType::Deposit {
                    Err(Rejection::NotDisputable)
                } else {
                    Ok(
                        AccountState {
                            available: s.available - amount_of(e),
                            held: s.held + amount_of(e),
                            history: s.history.insert(
                                t.tx,
                                with_state(e, TransactionType::Dispute),
                            ),
                            ..s
                        },
                    )
                }
            }
        },
        TransactionType::Resolve => {
            if !s.history.contains_key(t.tx) {
                Err(Rejection::NoSuchTransaction)
            } else {
                let e = s.history[t.tx];
                if e.state != Some(TransactionType::Dispute) {
                    Err(Rejection::DisputeState)
                } else {
                    Ok(
                        AccountState {
                            available: s.available + amount_of(e),
                            held: s.held - amount_of(e),
                            history: s.history.insert(
                                t.tx,
                                with_state(e, TransactionType::Resolve),
                            ),
                            ..s
                        },
                    )
                }
            }
        },
        TransactionType::Chargeback => {
            if !s.history.contains_key(t.tx) {
                Err(Rejection::NoSuchTransaction)
            } else {
                let e = s.history[t.tx];
                if e.state != Some(TransactionType::Dispute) {
                    Err(Rejection::DisputeState)
                } else {
                    Ok(
                        AccountState {
                            held: s.held - amount_of(e),
                            locked: true,
                            history: s.history.insert(
                                t.tx,
                                with_state(e, TransactionType::Chargeback),
                            ),
                            ..s
                        },
                    )
                }
            }
        },
    }
}

/// Running state of one client's account. Balances count ten-thousandths of
/// a unit; `history` keeps the deposits and withdrawals by transaction id.
pub struct ClientAccount {
    pub available: i128,
    pub held: i128,
    pub locked: bool,
    pub history: HashMap<u32, Transaction>,
}

impl View for ClientAccount {
    type V = AccountState;

    open spec fn view(&self) -> AccountState {
        AccountState {
            available: self.available as int,
            held: self.held as int,
            locked: self.locked,
            history: self.history@,
        }
    }
}

impl Default for ClientAccount {
    fn default() -> (r: ClientAccount)
        ensures
            r@ == AccountState::initial(),
    {
        ClientAccount::new()
    }
}

impl ClientAccount {
    /// An unlocked account with zero balances and no history.
    pub fn new() -> (r: ClientAccount)
        ensures
            r@ == AccountState::initial(),
    {
        ClientAccount { available: 0, held: 0, locked: false, history: HashMap::new() }
    }

    /// Available plus held funds.
    pub fn total(&self) -> (r: i128)
        requires
            i128::MIN <= self@.total() <= i128::MAX,
        ensures
            r == self@.total(),
    {
        self.available + self.held
    }

    /// Applies one record. A refused record leaves the account exactly as it was.
    pub fn apply_transaction(&mut self, transaction: Transaction) -> (r: Result<(), KrakenError>)
        requires
            old(self)@.wf(),
            old(self)@.has_room(),
            record_ok(transaction),
        ensures
            final(self)@.wf(),
            match step(old(self)@, transaction) {
                Ok(s) => r is Ok && final(self)@ == s,
                Err(f) => r matches Err(e) && reports(e, f, transaction) && final(self)@
                    == old(self)@,
            },
    {
        broadcast use vstd::std_specs::hash::group_hash_axioms;

        let tx = transaction.tx;
        match transaction.kind {
            TransactionType::Deposit => {
                if self.locked {
                    return Err(KrakenError::AccountLocked(transaction.client));
                }
                let amount = transaction.amount.unwrap();
                self.available = self.available + amount as i128;
                self.history.insert(tx, Transaction { state: None, ..transaction });
                Ok(())
            },
            TransactionType::Withdrawal => {
                if self.locked {
                    return Err(KrakenError::AccountLocked(transaction.client));
                }
                let amount = transaction.amount.unwrap();
                if self.available < amount as i128 {
                    return Err(KrakenError::InsufficientFunds(transaction.client));
                }
                self.available = self.available - amount as i128;
                self.history.insert(tx, Transaction { state: None, ..transaction });
                Ok(())
            },
            TransactionType::Dispute => {
                // Disputes are accepted on locked accounts too.
                match self.history.get(&tx) {
                    None => Err(KrakenError::NoSuchTransactionError(tx)),
                    Some(entry) => {
                        let entry = *entry;
                        if entry.state.is_some() {
                            return Err(
                                KrakenError::DisputeStateError(
                                    String::from_str("Transaction already disputed"),
                                ),
                            );
                        }
                        if entry.kind != TransactionType::Deposit {
                            return Err(KrakenError::Error);
                        }
                        let amount = entry.amount.unwrap();
                        self.available = self.available - amount as i128;
                        self.held = self.held + amount as i128;
                        self.history.insert(
                            tx,
                            Transaction { state: Some(TransactionType::Dispute), ..entry },
                        );
                        Ok(())
                    },
                }
            },
            TransactionType::Resolve => {
                match self.history.get(&tx) {
                    None => Err(KrakenError::NoSuchTransactionError(tx)),
                    Some(entry) => {
                        let entry = *entry;
                        match entry.state {
                            Some(TransactionType::Dispute) => {
                                let amount = entry.amount.unwrap();
                                self.available = self.available + amount as i128;
                                self.held = self.held - amount as i128;
                                self.history.insert(
                                    tx,
                                    Transaction { state: Some(TransactionType::Resolve), ..entry },
                                );
                                Ok(())
                            },
                            _ => Err(
                                KrakenError::DisputeStateError(
                                    String::from_str("Cannot resolve transaction not in dispute"),
                                ),
                            ),
                        }
                    },
                }
            },
            TransactionType::Chargeback => {
                match self.history.get(&tx) {
                    None => Err(KrakenError::NoSuchTransactionError(tx)),
                    Some(entry) => {
                        let entry = *entry;
                        match entry.state {
                            Some(TransactionType::Dispute) => {
                                let amount = entry.amount.unwrap();
                                self.held = self.held - amount as i128;
                                self.locked = true;
                                self.history.insert(
                                    tx,
                                    Transaction {
                                        state: Some(TransactionType::Chargeback),
                                        ..entry
                                    },
                                );
                                Ok(())
                            },
                            _ => Err(
                                KrakenError::DisputeStateError(
                                    String::from_str(
                                        "Cannot chargeback transaction not in dispute",
                                    ),
                                ),
                            ),
                        }
                    },
                }
            },
        }
    }
}

} // verus!
