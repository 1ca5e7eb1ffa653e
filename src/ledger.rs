use crate::structures::{record_ok, step, AccountState, ClientAccount, Transaction, TransactionType};
use std::collections::HashMap;
use vstd::prelude::*;

verus! {

/// The state reached by applying `ts` in order from `s`, skipping refused records.
pub open spec fn replay(s: AccountState, ts: Seq<Transaction>) -> AccountState
    decreases ts.len(),
{
    if ts.len() == 0 {
        s
    } else {
        let prev = replay(s, ts.drop_last());
        match step(prev, ts.last()) {
            Ok(n) => n,
            Err(_) => prev,
        }
    }
}

/// A partition the ledger can take: every record is well formed.
pub open spec fn records_ok(ts: Seq<Transaction>) -> bool {
    forall|i: int| 0 <= i < ts.len() ==> #[trigger] record_ok(ts[i])
}

/// One record moves each balance, and the total, by at most one amount.
proof fn lemma_step_bounded(s: AccountState, t: Transaction, n: int)
    requires
        s.wf(),
        s.within(n),
        record_ok(t),
    ensures
        match step(s, t) {
            Ok(r) => r.wf() && r.within(n + 1),
            Err(_) => true,
        },
{
    broadcast use vstd::map::group_map_axioms;

    match step(s, t) {
        Ok(r) => {
            assert forall|k: u32| #[trigger] r.history.contains_key(k) implies r.history[k].amount
                is Some && (r.history[k].kind == TransactionType::Deposit || r.history[k].kind
                == TransactionType::Withdrawal) by {
                if k != t.tx {
                    assert(s.history.contains_key(k));
                }
            }
        },
        Err(_) => {},
    }
}

/// Applies a client's records in order and returns the terminal account.
/// Refused records are skipped: each leaves the account as it was.
pub fn process_partition(records: &Vec<Transaction>) -> (r: ClientAccount)
    requires
        records_ok(records@),
    ensures
        r@ == replay(AccountState::initial(), records@),
        r@.wf(),
        i128::MIN <= r@.total() <= i128::MAX,
{
    let mut account = ClientAccount::new();
    let n = records.len();
    let mut i: usize = 0;
    while i < n
        invariant
            n == records@.len(),
            i <= n,
            records_ok(records@),
            account@ == replay(AccountState::initial(), records@.take(i as int)),
            account@.wf(),
            account@.within(i as int),
        decreases n - i,
    {
        let t = records[i];
        assert(record_ok(records@[i as int]));
        proof {
            lemma_step_bounded(account@, t, i as int);
            assert(records@.take(i as int + 1).drop_last() =~= records@.take(i as int));
        }
        // Refused records are discarded, as the ledger keeps no failure log.
        let _ = account.apply_transaction(t);
        i += 1;
    }
    assert(records@.take(n as int) =~= records@);
    account
}

/// Terminal accounts by client, each client recorded once.
pub struct AccountRegistry {
    accounts: HashMap<u32, ClientAccount>,
}

impl View for AccountRegistry {
    type V = Map<u32, ClientAccount>;

    closed spec fn view(&self) -> Map<u32, ClientAccount> {
        self.accounts@
    }
}

impl AccountRegistry {
    /// A registry with no client.
    pub fn new() -> (r: AccountRegistry)
        ensures
            r@ == Map::<u32, ClientAccount>::empty(),
    {
        AccountRegistry { accounts: HashMap::new() }
    }

    /// Records the terminal account of `client`. A client already present is
    /// kept as it was and `false` is returned.
    pub fn insert(&mut self, client: u32, account: ClientAccount) -> (r: bool)
        ensures
            r == !old(self)@.contains_key(client),
            r ==> final(self)@ == old(self)@.insert(client, account),
            !r ==> final(self)@ == old(self)@,
    {
        broadcast use vstd::std_specs::hash::group_hash_axioms;

        if self.accounts.contains_key(&client) {
            false
        } else {
            self.accounts.insert(client, account);
            true
        }
    }

    /// The terminal account of `client`, if recorded.
    pub fn get(&self, client: u32) -> (r: Option<&ClientAccount>)
        ensures
            match r {
                Some(a) => self@.contains_key(client) && *a == self@[client],
                None => !self@.contains_key(client),
            },
    {
        broadcast use vstd::std_specs::hash::group_hash_axioms;

        self.accounts.get(&client)
    }

    /// All recorded accounts by client.
    pub fn accounts(&self) -> (r: &HashMap<u32, ClientAccount>)
        ensures
            r@ == self@,
    {
        &self.accounts
    }
}

} // verus!
