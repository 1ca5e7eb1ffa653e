use crate::ledger::replay;
use crate::structures::{step, AccountState, Rejection, Transaction, TransactionType};
use vstd::prelude::*;

verus! {

/// A locked account refuses every deposit and withdrawal, so neither moves
/// its balances, and no record ever unlocks it.
pub proof fn lemma_locked_account_keeps_funds(s: AccountState, t: Transaction)
    requires
        s.locked,
    ensures
        (t.kind == TransactionType::Deposit || t.kind == TransactionType::Withdrawal) ==> step(
            s,
            t,
        ) == Err::<AccountState, Rejection>(Rejection::AccountLocked),
        step(s, t) matches Ok(n) ==> n.locked,
{
}

/// Once locked, an account stays locked whatever records follow.
pub proof fn lemma_lock_is_permanent(s: AccountState, ts: Seq<Transaction>)
    requires
        s.locked,
    ensures
        replay(s, ts).locked,
    decreases ts.len(),
{
    if ts.len() > 0 {
        lemma_lock_is_permanent(s, ts.drop_last());
    }
}

/// A record can be disputed at most once: a dispute of an entry that is
/// already disputed is refused, and leaves the balances unchanged.
pub proof fn lemma_dispute_at_most_once(s: AccountState, t: Transaction)
    requires
        t.kind == TransactionType::Dispute,
    ensures
        s.history.contains_key(t.tx) && s.history[t.tx].state == Some(TransactionType::Dispute)
            ==> step(s, t) == Err::<AccountState, Rejection>(Rejection::DisputeState),
        step(s, t) matches Ok(n) ==> step(n, t) == Err::<AccountState, Rejection>(
            Rejection::DisputeState,
        ),
{
}

/// The registry reached by recording, in the order given, each client's
/// terminal account; a client already recorded is kept, as
/// `AccountRegistry::insert` does.
pub open spec fn fill(parts: Seq<(u32, Seq<Transaction>)>) -> Map<u32, AccountState>
    decreases parts.len(),
{
    if parts.len() == 0 {
        Map::empty()
    } else {
        let prev = fill(parts.drop_last());
        let c = parts.last().0;
        if prev.contains_key(c) {
            prev
        } else {
            prev.insert(c, replay(AccountState::initial(), parts.last().1))
        }
    }
}

/// Each client has one partition.
pub open spec fn distinct_clients(parts: Seq<(u32, Seq<Transaction>)>) -> bool {
    forall|i: int, j: int| 0 <= i < parts.len() && 0 <= j < parts.len() && i != j ==> #[trigger] parts[i].0 != #[trigger] parts[j].0
}

proof fn lemma_fill_holds_each_partition(parts: Seq<(u32, Seq<Transaction>)>)
    requires
        distinct_clients(parts),
    ensures
        forall|c: u32| #[trigger]
            fill(parts).contains_key(c) <==> exists|i: int| 0 <= i < parts.len() && parts[i].0 == c,
        forall|i: int| 0 <= i < parts.len() ==> #[trigger] fill(parts)[parts[i].0] == replay(AccountState::initial(), parts[i].1),
    decreases parts.len(),
{
    if parts.len() > 0 {
        let pre = parts.drop_last();
        let last = parts.len() - 1;
        assert forall|i: int, j: int| 0 <= i < pre.len() && 0 <= j < pre.len() && i != j implies #[trigger] pre[i].0 != #[trigger] pre[j].0 by {
            assert(parts[i].0 != parts[j].0);
        }
        lemma_fill_holds_each_partition(pre);
        let c = parts.last().0;
        if fill(pre).contains_key(c) {
            let i = choose|i: int| 0 <= i < pre.len() && pre[i].0 == c;
            assert(parts[i].0 != parts[last].0);
        }
        assert forall|c2: u32| #[trigger] fill(parts).contains_key(c2) <==> exists|i: int| 0 <= i < parts.len() && parts[i].0 == c2 by {
            if fill(parts).contains_key(c2) && c2 != c {
                assert(fill(pre).contains_key(c2));
                let i = choose|i: int| 0 <= i < pre.len() && pre[i].0 == c2;
                assert(parts[i].0 == c2);
            }
            if exists|i: int| 0 <= i < parts.len() && parts[i].0 == c2 {
                let i = choose|i: int| 0 <= i < parts.len() && parts[i].0 == c2;
                if i < last {
                    assert(pre[i].0 == c2);
                }
            }
        }
        assert forall|i: int| 0 <= i < parts.len() implies #[trigger] fill(parts)[parts[i].0] == replay(AccountState::initial(), parts[i].1) by {
            if i < last {
                assert(pre[i] == parts[i]);
                assert(parts[i].0 != parts[last].0);
                assert(fill(pre)[pre[i].0] == replay(AccountState::initial(), pre[i].1));
            }
        }
    }
}

/// Whether `p` is one of the partitions `parts`.
pub open spec fn appears_in(p: (u32, Seq<Transaction>), parts: Seq<(u32, Seq<Transaction>)>) -> bool {
    exists|j: int| 0 <= j < parts.len() && parts[j] == p
}

/// Workers may finish, and record their clients, in any order: two
/// schedules that record the same partitions, one per client, fill the
/// registry alike.
pub proof fn lemma_schedule_does_not_matter(
    parts: Seq<(u32, Seq<Transaction>)>,
    other: Seq<(u32, Seq<Transaction>)>,
)
    requires
        distinct_clients(parts),
        distinct_clients(other),
        forall|i: int| 0 <= i < parts.len() ==> #[trigger] appears_in(parts[i], other),
        forall|j: int| 0 <= j < other.len() ==> #[trigger] appears_in(other[j], parts),
    ensures
        fill(parts) == fill(other),
{
    lemma_fill_holds_each_partition(parts);
    lemma_fill_holds_each_partition(other);
    assert forall|c: u32| #[trigger] fill(parts).contains_key(c) <==> fill(other).contains_key(c) by {
        if fill(parts).contains_key(c) {
            let i = choose|i: int| 0 <= i < parts.len() && parts[i].0 == c;
            assert(appears_in(parts[i], other));
            let j = choose|j: int| 0 <= j < other.len() && other[j] == parts[i];
            assert(other[j].0 == c);
        }
        if fill(other).contains_key(c) {
            let j = choose|j: int| 0 <= j < other.len() && other[j].0 == c;
            assert(appears_in(other[j], parts));
            let i = choose|i: int| 0 <= i < parts.len() && parts[i] == other[j];
            assert(parts[i].0 == c);
        }
    }
    assert forall|c: u32| #[trigger] fill(parts).contains_key(c) implies fill(parts)[c] == fill(other)[c] by {
        let i = choose|i: int| 0 <= i < parts.len() && parts[i].0 == c;
        assert(appears_in(parts[i], other));
        let j = choose|j: int| 0 <= j < other.len() && other[j] == parts[i];
        assert(fill(parts)[parts[i].0] == replay(AccountState::initial(), parts[i].1));
        assert(fill(other)[other[j].0] == replay(AccountState::initial(), other[j].1));
    }
    assert(fill(parts) =~= fill(other));
}

} // verus!
