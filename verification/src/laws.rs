//! System-wide laws of the ledger, stated over a snapshot of all entries.
//!
//! The engine touches one entry and the aggregate per call; these lemmas
//! lift its per-call contracts to the whole ledger: an aggregate that equals
//! the sum of all staked balances keeps doing so under every operation, a
//! clock that does not go backwards keeps the entry timestamps
//! non-decreasing, and the query is a pure function of its inputs.

use vstd::prelude::*;
use crate::state::{Devoted, StakeState};

verus! {

/// The sum of the staked amounts over a sequence of ledger entries.
pub open spec fn sum_staked(entries: Seq<Devoted>) -> int
    decreases entries.len(),
{
    if entries.len() == 0 {
        0
    } else {
        sum_staked(entries.drop_last()) + entries.last().amount
    }
}

/// Replacing one entry shifts the sum by exactly the change of that entry's
/// staked amount.
proof fn lemma_sum_staked_update(entries: Seq<Devoted>, i: int, v: Devoted)
    requires
        0 <= i < entries.len(),
    ensures
        sum_staked(entries.update(i, v)) == sum_staked(entries) - entries[i].amount + v.amount,
    decreases entries.len(),
{
    let updated = entries.update(i, v);
    if i == entries.len() - 1 {
        assert(updated.drop_last() =~= entries.drop_last());
    } else {
        assert(updated.drop_last() =~= entries.drop_last().update(i, v));
        lemma_sum_staked_update(entries.drop_last(), i, v);
    }
}

/// Aggregate invariant, one operation at a time: if the aggregate equals
/// the sum of all staked balances, and an operation changes one entry
/// together with an equal aggregate delta — as stake, unstake and forced
/// exit each promise in their contracts — the aggregate equals the sum of
/// the updated entries afterwards.
pub proof fn lemma_aggregate_invariant_preserved(
    entries: Seq<Devoted>,
    i: int,
    updated: Devoted,
    total: u64,
    new_total: u64,
)
    requires
        0 <= i < entries.len(),
        total == sum_staked(entries),
        new_total - total == updated.amount - entries[i].amount,
    ensures
        new_total == sum_staked(entries.update(i, updated)),
{
    lemma_sum_staked_update(entries, i, updated);
}

/// A lazily created entry joins the ledger with nothing staked, so its
/// appearance leaves the aggregate invariant untouched.
pub proof fn lemma_aggregate_invariant_new_entry(entries: Seq<Devoted>, fresh: Devoted)
    requires
        fresh.amount == 0,
    ensures
        sum_staked(entries.push(fresh)) == sum_staked(entries),
{
    assert(entries.push(fresh).drop_last() =~= entries);
}

/// A closed entry — nothing staked, as full unstake and forced exit leave
/// it — may be physically removed without disturbing the aggregate
/// invariant.
pub proof fn lemma_aggregate_invariant_remove_entry(entries: Seq<Devoted>, i: int)
    requires
        0 <= i < entries.len(),
        entries[i].amount == 0,
    ensures
        sum_staked(entries.remove(i)) == sum_staked(entries),
    decreases entries.len(),
{
    let removed = entries.remove(i);
    if i == entries.len() - 1 {
        assert(removed =~= entries.drop_last());
    } else {
        assert(removed.drop_last() =~= entries.drop_last().remove(i));
        lemma_aggregate_invariant_remove_entry(entries.drop_last(), i);
    }
}

/// Monotonic time: every balance-affecting operation stamps the entry with
/// the clock value it was handed, so under a clock that never runs
/// backwards the recorded timestamp never decreases.
pub proof fn lemma_timestamp_monotonic(before: Devoted, after: Devoted, now: i64)
    requires
        before.last_stake_timestamp <= now,
        after.last_stake_timestamp == now,
    ensures
        before.last_stake_timestamp <= after.last_stake_timestamp,
{
}

/// Idempotent query: the query's contract pins its result to a function of
/// the policy, the entry and the clock alone, so two results both meeting
/// that contract for identical inputs are identical.
pub proof fn lemma_check_devotion_idempotent(
    state: StakeState,
    devoted: Devoted,
    now: i64,
    first: u128,
    second: u128,
)
    requires
        first == devoted.devotion(state, now as int),
        second == devoted.devotion(state, now as int),
    ensures
        first == second,
{
}

} // verus!
