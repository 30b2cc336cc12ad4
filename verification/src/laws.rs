//! The guarantees the counter gives across whole runs: what a read reports
//! after writers are joined, that no update is ever lost, that reads are
//! pure, that shards are independent, and that the registry only grows.

use vstd::prelude::*;

use crate::counter::{clone_spec, inc_spec, originate_spec, read_value, Counter};
use crate::sums::{lemma_sum_concat, lemma_sum_constant, lemma_sum_push, sum_of, wrap64};

verus! {

/// Join-barrier exactness. After a fresh counter is cloned into `n` handles
/// and each clone's private cell has taken exactly `m` increments, the shard
/// list holds the origin cell still at zero and `n` cells at `m` — its exact
/// total is `n * m`, every increment accounted for, and while that total fits
/// in 64 bits it is precisely what a read reports.
pub proof fn lemma_join_barrier_exactness(s: Seq<u64>, n: int, m: u64)
    requires
        n >= 0,
        s.len() == n + 1,
        s[0] == 0,
        forall|i: int| 1 <= i < s.len() ==> s[i] == m,
    ensures
        sum_of(s) == n * m,
        n * m <= u64::MAX ==> wrap64(sum_of(s)) == n * m,
{
    let origin = seq![0u64];
    let clones = s.subrange(1, s.len() as int);
    assert(s =~= origin + clones);
    lemma_sum_concat(origin, clones);
    assert(origin.drop_last() =~= Seq::<u64>::empty());
    assert(sum_of(origin) == sum_of(origin.drop_last()) + origin.last());
    assert(clones.len() == n);
    assert(forall|i: int| 0 <= i < clones.len() ==> clones[i] == m);
    lemma_sum_constant(clones, m);
    if n * m <= u64::MAX {
        crate::sums::lemma_sum_nonneg(s);
        vstd::arithmetic::div_mod::lemma_small_mod(
            sum_of(s) as nat,
            (u64::MAX + 1) as nat,
        );
    }
}

/// One round of the contention scenario: a clone links one fresh cell into
/// the list, then one increment lands on exactly that cell.
pub open spec fn clone_inc_round(s: Seq<u64>) -> Seq<u64> {
    s.push(0u64).update(s.len() as int, vstd::wrapping::u64_specs::wrapping_add(0u64, 1))
}

/// The shard list after `k` independent clone-then-increment-once rounds.
pub open spec fn after_clone_inc_rounds(s: Seq<u64>, k: nat) -> Seq<u64>
    decreases k,
{
    if k == 0 {
        s
    } else {
        clone_inc_round(after_clone_inc_rounds(s, (k - 1) as nat))
    }
}

/// No lost updates under contention. However many clone-then-increment-once
/// rounds run, the list gains exactly one reachable cell per clone and the
/// total gains exactly one per increment: no insertion and no increment is
/// ever dropped.
pub proof fn lemma_no_lost_updates(s: Seq<u64>, k: nat)
    ensures
        after_clone_inc_rounds(s, k).len() == s.len() + k,
        sum_of(after_clone_inc_rounds(s, k)) == sum_of(s) + k,
    decreases k,
{
    if k > 0 {
        lemma_no_lost_updates(s, (k - 1) as nat);
        let t = after_clone_inc_rounds(s, (k - 1) as nat);
        assert(clone_inc_round(t) =~= t.push(1u64));
        lemma_sum_push(t, 1u64);
    }
}

/// Idempotent read. What a read reports is a function of the registry state
/// alone, so two consecutive reads with no intervening change agree.
pub proof fn lemma_idempotent_read(r: Seq<Seq<u64>>, l: int, t1: int, t2: int)
    requires
        t1 == read_value(r, l),
        t2 == read_value(r, l),
    ensures
        t1 == t2,
{
}

/// Independence of shards. An increment through one handle never changes any
/// other handle's private cell — only the aggregate read is affected.
pub proof fn lemma_shard_independence(r: Seq<Seq<u64>>, a: Counter, b: Counter)
    requires
        a.wf(r),
        b.wf(r),
        !(a.list_id() == b.list_id() && a.cell_id() == b.cell_id()),
    ensures
        inc_spec(r, a.list_id(), a.cell_id())[b.list_id()][b.cell_id()] == r[b.list_id()][b.cell_id()],
{
}

/// The registry after `k` counters are originated, one after the other.
pub open spec fn after_originations(r: Seq<Seq<u64>>, k: nat) -> Seq<Seq<u64>>
    decreases k,
{
    if k == 0 {
        r
    } else {
        originate_spec(after_originations(r, (k - 1) as nat))
    }
}

/// Monotonic registry growth, first half: originating `k` independent
/// counters adds exactly `k` registry entries.
pub proof fn lemma_registry_growth(r: Seq<Seq<u64>>, k: nat)
    ensures
        after_originations(r, k).len() == r.len() + k,
    decreases k,
{
    if k > 0 {
        lemma_registry_growth(r, (k - 1) as nat);
    }
}

/// Monotonic registry growth, second half: cloning a handle never adds or
/// removes a registry entry.
pub proof fn lemma_clone_preserves_registry(r: Seq<Seq<u64>>, l: int)
    requires
        0 <= l < r.len(),
    ensures
        clone_spec(r, l).len() == r.len(),
{
}

} // verus!
