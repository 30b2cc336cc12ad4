//! The counter handle.
//!
//! A `Counter` is a lightweight handle onto one logical counter: it names the
//! shard list shared by every handle descended from the same origin, and the
//! one cell within that list that this handle alone increments. Originating a
//! fresh counter registers its shard list in the registry; cloning a handle
//! only grows the shared shard list, giving the clone a private cell of its
//! own so that writers never contend on one location.

use vstd::prelude::*;

use crate::registry::Registry;
use crate::sums::{sum_of, wrap64, lemma_sum_nonneg, lemma_sum_update};

verus! {

/// The registry after a fresh counter is originated: one new shard list,
/// holding exactly its origin cell at zero.
pub open spec fn originate_spec(r: Seq<Seq<u64>>) -> Seq<Seq<u64>> {
    r.push(seq![0u64])
}

/// The registry after a handle on list `l` is cloned: that list gains one
/// fresh cell at zero; no other list changes and no entry is added.
pub open spec fn clone_spec(r: Seq<Seq<u64>>, l: int) -> Seq<Seq<u64>> {
    r.update(l, r[l].push(0u64))
}

/// The registry after the cell at `s` of list `l` takes one increment:
/// that cell alone changes, by a wrapping add of one.
pub open spec fn inc_spec(r: Seq<Seq<u64>>, l: int, s: int) -> Seq<Seq<u64>> {
    r.update(l, r[l].update(s, vstd::wrapping::u64_specs::wrapping_add(r[l][s], 1)))
}

/// What a read of list `l` reports: every cell summed, wrapping.
pub open spec fn read_value(r: Seq<Seq<u64>>, l: int) -> int {
    wrap64(sum_of(r[l]))
}

/// A handle onto one logical counter: its shard list in the registry, and
/// its own private cell within that list.
pub struct Counter {
    list: usize,
    cell: usize,
}

impl Counter {
    /// Which registry entry this handle's shard list is.
    pub closed spec fn list_id(&self) -> int {
        self.list as int
    }

    /// Which cell of that list this handle alone increments.
    pub closed spec fn cell_id(&self) -> int {
        self.cell as int
    }

    /// The handle points at a cell that is linked into its shard list, and at
    /// a shard list that is registered. Origination and cloning establish
    /// this before a handle is ever returned, and nothing is ever unlinked,
    /// so every handle keeps it against the registry it was created in.
    pub open spec fn wf(&self, r: Seq<Seq<u64>>) -> bool {
        &&& 0 <= self.list_id() < r.len()
        &&& 0 <= self.cell_id() < r[self.list_id()].len()
    }

    /// Originate a brand-new logical counter: one fresh shard list with one
    /// origin cell at zero, registered once. Handles created earlier are
    /// untouched and stay well formed.
    pub fn new(reg: &mut Registry) -> (c: Counter)
        ensures
            final(reg)@ == originate_spec(old(reg)@),
            c.list_id() == old(reg)@.len(),
            c.cell_id() == 0,
            c.wf(final(reg)@),
            read_value(final(reg)@, c.list_id()) == 0,
    {
        let list = reg.originate();
        proof {
            let r2 = originate_spec(old(reg)@);
            assert(r2[old(reg)@.len() as int] == seq![0u64]);
            assert(seq![0u64].len() == 1);
            assert(seq![0u64].last() == 0u64);
            assert(seq![0u64].drop_last() =~= Seq::<u64>::empty());
            assert(sum_of(Seq::<u64>::empty()) == 0);
            assert(sum_of(seq![0u64]) == sum_of(seq![0u64].drop_last()) + seq![0u64].last());
        }
        Counter { list, cell: 0 }
    }

    /// Clone this handle: allocate one fresh cell at zero in the same shard
    /// list and hand back a handle that reports into the same logical total
    /// through its own private cell. The registry gains no entry, the
    /// counter's total does not change, and both handles stay well formed.
    pub fn clone(&self, reg: &mut Registry) -> (c: Counter)
        requires
            self.wf(old(reg)@),
        ensures
            final(reg)@ == clone_spec(old(reg)@, self.list_id()),
            final(reg)@.len() == old(reg)@.len(),
            c.list_id() == self.list_id(),
            c.cell_id() == old(reg)@[self.list_id()].len(),
            c.wf(final(reg)@),
            self.wf(final(reg)@),
            sum_of(final(reg)@[self.list_id()]) == sum_of(old(reg)@[self.list_id()]),
    {
        let cell = reg.grow_list(self.list);
        proof {
            crate::sums::lemma_sum_push(old(reg)@[self.list_id()], 0u64);
        }
        Counter { list: self.list, cell }
    }

    /// Record one occurrence against this handle's own cell, wrapping at the
    /// 64-bit limit. No other cell of any counter changes, and — short of
    /// the wrap — the logical total of this counter grows by exactly one.
    pub fn inc(&self, reg: &mut Registry)
        requires
            self.wf(old(reg)@),
        ensures
            final(reg)@ == inc_spec(old(reg)@, self.list_id(), self.cell_id()),
            final(reg)@.len() == old(reg)@.len(),
            self.wf(final(reg)@),
            old(reg)@[self.list_id()][self.cell_id()] < u64::MAX ==> sum_of(
                final(reg)@[self.list_id()],
            ) == sum_of(old(reg)@[self.list_id()]) + 1,
    {
        let ghost pre = reg@;
        reg.inc_cell(self.list, self.cell);
        proof {
            lemma_sum_update(
                pre[self.list_id()],
                self.cell_id(),
                vstd::wrapping::u64_specs::wrapping_add(pre[self.list_id()][self.cell_id()], 1),
            );
        }
    }

    /// Read the counter's current logical total: the sum of every cell of its
    /// shard list, reduced exactly as the chain of wrapping adds reduces it.
    /// While the total still fits in 64 bits, that is the exact sum.
    pub fn get(&self, reg: &Registry) -> (t: u64)
        requires
            self.wf(reg@),
        ensures
            t == read_value(reg@, self.list_id()),
            sum_of(reg@[self.list_id()]) <= u64::MAX ==> t == sum_of(reg@[self.list_id()]),
    {
        let t = reg.list_total(self.list);
        proof {
            lemma_sum_nonneg(reg@[self.list_id()]);
            if sum_of(reg@[self.list_id()]) <= u64::MAX {
                vstd::arithmetic::div_mod::lemma_small_mod(
                    sum_of(reg@[self.list_id()]) as nat,
                    (u64::MAX + 1) as nat,
                );
            }
        }
        t
    }

    /// Inspect this handle's private cell directly, without aggregating.
    pub fn cell_value(&self, reg: &Registry) -> (v: u64)
        requires
            self.wf(reg@),
        ensures
            v == reg@[self.list_id()][self.cell_id()],
    {
        reg.cell_value(self.list, self.cell)
    }
}

} // verus!
