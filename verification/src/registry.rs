//! The process-wide registry of shard lists.
//!
//! One `Registry` value holds every shard list the process has originated,
//! one entry per distinct logical counter (clones never add an entry). Like
//! the shard lists themselves it is append-only: an entry, once registered,
//! is never removed, so a list index handed out at origination stays valid
//! for the registry's whole life. The registry has one explicit
//! initialization point, `Registry::new`, and no teardown; its only current
//! duty is bookkeeping — enumeration is an extension point for a consumer,
//! not an operation the counter itself relies on.

use vstd::prelude::*;

use crate::shard_list::ShardList;
use crate::sums::{sum_of, wrap64};

verus! {

/// The arena of every shard list originated so far, oldest first.
pub struct Registry {
    lists: Vec<ShardList>,
}

impl Registry {
    /// The registered shard lists, each viewed as its sequence of cell values.
    pub closed spec fn view(&self) -> Seq<Seq<u64>> {
        self.lists@.map_values(|l: ShardList| l@)
    }

    /// The registry at process start: no counter has been originated yet.
    pub fn new() -> (r: Registry)
        ensures
            r@ == Seq::<Seq<u64>>::empty(),
    {
        let r = Registry { lists: Vec::new() };
        proof {
            assert(r@ =~= Seq::<Seq<u64>>::empty());
        }
        r
    }

    /// Register one brand-new shard list, holding exactly its origin cell at
    /// value zero, and hand back its stable index. Every list registered
    /// earlier keeps its index and its contents.
    pub fn originate(&mut self) -> (l: usize)
        ensures
            final(self)@ == old(self)@.push(seq![0u64]),
            l == old(self)@.len(),
    {
        let l = self.lists.len();
        self.lists.push(ShardList::with_origin_cell());
        proof {
            assert(self@ =~= old(self)@.push(seq![0u64]));
        }
        l
    }

    /// How many distinct counters have been originated so far.
    pub fn list_count(&self) -> (n: usize)
        ensures
            n == self@.len(),
    {
        self.lists.len()
    }

    /// Allocate one more cell, at value zero, in the list at `l`, and hand
    /// back the cell's stable index. No other list changes.
    pub fn grow_list(&mut self, l: usize) -> (s: usize)
        requires
            l < old(self)@.len(),
        ensures
            final(self)@ == old(self)@.update(l as int, old(self)@[l as int].push(0u64)),
            s == old(self)@[l as int].len(),
    {
        let list = &mut self.lists[l];
        let s = list.add_cell();
        proof {
            assert(self@ =~= old(self)@.update(l as int, old(self)@[l as int].push(0u64)));
        }
        s
    }

    /// Add one, wrapping at the 64-bit limit, to the cell at `s` of the list
    /// at `l`. No other cell of any list changes.
    pub fn inc_cell(&mut self, l: usize, s: usize)
        requires
            l < old(self)@.len(),
            s < old(self)@[l as int].len(),
        ensures
            final(self)@ == old(self)@.update(
                l as int,
                old(self)@[l as int].update(
                    s as int,
                    vstd::wrapping::u64_specs::wrapping_add(old(self)@[l as int][s as int], 1),
                ),
            ),
    {
        let list = &mut self.lists[l];
        list.inc_cell(s);
        proof {
            assert(self@ =~= old(self)@.update(
                l as int,
                old(self)@[l as int].update(
                    s as int,
                    vstd::wrapping::u64_specs::wrapping_add(old(self)@[l as int][s as int], 1),
                ),
            ));
        }
    }

    /// The logical total of the list at `l`: every cell summed, wrapping.
    pub fn list_total(&self, l: usize) -> (t: u64)
        requires
            l < self@.len(),
        ensures
            t == wrap64(sum_of(self@[l as int])),
    {
        let list = &self.lists[l];
        list.total()
    }

    /// How many cells the list at `l` holds.
    pub fn cell_count(&self, l: usize) -> (n: usize)
        requires
            l < self@.len(),
        ensures
            n == self@[l as int].len(),
    {
        let list = &self.lists[l];
        list.cell_count()
    }

    /// The current value of the cell at `s` of the list at `l`.
    pub fn cell_value(&self, l: usize, s: usize) -> (v: u64)
        requires
            l < self@.len(),
            s < self@[l as int].len(),
        ensures
            v == self@[l as int][s as int],
    {
        let list = &self.lists[l];
        list.cell_value(s)
    }
}

} // verus!
