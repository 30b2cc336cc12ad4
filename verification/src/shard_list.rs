//! The append-only list of shard cells.
//!
//! One `ShardList` backs one logical counter. Each cell is the private
//! accumulation target of exactly one live handle. Cells are allocated once,
//! addressed by stable indices, and — by design — never removed: the set of
//! cells only grows, so an index handed out stays valid for the list's whole
//! life. The same append-only discipline backs the process-wide registry.

use vstd::prelude::*;

use crate::sums::{sum_of, wrap64, lemma_sum_take_succ};

verus! {

/// An append-only arena of 64-bit accumulation cells.
///
/// Viewed as the sequence of its cell values, oldest cell first.
pub struct ShardList {
    cells: Vec<u64>,
}

impl ShardList {
    /// The cell values, in allocation order.
    pub closed spec fn view(&self) -> Seq<u64> {
        self.cells@
    }

    /// A fresh shard list holding exactly its origin cell, at value zero.
    pub fn with_origin_cell() -> (l: ShardList)
        ensures
            l@ == seq![0u64],
    {
        let mut cells: Vec<u64> = Vec::new();
        cells.push(0);
        proof {
            assert(cells@ =~= seq![0u64]);
        }
        ShardList { cells }
    }

    /// Allocate one more cell, at value zero, and hand back its stable index.
    /// Every cell allocated earlier keeps its index and its value.
    pub fn add_cell(&mut self) -> (i: usize)
        ensures
            final(self)@ == old(self)@.push(0u64),
            i == old(self)@.len(),
    {
        let i = self.cells.len();
        self.cells.push(0);
        i
    }

    /// Add one to the cell at `i`, wrapping around at the 64-bit limit as a
    /// hardware accumulation cell does. No other cell changes.
    pub fn inc_cell(&mut self, i: usize)
        requires
            i < old(self)@.len(),
        ensures
            final(self)@ == old(self)@.update(
                i as int,
                vstd::wrapping::u64_specs::wrapping_add(old(self)@[i as int], 1),
            ),
    {
        let v = self.cells[i];
        self.cells[i] = v.wrapping_add(1);
    }

    /// How many cells have been allocated so far.
    pub fn cell_count(&self) -> (n: usize)
        ensures
            n == self@.len(),
    {
        self.cells.len()
    }

    /// The current value of the cell at `i`.
    pub fn cell_value(&self, i: usize) -> (v: u64)
        requires
            i < self@.len(),
        ensures
            v == self@[i as int],
    {
        self.cells[i]
    }

    /// The list's logical total: every cell summed, reduced modulo the 64-bit
    /// range exactly as a chain of wrapping additions reduces it.
    pub fn total(&self) -> (t: u64)
        ensures
            t == wrap64(sum_of(self@)),
    {
        let n = self.cells.len();
        let mut t: u64 = 0;
        let mut i: usize = 0;
        while i < n
            invariant
                n == self@.len(),
                i <= n,
                t == wrap64(sum_of(self@.take(i as int))),
            decreases n - i,
        {
            let v = self.cells[i];
            proof {
                lemma_sum_take_succ(self@, i as int);
                vstd::arithmetic::div_mod::lemma_add_mod_noop(
                    sum_of(self@.take(i as int)),
                    v as int,
                    u64::MAX + 1,
                );
                vstd::arithmetic::div_mod::lemma_small_mod(v as nat, (u64::MAX + 1) as nat);
                if t + v > u64::MAX {
                    vstd::arithmetic::div_mod::lemma_mod_sub_multiples_vanish(
                        t + v,
                        u64::MAX + 1,
                    );
                    vstd::arithmetic::div_mod::lemma_small_mod(
                        (t + v - (u64::MAX + 1)) as nat,
                        (u64::MAX + 1) as nat,
                    );
                } else {
                    vstd::arithmetic::div_mod::lemma_small_mod(
                        (t + v) as nat,
                        (u64::MAX + 1) as nat,
                    );
                }
            }
            t = t.wrapping_add(v);
            i = i + 1;
        }
        proof {
            assert(self@.take(n as int) =~= self@);
        }
        t
    }
}

} // verus!
