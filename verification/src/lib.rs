//! A contention-resistant sharded counter.
//!
//! A logical counter is split into per-handle shards: every handle owns one
//! private accumulation cell and increments touch only that cell, while a
//! read sums every cell of the counter's shard list. Shard lists are
//! append-only arenas — cells are allocated once, referenced by stable
//! indices, and never reclaimed — and every shard list is registered once,
//! at origination, in a process-wide registry.

pub mod counter;
pub mod laws;
pub mod registry;
pub mod shard_list;
pub mod sums;

pub use counter::Counter;
pub use registry::Registry;
pub use shard_list::ShardList;
