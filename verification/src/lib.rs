//! Per-owner, capacity-bounded todo lists with derived statistics.
//!
//! Each owner has a list of at most 50 todos, a counter that hands out ids,
//! and statistics that are recomputed after every change. Four operations
//! change a list: create, update, toggle completion, delete. Each either
//! succeeds as a whole or fails and changes nothing.
//!
//! - `todo`: a todo and its priority.
//! - `bounded`: the bounded vectors that hold titles, descriptions and
//!   todos.
//! - `stats`: the statistics and the scan that computes them.
//! - `list`: one owner's list and the four operations on it.
//! - `pallet`: the lists of all owners, and the events that successful
//!   operations report.
//! - `laws`: what holds of every list after any sequence of operations.

pub mod bounded;
pub mod error;
pub mod laws;
pub mod list;
pub mod pallet;
pub mod stats;
pub mod todo;
