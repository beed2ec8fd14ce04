//! Read-mostly workloads over an atomically swappable shared value.
//!
//! Every workload runs on one cell implementation, `arc_swap::ArcSwap<i32>`
//! (see [`cell::SharedCell`]); there is no second implementation to compare it
//! with. A run is planned here (`workload`), its threads' bodies are here
//! (`worker`), and so are the order in which staged groups are released and
//! the time each took (`staging`); spawning threads and reading the clock are
//! left to the caller.

pub mod cell;
pub mod workload;
pub mod worker;
pub mod staging;
