//! A directory-pruning library: the verified core of a daemon that watches a
//! directory tree and, whenever a removal leaves a directory empty, removes
//! that directory too, cascading upward as removal events for the pruned
//! directories re-enter the same pipeline.
//!
//! The library turns one filesystem notification into at most one removal
//! decision. All filesystem reads and mutations, the watcher, the channel and
//! the per-notification workers live outside it; they hand the library plain
//! values and carry out the commands it returns.

pub mod event;
pub mod laws;
pub mod plan;
pub mod prune;
pub mod source;
