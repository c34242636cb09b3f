//! Reconciliation engine for a feed-driven download pipeline: rule matching,
//! transfer submission with duplicate handling, a bounded rename retrier and
//! the pruning of transfers that the current feeds no longer reference.

pub mod text;
pub mod rule;
pub mod transfer;
pub mod config;
pub mod matcher;
pub mod submit;
pub mod rename;
pub mod reap;
