//! A plain-text double-entry ledger model with a filter-and-rewrite pipeline.
//!
//! The library models accounts, exact decimal amounts, postings and
//! transactions, and provides a pipeline that selects transactions matching a
//! temporal/structural predicate and rewrites them by appending postings
//! derived arithmetically from existing ones.

pub mod account;
pub mod amount;
pub mod date;
pub mod model;
pub mod pipeline;
pub mod render;
pub mod rewrite;
pub mod select;
