//! Core decision logic of a columnar query engine: column builders, access
//! control in management mode, spill coordination for hash-join builders,
//! optimizer rule construction, delete-by-predicate mutation, and pruning of
//! parquet row groups and pages.

pub mod error;
pub mod row_selection;
pub mod types;
pub mod pruning;
pub mod statistics;
pub mod block;
pub mod delete_by_expr;
pub mod access;
pub mod spill;
pub mod columns;
pub mod arithmetic;
pub mod rule_factory;
pub mod http_metrics;
pub mod parquet_read;
pub mod merge_into;
