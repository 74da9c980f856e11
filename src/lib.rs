//! A small single-node query kernel: pull-based record pipelines and a typed
//! expression evaluator over rows.
pub mod row;
pub mod expr;
pub mod api;
