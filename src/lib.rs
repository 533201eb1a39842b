//! Ledger and settlement engine for expenses shared between two users.
//!
//! The library holds the decisions of the engine: which rows a write inserts
//! (with the installment schedule of an expense), how the write of an expense
//! and its installments commits or rolls back, how a statement is computed
//! from the window's totals, and how the process settings are read. Storage,
//! transport and the clock stay with the caller.
pub mod enums;
pub mod env;
pub mod expense_write;
pub mod ids;
pub mod installments;
pub mod instant;
pub mod statement;
pub mod transaction;
pub mod user;
