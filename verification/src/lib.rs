//! The client side of a dummy money module for a federation: one account
//! with a balance, transactions that are balanced out of that balance, and
//! the legs of those transactions tracked until the federation settles them.
//!
//! The crate decides and computes; it does no input or output. Its caller
//! reads the balance record into a [`store::BalanceStore`], hands the
//! federation's answers in as plain values, and writes back what changed.

pub mod amount;
pub mod db;
pub mod error;
pub mod ids;
pub mod init;
pub mod keys;
pub mod module;
pub mod operations;
pub mod states;
pub mod store;
pub mod transaction;
