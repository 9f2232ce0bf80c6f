//! Back-office engine of a bookstore: book stock, sell and stock tickets,
//! and the ledger of payments, with every operation verified against a
//! mathematical model of the persisted state.
//!
//! - [`entity`] holds the rows: books, tickets, ledger entries and users,
//!   and what can be asked of a single row.
//! - [`workflow`] holds the decisions of every operation, from the rows
//!   that it reads to the rows that it writes.
//! - [`store`] holds the three tables in memory and their model, and
//!   [`api`] the operations on them, one function for each request.
//! - [`laws`] holds what is true of every operation: a ticket only moves
//!   forward, no counter falls below zero, and the ledger has one entry
//!   for each payment.
//! - [`utils`] holds errors, tokens and the sequence that lets a request
//!   in; [`clock`] holds time.

pub mod api;
pub mod clock;
pub mod constants;
pub mod entity;
pub mod laws;
pub mod store;
pub mod utils;
pub mod workflow;
