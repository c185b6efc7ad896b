//! Task-lifecycle orchestration for an account module that registers, funds,
//! refills and cancels automated tasks on an external scheduling service.
//!
//! The module keeps a local registry that records, for every task it owns,
//! the scheduler version that created it. Command handlers decide, from the
//! persisted state and from facts the host environment supplies (admin
//! verdicts, resolved service addresses, query results), which outbound calls
//! to dispatch and how the state changes. The host performs storage, queries
//! and dispatch; every decision is made here and is verified.

pub mod actions;
pub mod api;
pub mod error;
pub mod execute;
pub mod funds;
pub mod hooks;
pub mod instantiate;
pub mod laws;
pub mod msg;
pub mod order;
pub mod query;
pub mod replies;
pub mod state;
