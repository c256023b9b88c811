//! Order records and the repositories that keep them.
//!
//! `models` holds the order entity, the inbound request and the rule that
//! turns one into the other. `repository` holds the transient store: an
//! append-only log and the shared, lock-guarded handle around it. `durable`
//! holds the decisions of a bounded read from a document store, as a state
//! machine that the caller feeds with what the store's cursor reported.

pub mod durable;
pub mod models;
pub mod repository;
