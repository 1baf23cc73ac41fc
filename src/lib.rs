//! Read-through lookup of planet records with live fan-out to subscribers.
//!
//! The library holds the decisions of the lookup workflow (when to trust the
//! local store, when to ask the remote catalog, what to persist and what to
//! announce) and the subscriber registry with its mark-then-prune broadcast.
//! Transport, storage and the remote client are driven by the caller, who
//! performs each requested action and feeds its outcome back in.
pub mod config;
pub mod lookup;
pub mod models;
pub mod registry;
pub mod store;
