//! Core routing and cluster-control plane of a sharded key-value proxy
//! speaking the RESP wire format.
//!
//! The crate holds the verified logic: command classification and dispatch,
//! the epoch-guarded routing store, the migration manager and its task state
//! machine, the replicator manager, the retry-send state machine that drives
//! long-running control loops, the coordinator's ping failure checker, and
//! the status-code discipline of the meta-broker HTTP client. Transport
//! (TCP, HTTP, timers) stays outside, feeding plain values in and out.

pub mod broker;
pub mod command;
pub mod detector;
pub mod executor;
pub mod migration;
pub mod replication;
pub mod resp;
pub mod retry;
pub mod slots;
pub mod store;
