//! Core of a small backend that performs pooled CRUD command execution
//! against a relational datastore and relays the datastore's
//! publish/subscribe change notifications to application subscribers.
//!
//! The crate holds the verified logic of that core: the bounded
//! connection-pool accounting, the CRUD command semantics over the entity
//! table, the listener lifecycle state machine with its reconnection
//! backoff, the notification fan-out router, and the trigger registrar.
//! All physical I/O (sockets, clocks, worker threads) lives outside the
//! crate; callers hand its functions the outcomes of that I/O as plain
//! values and drive the state machines with them.

pub mod errors;
pub mod listener;
pub mod message;
pub mod model;
pub mod pool;
pub mod registrar;
pub mod repository;
pub mod router;
pub mod table;

pub use errors::CoreError;
