//! Leader election for a fixed cluster of peers: the per-node election state
//! machine, its inbound handlers and the steps of the election and heartbeat
//! drivers. Time is a plain count of milliseconds on a monotonic clock that
//! the caller reads; the transport and the lock around a node belong to the
//! caller as well.
pub mod types;
pub mod node;
pub mod handlers;
pub mod election;
pub mod jitter;
pub mod laws;
