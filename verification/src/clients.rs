//! Clients: callers of a remote peer.

pub mod batch;
pub mod client;
