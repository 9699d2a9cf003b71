//! Request tracking and transport decisions of a remoting client.
//!
//! The library holds the state that the transport tasks of a connection share:
//! the table of requests that wait for a response, the gauges that count them,
//! and the state machines that the sender, the receiver and the callers of a
//! connection step through. Sockets, queues and timers live outside; they
//! report what happened as plain values and carry out the returned actions.

pub mod base;
pub mod clients;
pub mod connection;
pub mod error;
pub mod laws;
pub mod metrics;
pub mod net;
pub mod promises;
pub mod protocol;
pub mod runs;
pub mod time;
