//! Channels over network connections.

pub mod address;
pub mod call;
pub mod channel;
pub mod channel_inner;
pub mod send_loop;
