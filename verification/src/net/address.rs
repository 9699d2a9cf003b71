//! Socket addresses as plain values.

use vstd::prelude::*;

verus! {

/// The address of one end of a connection.
#[derive(Clone, Copy, Debug, Hash, PartialEq, Eq, Structural)]
pub enum SocketAddress {
    /// An address of version 4 of the internet protocol.
    V4 { ipv4: u32, port: u16 },
    /// An address of version 6 of the internet protocol.
    V6 { ipv6: u128, port: u16, flowinfo: u32, scope_id: u32 },
}

} // verus!
