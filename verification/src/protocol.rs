//! Commands that travel over a connection.

use bytes::Bytes;
use vstd::prelude::*;

verus! {

/// Byte buffers of the `bytes` crate. A buffer is carried through unread.
#[verifier::external_type_specification]
#[verifier::external_body]
pub struct ExBytes(Bytes);

/// A command that is sent to, or was received from, a peer.
#[derive(Debug)]
pub struct RemotingCommand {
    /// What the command asks for.
    pub code: i32,
    /// The number under which a request and its response belong together.
    pub opaque: i32,
    /// Whether the peer sends no response.
    pub oneway: bool,
    /// The content of the command.
    pub body: Bytes,
}

impl RemotingCommand {
    /// The number under which a request and its response belong together.
    pub fn opaque(&self) -> (opaque: i32)
        ensures
            opaque == self.opaque,
    {
        self.opaque
    }

    /// Marks the command as one that gets no response.
    pub fn mark_oneway_rpc(self) -> (command: Self)
        ensures
            command == (RemotingCommand { oneway: true, ..self }),
    {
        RemotingCommand { oneway: true, ..self }
    }
}

} // verus!
