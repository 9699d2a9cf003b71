//! Waiters for a response and how they are completed.

use tokio::sync::oneshot::Sender;
use vstd::prelude::*;

use crate::error::{ErrorView, RocketMQResult};
use crate::protocol::RemotingCommand;

verus! {

/// The sending halves of `tokio` one-shot channels. A half is carried through
/// unread until a value is sent over it.
#[verifier::external_type_specification]
#[verifier::external_body]
#[verifier::reject_recursive_types(T)]
pub struct ExSender<T>(Sender<T>);

/// A request that waits for its response.
pub struct ResponseFuture {
    /// The number of the request.
    pub opaque: i32,
    /// How long the caller is willing to wait, in milliseconds.
    pub timeout_millis: u64,
    /// Whether the request counts as sent.
    pub send_request_ok: bool,
    /// Where the caller waits for the outcome.
    pub tx: Sender<RocketMQResult<RemotingCommand>>,
}

impl ResponseFuture {
    /// A waiter for the response to request number `opaque`.
    pub fn new(
        opaque: i32,
        timeout_millis: u64,
        send_request_ok: bool,
        tx: Sender<RocketMQResult<RemotingCommand>>,
    ) -> (future: Self)
        ensures
            future == (ResponseFuture { opaque, timeout_millis, send_request_ok, tx }),
    {
        ResponseFuture { opaque, timeout_millis, send_request_ok, tx }
    }

    /// Decides that the waiter ends with `outcome`.
    pub fn complete(self, outcome: RocketMQResult<RemotingCommand>) -> (completion: Completion)
        ensures
            completion == (Completion { tx: self.tx, outcome }),
    {
        Completion { tx: self.tx, outcome }
    }
}

/// An outcome on its way to the waiter that it belongs to.
#[must_use]
pub struct Completion {
    /// Where the caller waits.
    pub tx: Sender<RocketMQResult<RemotingCommand>>,
    /// What the caller gets.
    pub outcome: RocketMQResult<RemotingCommand>,
}

impl Completion {
    /// Whether the completion tells the waiter behind `tx` that its request
    /// failed with `error`.
    pub open spec fn fails(
        self,
        tx: Sender<RocketMQResult<RemotingCommand>>,
        error: ErrorView,
    ) -> bool {
        &&& self.tx == tx
        &&& self.outcome is Err
        &&& self.outcome->Err_0@ == error
    }

    /// Hands the outcome to the waiter: what comes back is what sending the
    /// completion's own outcome over the completion's own half gave. An outcome
    /// that nobody waits for any more comes back.
    pub fn deliver(self) -> (delivered: Result<(), RocketMQResult<RemotingCommand>>)
        ensures
            call_ensures(
                Sender::<RocketMQResult<RemotingCommand>>::send,
                (self.tx, self.outcome),
                delivered,
            ),
            delivered matches Err(unsent) ==> unsent == self.outcome,
    {
        self.tx.send(self.outcome)
    }
}

/// `tokio::sync::oneshot::Sender::send`, which makes `t` the value of the
/// channel. It returns `Ok` where the receiving half still exists, and
/// otherwise `Err` with the value that was to be sent. Whether the receiving
/// half exists depends on the task that holds it, and nothing is claimed of it.
pub assume_specification<T>[ Sender::<T>::send ](sender: Sender<T>, t: T) -> (sent: Result<(), T>)
    ensures
        sent matches Err(unsent) ==> unsent == t,
;

} // verus!
