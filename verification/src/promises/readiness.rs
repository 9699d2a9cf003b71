//! When the operations can be called.
//!
//! The laws here leave no input out: a table that is well-formed, as every table
//! is after every operation, and what a task or a batch waits for, is all that
//! a caller needs.

use bytes::Bytes;
use tokio::sync::oneshot::{Receiver, Sender};
use vstd::prelude::*;

use crate::base::pending_responses::{
    PendingIdentity, PendingRegistration, PendingRequest, PendingResponses,
};
use crate::base::response_future::{Completion, ResponseFuture};
use crate::clients::batch::{BatchRead, BatchSend};
use crate::clients::client::{Client, ClientInner, ReceiveEvent, StreamEnds};
use crate::error::{RocketMQError, RocketMQResult};
use crate::metrics::TransportCounters;
use crate::net::call::{CallStyle, PendingCall, ResponseEvent};
use crate::net::channel_inner::{
    ChannelInner, ChannelMessage, EnqueueEvent, EnqueueWait, SendStyle,
};
use crate::net::send_loop::{SendEvent, SendLoop};
use crate::protocol::RemotingCommand;

verus! {

/// A table takes every operation, with any arguments.
pub proof fn law_table_is_ready()
    ensures
        forall|capacity: usize|
            #[trigger] call_requires(PendingResponses::with_capacity, (capacity,)),
        forall|
            table: &mut PendingResponses,
            id: &str,
            future: ResponseFuture,
            metrics: &mut TransportCounters,
        |
            table.wf() ==> #[trigger] call_requires(
                PendingResponses::register,
                (table, id, future, metrics),
            ),
        forall|table: &PendingResponses, identity: &PendingIdentity|
            table.wf() ==> #[trigger] call_requires(
                PendingResponses::is_registered,
                (table, identity),
            ),
        forall|table: &mut PendingResponses, id: &str, opaque: i32, metrics: &mut TransportCounters|
            table.wf() ==> #[trigger] call_requires(
                PendingResponses::take,
                (table, id, opaque, metrics),
            ),
        forall|
            table: &mut PendingResponses,
            identity: &PendingIdentity,
            metrics: &mut TransportCounters,
        |
            table.wf() ==> #[trigger] call_requires(
                PendingResponses::remove_if_token_matches,
                (table, identity, metrics),
            ),
        forall|
            table: &mut PendingResponses,
            identity: &PendingIdentity,
            message: &str,
            metrics: &mut TransportCounters,
        |
            table.wf() ==> #[trigger] call_requires(
                PendingResponses::fail_identity,
                (table, identity, message, metrics),
            ),
        forall|
            table: &mut PendingResponses,
            identity: &PendingIdentity,
            timeout: u64,
            metrics: &mut TransportCounters,
        |
            table.wf() ==> #[trigger] call_requires(
                PendingResponses::timeout_identity,
                (table, identity, timeout, metrics),
            ),
        forall|
            table: &mut PendingResponses,
            id: &str,
            message: &str,
            metrics: &mut TransportCounters,
        |
            table.wf() ==> #[trigger] call_requires(
                PendingResponses::fail_connection,
                (table, id, message, metrics),
            ),
        forall|table: &PendingResponses|
            table.wf() ==> #[trigger] call_requires(PendingResponses::len, (table,)),
        forall|table: &PendingResponses|
            table.wf() ==> #[trigger] call_requires(PendingResponses::is_empty, (table,)),
        forall|
            registration: &PendingRegistration,
            timeout: u64,
            table: &mut PendingResponses,
            metrics: &mut TransportCounters,
        |
            table.wf() ==> #[trigger] call_requires(
                PendingRegistration::timeout,
                (registration, timeout, table, metrics),
            ),
        forall|
            registration: PendingRegistration,
            table: &mut PendingResponses,
            metrics: &mut TransportCounters,
        |
            table.wf() ==> #[trigger] call_requires(
                PendingRegistration::release,
                (registration, table, metrics),
            ),
        forall|request: &PendingRequest, table: &PendingResponses|
            table.wf() ==> #[trigger] call_requires(
                PendingRequest::is_registered,
                (request, table),
            ),
        forall|
            request: &PendingRequest,
            message: &str,
            table: &mut PendingResponses,
            metrics: &mut TransportCounters,
        |
            table.wf() ==> #[trigger] call_requires(
                PendingRequest::fail,
                (request, message, table, metrics),
            ),
        forall|
            request: &PendingRequest,
            timeout: u64,
            table: &mut PendingResponses,
            metrics: &mut TransportCounters,
        |
            table.wf() ==> #[trigger] call_requires(
                PendingRequest::timeout,
                (request, timeout, table, metrics),
            ),
        forall|completion: Completion|
            #[trigger] call_requires(Completion::deliver, (completion,)),
{
}

/// A channel takes every operation, with any arguments. A wait for the queue can
/// end in any way, but with a deadline only if it has one.
pub proof fn law_channel_is_ready()
    ensures
        forall|
            channel: &ChannelInner,
            message: ChannelMessage,
            deadline: Option<u128>,
            style: SendStyle,
        |
            #[trigger] call_requires(ChannelInner::enqueue, (channel, message, deadline, style)),
        forall|
            channel: &ChannelInner,
            request: RemotingCommand,
            deadline: Option<u128>,
            pending: Option<PendingRequest>,
        |
            #[trigger] call_requires(
                ChannelInner::send_command,
                (channel, request, deadline, pending),
            ),
        forall|channel: &ChannelInner, bytes: Bytes|
            #[trigger] call_requires(ChannelInner::send_bytes, (channel, bytes)),
        forall|channel: &ChannelInner, request: RemotingCommand, timeout: u64, now: u64|
            #[trigger] call_requires(ChannelInner::send_oneway, (channel, request, timeout, now)),
        forall|channel: &ChannelInner, request: RemotingCommand, timeout: Option<u64>, now: u64|
            #[trigger] call_requires(ChannelInner::send, (channel, request, timeout, now)),
        forall|channel: &mut ChannelInner|
            #[trigger] call_requires(ChannelInner::mark_degraded, (channel,)),
        forall|
            channel: &mut ChannelInner,
            table: &mut PendingResponses,
            metrics: &mut TransportCounters,
        |
            table.wf() ==> #[trigger] call_requires(
                ChannelInner::shutdown,
                (channel, table, metrics),
            ),
        forall|wait: EnqueueWait, event: EnqueueEvent|
            (event is DeadlineExpired ==> wait.deadline is Some) ==> #[trigger] call_requires(
                EnqueueWait::resolve,
                (wait, event),
            ),
        forall|now: u64, timeout: u64|
            #[trigger] call_requires(crate::time::deadline_after, (now, timeout)),
        forall|deadline: u128, now: u64|
            #[trigger] call_requires(crate::time::has_expired, (deadline, now)),
        forall|error: &RocketMQError|
            #[trigger] call_requires(RocketMQError::text, (error,)),
{
}

/// Calls can start with any request and any timeout, and end in any way.
pub proof fn law_calls_are_ready<H>()
    ensures
        forall|
            style: CallStyle,
            channel: &ChannelInner,
            request: RemotingCommand,
            timeout: u64,
            now: u64,
            tx: Sender<RocketMQResult<RemotingCommand>>,
            rx: Receiver<RocketMQResult<RemotingCommand>>,
            table: &mut PendingResponses,
            metrics: &mut TransportCounters,
        |
            table.wf() ==> #[trigger] call_requires(
                crate::net::call::start_call,
                (style, channel, request, timeout, now, tx, rx, table, metrics),
            ),
        forall|
            channel: &ChannelInner,
            request: RemotingCommand,
            timeout: u64,
            now: u64,
            table: &mut PendingResponses,
            metrics: &mut TransportCounters,
        |
            table.wf() ==> #[trigger] call_requires(
                ChannelInner::send_wait_response,
                (channel, request, timeout, now, table, metrics),
            ),
        forall|
            client: &Client<H>,
            channel: &ChannelInner,
            request: RemotingCommand,
            timeout: u64,
            now: u64,
            table: &mut PendingResponses,
            metrics: &mut TransportCounters,
        |
            table.wf() ==> #[trigger] call_requires(
                Client::<H>::send_read,
                (client, channel, request, timeout, now, table, metrics),
            ),
        forall|
            call: PendingCall,
            wait: EnqueueWait,
            event: EnqueueEvent,
            table: &mut PendingResponses,
            metrics: &mut TransportCounters,
        |
            table.wf() && (event is DeadlineExpired ==> wait.deadline is Some) ==> #[trigger] call_requires(
                PendingCall::enqueued,
                (call, wait, event, table, metrics),
            ),
        forall|
            call: PendingCall,
            event: ResponseEvent,
            table: &mut PendingResponses,
            metrics: &mut TransportCounters,
        |
            table.wf() ==> #[trigger] call_requires(
                PendingCall::finish,
                (call, event, table, metrics),
            ),
        forall|call: PendingCall, table: &mut PendingResponses, metrics: &mut TransportCounters|
            table.wf() ==> #[trigger] call_requires(PendingCall::abandon, (call, table, metrics)),
{
}

/// The tasks of a connection can be told of every event that they wait for, and
/// a client can be closed and used at any time.
pub proof fn law_tasks_are_ready<H>()
    ensures
        forall|
            task: &mut SendLoop,
            event: SendEvent,
            now: u64,
            channel: &mut ChannelInner,
            table: &mut PendingResponses,
            metrics: &mut TransportCounters,
        |
            table.wf() && crate::promises::send_task::expects(task@, event) ==> #[trigger] call_requires(
                SendLoop::step,
                (task, event, now, channel, table, metrics),
            ),
        forall|stream: Result<StreamEnds, String>|
            #[trigger] call_requires(ClientInner::connect, (stream,)),
        forall|
            task: &ClientInner,
            message: &str,
            channel: &ChannelInner,
            table: &mut PendingResponses,
            metrics: &mut TransportCounters,
        |
            table.wf() ==> #[trigger] call_requires(
                ClientInner::fail_pending,
                (task, message, channel, table, metrics),
            ),
        forall|
            task: &mut ClientInner,
            event: ReceiveEvent,
            channel: &mut ChannelInner,
            table: &mut PendingResponses,
            metrics: &mut TransportCounters,
        |
            table.wf() && task@ ==> #[trigger] call_requires(
                ClientInner::run_recv,
                (task, event, channel, table, metrics),
            ),
        forall|
            client: &mut Client<H>,
            channel: &mut ChannelInner,
            table: &mut PendingResponses,
            metrics: &mut TransportCounters,
        |
            table.wf() ==> #[trigger] call_requires(
                Client::<H>::close,
                (client, channel, table, metrics),
            ),
        forall|client: &Client<H>, channel: &ChannelInner, request: RemotingCommand|
            #[trigger] call_requires(Client::<H>::send, (client, channel, request)),
        forall|client: &Client<H>, requests: Vec<RemotingCommand>|
            #[trigger] call_requires(Client::<H>::send_batch, (client, requests)),
        forall|client: &Client<H>, requests: Vec<RemotingCommand>, timeout: u64|
            #[trigger] call_requires(Client::<H>::send_batch_read, (client, requests, timeout)),
{
}

/// Batches can go on after any outcome: calls are answered once all requests are
/// submitted, and results are given out once all calls are answered.
pub proof fn law_batches_are_ready()
    ensures
        forall|batch: &mut BatchSend, previous: RocketMQResult<()>, channel: &ChannelInner|
            #[trigger] call_requires(BatchSend::step, (batch, previous, channel)),
        forall|
            batch: &mut BatchRead,
            channel: &ChannelInner,
            now: u64,
            tx: Sender<RocketMQResult<RemotingCommand>>,
            rx: Receiver<RocketMQResult<RemotingCommand>>,
            table: &mut PendingResponses,
            metrics: &mut TransportCounters,
        |
            table.wf() ==> #[trigger] call_requires(
                BatchRead::submit_with,
                (batch, channel, now, tx, rx, table, metrics),
            ),
        forall|
            batch: &mut BatchRead,
            channel: &ChannelInner,
            now: u64,
            table: &mut PendingResponses,
            metrics: &mut TransportCounters,
        |
            table.wf() ==> #[trigger] call_requires(
                BatchRead::submit,
                (batch, channel, now, table, metrics),
            ),
        forall|
            batch: &mut BatchRead,
            wait: EnqueueWait,
            event: EnqueueEvent,
            table: &mut PendingResponses,
            metrics: &mut TransportCounters,
        |
            table.wf() && (event is DeadlineExpired ==> wait.deadline is Some) ==> #[trigger] call_requires(
                BatchRead::enqueued,
                (batch, wait, event, table, metrics),
            ),
        forall|batch: &BatchRead|
            #[trigger] call_requires(BatchRead::next_deadline, (batch,)),
        forall|batch: &mut BatchRead|
            #[trigger] call_requires(BatchRead::next_receiver, (batch,)),
        forall|
            batch: &mut BatchRead,
            event: ResponseEvent,
            table: &mut PendingResponses,
            metrics: &mut TransportCounters,
        |
            table.wf() && batch@.requests.len() == 0 && batch@.waiting.len() > 0 ==> #[trigger] call_requires(
                BatchRead::respond,
                (batch, event, table, metrics),
            ),
        forall|batch: BatchRead|
            batch@.requests.len() == 0 && batch@.waiting.len() == 0 ==> #[trigger] call_requires(
                BatchRead::finish,
                (batch,),
            ),
        forall|batch: &mut BatchRead, table: &mut PendingResponses, metrics: &mut TransportCounters|
            table.wf() ==> #[trigger] call_requires(BatchRead::abandon, (batch, table, metrics)),
{
}

} // verus!
