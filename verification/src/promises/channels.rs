//! What channels promise.

use std::sync::Arc;

use bytes::Bytes;
use cheetah_string::CheetahString;
use vstd::prelude::*;

use crate::base::pending_responses::{PendingRequest, PendingResponses};
use crate::connection::{Connection, ConnectionState};
use crate::error::{RocketMQError, RocketMQResult};
use crate::metrics::TransportCounters;
use crate::net::address::SocketAddress;
use crate::net::channel::Channel;
use crate::net::channel_inner::{
    ChannelInner, ChannelMessage, ChannelView, Enqueue, EnqueueEvent, EnqueueWait, SendStyle,
    ShutdownAction,
};
use crate::protocol::RemotingCommand;

verus! {

/// A channel has the addresses and the state that it was made with, and the
/// identifier, where one is given. Otherwise the identifier is a random one: 36
/// characters, grouped by dashes.
pub proof fn law_new_channels<I>(
    inner: Arc<I>,
    local_address: SocketAddress,
    remote_address: SocketAddress,
    channel_id: String,
    channel: Channel<I>,
)
    ensures
        call_ensures(Channel::<I>::new, (inner, local_address, remote_address), channel) ==> {
            let id = channel@.channel_id;
            &&& channel.shared() == *inner
            &&& channel@.local_address == local_address
            &&& channel@.remote_address == remote_address
            &&& id.len() == 36
            &&& id[8] == '-' && id[13] == '-' && id[18] == '-' && id[23] == '-'
            &&& id[14] == '4'
            &&& forall|i: int|
                0 <= i < 36 && i != 8 && i != 13 && i != 18 && i != 23 ==> '0'
                    <= #[trigger] id[i] <= '9' || 'a' <= id[i] <= 'f'
        },
        call_ensures(
            Channel::<I>::with_id,
            (inner, local_address, remote_address, channel_id),
            channel,
        ) ==> {
            &&& channel.shared() == *inner
            &&& channel@.local_address == local_address
            &&& channel@.remote_address == remote_address
            &&& channel@.channel_id == channel_id@
        },
{
}

/// A setter sets what it names and nothing else.
pub proof fn law_channel_setters<I>()
    ensures
        forall|channel: &mut Channel<I>, address: SocketAddress| #[trigger]
            call_ensures(Channel::<I>::set_local_address, (channel, address), ()) ==> {
                &&& final(channel)@.local_address == address
                &&& final(channel)@.remote_address == channel@.remote_address
                &&& final(channel)@.channel_id == channel@.channel_id
                &&& final(channel).shared() == channel.shared()
            },
        forall|channel: &mut Channel<I>, address: SocketAddress| #[trigger]
            call_ensures(Channel::<I>::set_remote_address, (channel, address), ()) ==> {
                &&& final(channel)@.local_address == channel@.local_address
                &&& final(channel)@.remote_address == address
                &&& final(channel)@.channel_id == channel@.channel_id
                &&& final(channel).shared() == channel.shared()
            },
        forall|channel: &mut Channel<I>, channel_id: CheetahString| #[trigger]
            call_ensures(Channel::<I>::set_channel_id, (channel, channel_id), ()) ==> {
                &&& final(channel)@.local_address == channel@.local_address
                &&& final(channel)@.remote_address == channel@.remote_address
                &&& final(channel)@.channel_id == crate::net::channel::cheetah_text(channel_id)
                &&& final(channel).shared() == channel.shared()
            },
{
}

/// A getter gives what it names.
pub proof fn law_channel_getters<I>(
    channel: &Channel<I>,
    address: SocketAddress,
    id: &str,
    owned: CheetahString,
    inner: &I,
    key: (SocketAddress, SocketAddress, &str),
    copy: Channel<I>,
)
    ensures
        call_ensures(Channel::<I>::local_address, (channel,), address) ==> address
            == channel@.local_address,
        call_ensures(Channel::<I>::remote_address, (channel,), address) ==> address
            == channel@.remote_address,
        call_ensures(Channel::<I>::channel_id, (channel,), id) ==> id@ == channel@.channel_id,
        call_ensures(Channel::<I>::channel_id_owned, (channel,), owned)
            ==> crate::net::channel::cheetah_text(owned) == channel@.channel_id,
        call_ensures(Channel::<I>::channel_inner, (channel,), inner) ==> *inner
            == channel.shared(),
        call_ensures(Channel::<I>::channel_inner_mut, (channel,), inner) ==> *inner
            == channel.shared(),
        call_ensures(Channel::<I>::hash_key, (channel,), key) ==> {
            &&& key.0 == channel@.local_address
            &&& key.1 == channel@.remote_address
            &&& key.2@ == channel@.channel_id
        },
        call_ensures(Channel::<I>::clone, (channel,), copy) ==> {
            &&& copy@ == channel@
            &&& copy.shared() == channel.shared()
        },
{
}

/// Comparing two channels compares their addresses and their identifiers, and
/// nothing else.
pub proof fn law_channel_comparison<I>(a: &Channel<I>, b: &Channel<I>, equal: bool)
    ensures
        call_ensures(Channel::<I>::eq, (a, b), equal) ==> (equal <==> {
            &&& a@.local_address == b@.local_address
            &&& a@.remote_address == b@.remote_address
            &&& a@.channel_id == b@.channel_id
        }),
{
}

/// A channel is described by its addresses and its identifier.
pub proof fn law_channel_description<I>(
    channel: &Channel<I>,
    local_address: &str,
    remote_address: &str,
    text: String,
)
    ensures
        call_ensures(Channel::<I>::describe, (channel, local_address, remote_address), text)
            ==> text@ == "Channel { local_address: "@ + local_address@ + ", remote_address: "@
            + remote_address@ + ", channel_id: "@ + channel@.channel_id + " }"@,
{
}

/// The shared state of a new channel is open if its connection works, and tells
/// of its connection.
pub proof fn law_channel_state()
    ensures
        forall|connection: Connection, channel: ChannelInner| #[trigger]
            call_ensures(ChannelInner::new, (connection,), channel) ==> {
                &&& channel@.connection.connection_id == connection@.connection_id
                &&& channel@.connection.state == connection@.state
                &&& !channel@.closed
                &&& !channel@.shutdown_started
            },
        forall|channel: &ChannelInner, connection: &Connection| #[trigger]
            call_ensures(ChannelInner::connection_ref, (channel,), connection) ==> connection@
                == channel@.connection,
        forall|channel: &ChannelInner, connection: &Connection| #[trigger]
            call_ensures(ChannelInner::connection_mut, (channel,), connection) ==> connection@
                == channel@.connection,
        forall|channel: &ChannelInner, healthy: bool| #[trigger]
            call_ensures(ChannelInner::is_healthy, (channel,), healthy) ==> (healthy
                <==> channel@.connection.state == ConnectionState::Healthy),
        forall|channel: &ChannelInner, healthy: bool| #[trigger]
            call_ensures(ChannelInner::is_ok, (channel,), healthy) ==> (healthy
                <==> channel@.connection.state == ConnectionState::Healthy),
        forall|channel: &mut ChannelInner| #[trigger]
            call_ensures(ChannelInner::mark_degraded, (channel,), ()) ==> {
                &&& final(channel)@.connection.connection_id == channel@.connection.connection_id
                &&& final(channel)@.connection.state == if channel@.connection.state
                    == ConnectionState::Closed {
                    ConnectionState::Closed
                } else {
                    ConnectionState::Degraded
                }
                &&& final(channel)@.closed == channel@.closed
                &&& final(channel)@.shutdown_started == channel@.shutdown_started
            },
{
}

/// The first shutdown closes the channel and its connection, leaves nothing
/// pending on the connection, and tells every waiter there, and nobody else,
/// that the connection is closed. Later ones do nothing.
pub proof fn law_shutdown()
    ensures
        forall|
            channel: &mut ChannelInner,
            table: &mut PendingResponses,
            metrics: &mut TransportCounters,
            action: ShutdownAction,
        | #[trigger]
            call_ensures(ChannelInner::shutdown, (channel, table, metrics), action) ==> {
                &&& crate::promises::shutdown_tells(channel@, table@.entries, action)
                &&& crate::promises::was_shut_down(channel@, final(channel)@)
                &&& channel@.shutdown_started ==> final(table)@ == table@
                &&& !channel@.shutdown_started ==> crate::promises::cleared_of(
                    table@.entries,
                    final(table)@.entries,
                    channel@.connection.connection_id,
                )
                &&& final(table)@.next_token == table@.next_token
                &&& crate::promises::gauge_follows(
                    metrics@,
                    final(metrics)@,
                    final(table)@.entries.len() - table@.entries.len(),
                )
                &&& final(table).wf()
            },
{
    crate::promises::lemma_gauges();
    crate::promises::lemma_tellings();
}

/// The outbound queue holds 1024 messages.
pub proof fn law_queue_capacity()
    ensures
        crate::net::channel_inner::QUEUE_CAPACITY == 1024,
{
}

/// Whether `enqueued` lets `message` in unchanged, with `deadline` to wait for
/// the queue, exactly where the channel is open, and reports a closed
/// connection in `style` otherwise.
pub open spec fn lets_in(
    channel: ChannelView,
    message: ChannelMessage,
    deadline: Option<u128>,
    timeout_millis: Option<u64>,
    style: SendStyle,
    enqueued: Result<Enqueue, RocketMQError>,
) -> bool {
    &&& enqueued is Ok <==> crate::promises::is_open(channel)
    &&& match enqueued {
        Ok(enqueue) => {
            &&& same_message(enqueue.message, message)
            &&& enqueue.wait.deadline == deadline
            &&& enqueue.wait.timeout_millis == timeout_millis
            &&& enqueue.wait.style == style
        },
        Err(error) => crate::promises::reports_failure(error, style, "connection closed"@),
    }
}

/// Whether `message` is what was given: the same bytes, or the same command in
/// every field, with the same deadline and for the same pending request.
pub open spec fn same_message(message: ChannelMessage, given: ChannelMessage) -> bool {
    match (message, given) {
        (ChannelMessage::Bytes(bytes), ChannelMessage::Bytes(given)) => bytes == given,
        (
            ChannelMessage::Command(command, pending, deadline),
            ChannelMessage::Command(given, given_pending, given_deadline),
        ) => {
            &&& command.code == given.code
            &&& command.opaque == given.opaque
            &&& command.oneway == given.oneway
            &&& command.body == given.body
            &&& deadline == given_deadline
            &&& match (pending, given_pending) {
                (Some(pending), Some(given)) => pending@.identity == given@.identity
                    && pending@.timeout_millis == given@.timeout_millis,
                (None, None) => true,
                _ => false,
            }
        },
        _ => false,
    }
}

/// Enqueueing lets the given message in, unchanged, whatever the style and the
/// deadline, exactly where the channel is open.
pub proof fn law_enqueue(
    channel: &ChannelInner,
    message: ChannelMessage,
    deadline: Option<u128>,
    style: SendStyle,
    enqueued: Result<Enqueue, RocketMQError>,
)
    ensures
        call_ensures(ChannelInner::enqueue, (channel, message, deadline, style), enqueued)
            ==> lets_in(
            channel@,
            message,
            deadline,
            match message {
                ChannelMessage::Command(_, Some(pending), _) => Some(pending@.timeout_millis),
                _ => None,
            },
            style,
            enqueued,
        ),
{
}

/// Each way to send lets the caller's request in as it is. Only a one-way
/// request is marked, and nothing else of it is changed. The timeout counts from
/// now, and bounds the wait for the queue.
pub proof fn law_sends(
    channel: &ChannelInner,
    request: RemotingCommand,
    pending: Option<PendingRequest>,
    bytes: Bytes,
    deadline: Option<u128>,
    timeout_millis: u64,
    timeout: Option<u64>,
    now: u64,
    enqueued: Result<Enqueue, RocketMQError>,
)
    ensures
        call_ensures(ChannelInner::send_command, (channel, request, deadline, pending), enqueued)
            ==> lets_in(
            channel@,
            ChannelMessage::Command(request, pending, deadline),
            deadline,
            match pending {
                Some(pending) => Some(pending@.timeout_millis),
                None => None,
            },
            SendStyle::Plain,
            enqueued,
        ),
        call_ensures(ChannelInner::send_bytes, (channel, bytes), enqueued) ==> lets_in(
            channel@,
            ChannelMessage::Bytes(bytes),
            None,
            None,
            SendStyle::Plain,
            enqueued,
        ),
        call_ensures(ChannelInner::send_oneway, (channel, request, timeout_millis, now), enqueued)
            ==> {
            let marked = RemotingCommand {
                code: request.code,
                opaque: request.opaque,
                oneway: true,
                body: request.body,
            };
            let instant = crate::promises::due(now, timeout_millis) as u128;
            &&& instant == crate::promises::due(now, timeout_millis)
            &&& lets_in(
                channel@,
                ChannelMessage::Command(marked, None, Some(instant)),
                Some(instant),
                None,
                SendStyle::Oneway,
                enqueued,
            )
        },
        call_ensures(ChannelInner::send, (channel, request, timeout, now), enqueued) ==> {
            let instant = match timeout {
                Some(millis) => Some(crate::promises::due(now, millis) as u128),
                None => None,
            };
            &&& timeout matches Some(millis) ==> instant->0 == crate::promises::due(now, millis)
            &&& lets_in(
                channel@,
                ChannelMessage::Command(request, None, instant),
                instant,
                None,
                SendStyle::Request,
                enqueued,
            )
        },
{
    assert(timeout_millis * 1_000_000 <= u64::MAX * 1_000_000) by (nonlinear_arith)
        requires
            timeout_millis <= u64::MAX,
    ;
}

/// The caller is told what came of waiting for the queue: nothing went wrong if
/// the queue took the message, and otherwise whether the queue had no reader,
/// the deadline came, or the channel was shut down.
pub proof fn law_resolve(wait: EnqueueWait, event: EnqueueEvent, result: RocketMQResult<()>)
    ensures
        call_ensures(EnqueueWait::resolve, (wait, event), result) ==> {
            &&& result is Ok <==> event is Accepted
            &&& result matches Err(error) ==> queue_failed(wait, event, error)
        },
{
    crate::promises::lemma_decimals();
    if let EnqueueEvent::DeadlineExpired = event {
        let timeout_ms = match wait.timeout_millis {
            Some(timeout_millis) => timeout_millis,
            None => 0,
        };
        assert(crate::promises::writes_number(
            crate::error::decimal(timeout_ms as nat),
            timeout_ms as nat,
        ));
    }
}

/// Whether `error` reports what kept the queue from taking a message.
pub open spec fn queue_failed(
    wait: EnqueueWait,
    event: EnqueueEvent,
    error: RocketMQError,
) -> bool {
    match event {
        EnqueueEvent::Accepted => false,
        EnqueueEvent::Disconnected(_) => crate::promises::reports_failure(
            error,
            wait.style,
            "send failed: "@ + "sending on a closed channel"@,
        ),
        EnqueueEvent::DeadlineExpired => crate::promises::reports_timeout(
            error,
            wait.style,
            match wait.timeout_millis {
                Some(timeout_millis) => timeout_millis,
                None => 0,
            },
        ),
        EnqueueEvent::Shutdown => crate::promises::reports_failure(
            error,
            wait.style,
            "connection closed"@,
        ),
    }
}

} // verus!
