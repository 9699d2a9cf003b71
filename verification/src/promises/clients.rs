//! What clients, and the task that receives for them, promise.

use vstd::prelude::*;

use crate::base::pending_responses::PendingResponses;
use crate::base::response_future::Completion;
use crate::clients::batch::{BatchRead, BatchSend};
use crate::clients::client::{
    Client, ClientInner, ConnectionNetEvent, ReceiveAction, ReceiveEvent, ReceiveStep, StreamEnds,
};
use crate::error::{RocketMQError, RocketMQResult};
use crate::metrics::TransportCounters;
use crate::net::address::SocketAddress;
use crate::net::channel_inner::{
    ChannelInner, ChannelMessage, Enqueue, SendStyle, ShutdownAction,
};
use crate::protocol::RemotingCommand;

verus! {

/// Connecting gives both ends of the stream, the local one first, or the first
/// failure as it was met, and the peer is announced if somebody listens.
pub proof fn law_connect(
    stream: Result<StreamEnds, String>,
    ends: RocketMQResult<(SocketAddress, SocketAddress)>,
    listening: bool,
    remote_address: SocketAddress,
    event: Option<ConnectionNetEvent>,
)
    ensures
        call_ensures(ClientInner::connect, (stream,), ends) ==> match ends {
            Ok((local, remote)) => stream matches Ok(found) && found.local_address == Ok::<
                SocketAddress,
                String,
            >(local) && found.remote_address == Ok::<SocketAddress, String>(remote),
            Err(error) => match stream {
                Err(message) => crate::promises::is_io(error, message@),
                Ok(found) => match (found.local_address, found.remote_address) {
                    (Err(message), _) => crate::promises::is_io(error, message@),
                    (Ok(_), Err(message)) => crate::promises::is_io(error, message@),
                    (Ok(_), Ok(_)) => false,
                },
            },
        },
        call_ensures(ClientInner::connected_event, (listening, remote_address), event) ==> (
        match event {
            Some(ConnectionNetEvent::CONNECTED(address)) => listening && address
                == remote_address,
            None => !listening,
        }),
{
}

/// Failing what is pending on a channel removes everything on its connection
/// and nothing else, and tells every waiter there, and nobody else, why.
pub proof fn law_fail_pending()
    ensures
        forall|
            task: &ClientInner,
            message: &str,
            channel: &ChannelInner,
            table: &mut PendingResponses,
            metrics: &mut TransportCounters,
            failed: Vec<Completion>,
        | #[trigger]
            call_ensures(
                ClientInner::fail_pending,
                (task, message, channel, table, metrics),
                failed,
            ) ==> {
                &&& crate::promises::all_told(
                    failed@,
                    table@.entries,
                    channel@.connection.connection_id,
                    message@,
                )
                &&& crate::promises::cleared_of(
                    table@.entries,
                    final(table)@.entries,
                    channel@.connection.connection_id,
                )
                &&& final(table)@.next_token == table@.next_token
                &&& crate::promises::gauge_follows(
                    metrics@,
                    final(metrics)@,
                    final(table)@.entries.len() - table@.entries.len(),
                )
                &&& final(table).wf()
            },
{
    crate::promises::lemma_gauges();
    crate::promises::lemma_tellings();
}

/// A command that was received is processed, and nothing else happens. After a
/// failure, or when the peer closed the connection, the task ends with what it
/// met, the channel is shut down, and nothing is pending on its connection:
/// every waiter there, and nobody else, was told so, by the shutdown, or by the
/// task where the shutdown came before.
pub proof fn law_receive_steps()
    ensures
        forall|
            task: &mut ClientInner,
            event: ReceiveEvent,
            channel: &mut ChannelInner,
            table: &mut PendingResponses,
            metrics: &mut TransportCounters,
            step: ReceiveStep,
        | #[trigger]
            call_ensures(
                ClientInner::run_recv,
                (task, event, channel, table, metrics),
                step,
            ) ==> {
                &&& final(task)@ <==> event is Frame
                &&& match event {
                    ReceiveEvent::Frame(command) => {
                        &&& step.action == ReceiveAction::Process(command)
                        &&& step.shutdown is None
                        &&& step.failed@.len() == 0
                        &&& final(channel)@ == channel@
                        &&& final(table)@ == table@
                    },
                    ReceiveEvent::Failed(error) => {
                        &&& step.action == ReceiveAction::Return(Err(error))
                        &&& exists|text: Seq<char>| #[trigger]
                            crate::promises::is_text_of(text, error) && tells_the_rest(
                                channel@,
                                table@.entries,
                                step,
                                text,
                            )
                    },
                    ReceiveEvent::Closed => {
                        &&& step.action == ReceiveAction::Return(Ok(()))
                        &&& tells_the_rest(
                            channel@,
                            table@.entries,
                            step,
                            "connection closed"@,
                        )
                    },
                }
                &&& !(event is Frame) ==> {
                    &&& step.shutdown matches Some(action) && crate::promises::shutdown_tells(
                        channel@,
                        table@.entries,
                        action,
                    )
                    &&& crate::promises::was_shut_down(channel@, final(channel)@)
                    &&& crate::promises::cleared_of(
                        table@.entries,
                        final(table)@.entries,
                        channel@.connection.connection_id,
                    )
                    &&& final(table)@.next_token == table@.next_token
                }
                &&& crate::promises::gauge_follows(
                    metrics@,
                    final(metrics)@,
                    final(table)@.entries.len() - table@.entries.len(),
                )
                &&& final(table).wf()
            },
        forall|task: ClientInner| #[trigger] call_ensures(ClientInner::new, (), task) ==> task@,
{
    crate::promises::lemma_gauges();
    crate::promises::lemma_tellings();
    assert forall|
        task: &mut ClientInner,
        event: ReceiveEvent,
        channel: &mut ChannelInner,
        table: &mut PendingResponses,
        metrics: &mut TransportCounters,
        step: ReceiveStep,
    | #[trigger]
        call_ensures(
            ClientInner::run_recv,
            (task, event, channel, table, metrics),
            step,
        ) && !(event is Frame) implies {
        &&& event is Closed ==> tells_the_rest(
            channel@,
            table@.entries,
            step,
            "connection closed"@,
        )
        &&& event matches ReceiveEvent::Failed(error) ==> {
            &&& crate::promises::is_text_of(error@.text(), error)
            &&& tells_the_rest(channel@, table@.entries, step, error@.text())
        }
    } by {
        if let ReceiveEvent::Failed(error) = event {
            crate::promises::values::lemma_text(error);
        }
        let message = match event {
            ReceiveEvent::Failed(error) => error@.text(),
            _ => "connection closed"@,
        };
        let connection_id = channel@.connection.connection_id;
        let left = channel@.table_shut_down(table@);
        crate::promises::lemma_told(step.failed@, left, connection_id, message);
        if !channel@.shutdown_started {
            assert(crate::promises::keys_on(left.entries, connection_id) =~= Set::empty());
        }
    }
}

/// Whether the task tells the waiters that a shutdown left: nobody, where the
/// shutdown told everybody, and otherwise everybody on the connection.
pub open spec fn tells_the_rest(
    channel: crate::net::channel_inner::ChannelView,
    entries: Map<(Seq<char>, i32), crate::base::pending_responses::PendingEntry>,
    step: ReceiveStep,
    reason: Seq<char>,
) -> bool {
    if channel.shutdown_started {
        crate::promises::all_told(
            step.failed@,
            entries,
            channel.connection.connection_id,
            reason,
        )
    } else {
        step.failed@.len() == 0
    }
}

/// A new client holds its receive task. Closing it gives the task out, once,
/// and shuts the channel down: every waiter of the connection, and nobody else,
/// is told that it is closed.
pub proof fn law_close<H>()
    ensures
        forall|receive: H, client: Client<H>| #[trigger]
            call_ensures(Client::<H>::new, (receive,), client) ==> client@ == Some(receive),
        forall|
            client: &mut Client<H>,
            channel: &mut ChannelInner,
            table: &mut PendingResponses,
            metrics: &mut TransportCounters,
            closed: (ShutdownAction, Option<H>),
        | #[trigger]
            call_ensures(Client::<H>::close, (client, channel, table, metrics), closed) ==> {
                &&& closed.1 == client@
                &&& final(client)@ is None
                &&& crate::promises::shutdown_tells(channel@, table@.entries, closed.0)
                &&& crate::promises::was_shut_down(channel@, final(channel)@)
                &&& channel@.shutdown_started ==> final(table)@ == table@
                &&& !channel@.shutdown_started ==> crate::promises::cleared_of(
                    table@.entries,
                    final(table)@.entries,
                    channel@.connection.connection_id,
                )
                &&& final(table)@.next_token == table@.next_token
                &&& crate::promises::gauge_follows(
                    metrics@,
                    final(metrics)@,
                    final(table)@.entries.len() - table@.entries.len(),
                )
                &&& final(table).wf()
            },
{
    crate::promises::lemma_gauges();
    crate::promises::lemma_tellings();
}

/// A client lets the caller's request into the queue as it is, without a
/// deadline, and its batches start with the caller's requests, in their order,
/// and the caller's timeout.
pub proof fn law_client_sends<H>(
    client: &Client<H>,
    channel: &ChannelInner,
    request: RemotingCommand,
    enqueued: Result<Enqueue, RocketMQError>,
    requests: Vec<RemotingCommand>,
    timeout_millis: u64,
    batch: BatchSend,
    calls: BatchRead,
)
    ensures
        call_ensures(Client::<H>::send, (client, channel, request), enqueued)
            ==> crate::promises::channels::lets_in(
            channel@,
            ChannelMessage::Command(request, None, None),
            None,
            None,
            SendStyle::Remote,
            enqueued,
        ),
        call_ensures(Client::<H>::send_batch, (client, requests), batch) ==> {
            &&& batch@.len() == requests@.len()
            &&& forall|i: int| 0 <= i < requests@.len() ==> #[trigger] batch@[i] == requests@[i]
        },
        call_ensures(Client::<H>::send_batch_read, (client, requests, timeout_millis), calls)
            ==> {
            &&& calls@.timeout_millis == timeout_millis
            &&& calls@.requests.len() == requests@.len()
            &&& forall|i: int|
                0 <= i < requests@.len() ==> #[trigger] calls@.requests[i] == requests@[i]
            &&& calls@.waiting.len() == 0
            &&& calls@.results.len() == 0
        },
{
}

} // verus!
