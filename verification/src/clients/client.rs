//! A client, and the task that receives for it.

use vstd::prelude::*;

use crate::base::pending_responses::PendingResponses;
use crate::base::response_future::Completion;
use crate::clients::batch::{BatchRead, BatchSend, BatchView};
use crate::error::{ErrorView, RocketMQError, RocketMQResult};
use crate::metrics::TransportCounters;
use crate::net::address::SocketAddress;
use crate::net::call::{CallStart, CallStyle, StartedCall};
use crate::net::channel_inner::{
    ChannelInner, ChannelMessage, Enqueue, MessageView, SendStyle, ShutdownAction,
};
use crate::protocol::RemotingCommand;

verus! {

/// News about connections.
#[derive(Clone, Copy, Debug, PartialEq, Eq, Structural)]
pub enum ConnectionNetEvent {
    /// A connection to this peer was established.
    CONNECTED(SocketAddress),
}

/// The ends of a connected stream: the local one and that of the peer, or why
/// the stream does not give them.
pub struct StreamEnds {
    pub local_address: Result<SocketAddress, String>,
    pub remote_address: Result<SocketAddress, String>,
}

/// What can be received.
pub enum ReceiveEvent {
    /// The peer sent a command.
    Frame(RemotingCommand),
    /// Receiving failed.
    Failed(RocketMQError),
    /// The peer closed the connection.
    Closed,
}

/// What the receive task does next.
pub enum ReceiveAction {
    /// Process the command, then receive the next one.
    Process(RemotingCommand),
    /// End the task with this result.
    Return(RocketMQResult<()>),
}

/// What a step of the receive task comes to.
pub struct ReceiveStep {
    /// What the task does next.
    pub action: ReceiveAction,
    /// What is left to do for the shutdown of the channel, if the task ends.
    pub shutdown: Option<ShutdownAction>,
    /// What the waiters that the shutdown left are told.
    pub failed: Vec<Completion>,
}

/// The receive task of a client.
pub struct ClientInner {
    running: bool,
}

impl View for ClientInner {
    type V = bool;

    /// Whether the task is running.
    closed spec fn view(&self) -> bool {
        self.running
    }
}

impl ClientInner {
    /// A task that waits for the first command.
    pub fn new() -> (task: Self)
        ensures
            task@,
    {
        ClientInner { running: true }
    }

    /// Decides what comes of an attempt to connect: the ends of the stream, or
    /// the first failure.
    pub fn connect(stream: Result<StreamEnds, String>) -> (ends: RocketMQResult<
        (SocketAddress, SocketAddress),
    >)
        ensures
            crate::error::result_view(ends) == match stream {
                Err(message) => Err::<(SocketAddress, SocketAddress), ErrorView>(
                    ErrorView::IO(message@),
                ),
                Ok(StreamEnds { local_address: Err(message), .. }) => Err(ErrorView::IO(message@)),
                Ok(StreamEnds { local_address: Ok(_), remote_address: Err(message) }) => Err(
                    ErrorView::IO(message@),
                ),
                Ok(StreamEnds { local_address: Ok(local), remote_address: Ok(remote) }) => Ok(
                    (local, remote),
                ),
            },
    {
        match stream {
            Err(message) => Err(crate::error::io_error(&message)),
            Ok(ends) => match ends.local_address {
                Err(message) => Err(crate::error::io_error(&message)),
                Ok(local) => match ends.remote_address {
                    Err(message) => Err(crate::error::io_error(&message)),
                    Ok(remote) => Ok((local, remote)),
                },
            },
        }
    }

    /// The news of an established connection, if somebody listens.
    pub fn connected_event(listening: bool, remote_address: SocketAddress) -> (event: Option<
        ConnectionNetEvent,
    >)
        ensures
            event == (if listening {
                Some(ConnectionNetEvent::CONNECTED(remote_address))
            } else {
                None
            }),
    {
        if listening {
            Some(ConnectionNetEvent::CONNECTED(remote_address))
        } else {
            None
        }
    }

    /// Tells the waiters of the channel that their requests failed.
    pub fn fail_pending(
        &self,
        message: &str,
        channel: &ChannelInner,
        table: &mut PendingResponses,
        metrics: &mut TransportCounters,
    ) -> (failed: Vec<Completion>)
        requires
            old(table).wf(),
        ensures
            final(table).wf(),
            final(table)@ == old(table)@.without_connection(channel@.connection.connection_id),
            crate::base::pending_responses::fail_each(
                failed@,
                old(table)@.of_connection(channel@.connection.connection_id),
                crate::base::pending_responses::remoting_failure(message@),
            ),
            final(metrics)@ == old(metrics)@.pending_moved(
                final(table)@.entries.len() - old(table)@.entries.len(),
            ),
    {
        table.fail_connection(channel.connection_ref().connection_id(), message, metrics)
    }

    /// Decides what comes of what was received. After a failure, or when the
    /// peer closed the connection, the channel is shut down, nobody waits on
    /// the connection any more, and the task ends.
    pub fn run_recv(
        &mut self,
        event: ReceiveEvent,
        channel: &mut ChannelInner,
        table: &mut PendingResponses,
        metrics: &mut TransportCounters,
    ) -> (step: ReceiveStep)
        requires
            old(table).wf(),
            old(self)@,
        ensures
            final(table).wf(),
            final(self)@ == (event is Frame),
            match event {
                ReceiveEvent::Frame(command) => {
                    &&& step.action == ReceiveAction::Process(command)
                    &&& step.shutdown is None
                    &&& step.failed@.len() == 0
                    &&& final(channel)@ == old(channel)@
                    &&& final(table)@ == old(table)@
                },
                _ => {
                    let message = match event {
                        ReceiveEvent::Failed(error) => error@.text(),
                        _ => "connection closed"@,
                    };
                    let shut_down = old(channel)@.table_shut_down(old(table)@);
                    &&& step.action == ReceiveAction::Return(
                        match event {
                            ReceiveEvent::Failed(error) => Err(error),
                            _ => Ok(()),
                        },
                    )
                    &&& step.shutdown is Some
                    &&& old(channel)@.shuts_down(old(table)@, step.shutdown->0)
                    &&& crate::base::pending_responses::fail_each(
                        step.failed@,
                        shut_down.of_connection(old(channel)@.connection.connection_id),
                        crate::base::pending_responses::remoting_failure(message),
                    )
                    &&& final(channel)@ == old(channel)@.shut_down()
                    &&& final(table)@ == old(table)@.without_connection(
                        old(channel)@.connection.connection_id,
                    )
                },
            },
            final(metrics)@ == old(metrics)@.pending_moved(
                final(table)@.entries.len() - old(table)@.entries.len(),
            ),
    {
        let ghost before = table@;
        let ghost gauge = metrics@;
        proof {
            crate::metrics::law_gauge_moves_add_up(metrics@.pending_responses, 0, 0);
        }
        let (message, result) = match event {
            ReceiveEvent::Frame(command) => {
                return ReceiveStep {
                    action: ReceiveAction::Process(command),
                    shutdown: None,
                    failed: Vec::new(),
                };
            },
            ReceiveEvent::Failed(error) => (error.text(), Err(error)),
            ReceiveEvent::Closed => ("connection closed".to_owned(), Ok(())),
        };
        self.running = false;
        let shutdown = channel.shutdown(table, metrics);
        let ghost between = table@;
        let failed = self.fail_pending(&message, channel, table, metrics);
        proof {
            crate::metrics::law_gauge_moves_add_up(
                gauge.pending_responses,
                between.entries.len() - before.entries.len(),
                table@.entries.len() - between.entries.len(),
            );
            assert(table@ =~= before.without_connection(channel@.connection.connection_id));
        }
        ReceiveStep { action: ReceiveAction::Return(result), shutdown: Some(shutdown), failed }
    }
}

/// A client of a remote peer. `H` is the handle to its receive task.
pub struct Client<H> {
    receive: Option<H>,
}

impl<H> View for Client<H> {
    type V = Option<H>;

    /// The handle to the receive task, until it is taken to end the task.
    closed spec fn view(&self) -> Option<H> {
        self.receive
    }
}

impl<H> Client<H> {
    /// A client whose receive task is `receive`.
    pub fn new(receive: H) -> (client: Self)
        ensures
            client@ == Some(receive),
    {
        Client { receive: Some(receive) }
    }

    /// Closes the client: shuts its channel down, and gives the receive task
    /// out to be aborted. Dropping the last handle to a client closes it too.
    pub fn close(
        &mut self,
        channel: &mut ChannelInner,
        table: &mut PendingResponses,
        metrics: &mut TransportCounters,
    ) -> (closed: (ShutdownAction, Option<H>))
        requires
            old(table).wf(),
        ensures
            final(table).wf(),
            final(self)@ == None::<H>,
            closed.1 == old(self)@,
            final(channel)@ == old(channel)@.shut_down(),
            final(table)@ == old(channel)@.table_shut_down(old(table)@),
            old(channel)@.shuts_down(old(table)@, closed.0),
            final(metrics)@ == old(metrics)@.pending_moved(
                final(table)@.entries.len() - old(table)@.entries.len(),
            ),
    {
        let shutdown = channel.shutdown(table, metrics);
        (shutdown, self.receive.take())
    }

    /// Starts a call of the peer. The caller waits on the receiving half of the
    /// call until the deadline of the call.
    pub fn send_read(
        &self,
        channel: &ChannelInner,
        request: RemotingCommand,
        timeout_millis: u64,
        now: u64,
        table: &mut PendingResponses,
        metrics: &mut TransportCounters,
    ) -> (started: Result<StartedCall, RocketMQError>)
        requires
            old(table).wf(),
        ensures
            final(table).wf(),
            exists|start: CallStart|
                #![trigger start.table_after(old(table)@)]
                {
                    &&& start.asks(CallStyle::SendRead, channel@, request, timeout_millis, now)
                    &&& final(table)@ == start.table_after(old(table)@)
                    &&& start.gives(old(table)@, started)
                },
            final(metrics)@ == old(metrics)@.pending_moved(
                final(table)@.entries.len() - old(table)@.entries.len(),
            ),
    {
        crate::net::call::open_call(
            CallStyle::SendRead,
            channel,
            request,
            timeout_millis,
            now,
            table,
            metrics,
        )
    }

    /// Enqueues a request without waiting for its response.
    pub fn send(&self, channel: &ChannelInner, request: RemotingCommand) -> (enqueued: Result<
        Enqueue,
        RocketMQError,
    >)
        ensures
            channel@.enqueues(
                MessageView::Command(request, None, None),
                None,
                SendStyle::Remote,
                enqueued,
            ),
    {
        channel.enqueue(ChannelMessage::Command(request, None, None), None, SendStyle::Remote)
    }

    /// A batch that enqueues `requests` without waiting for their responses.
    pub fn send_batch(&self, requests: Vec<RemotingCommand>) -> (batch: BatchSend)
        ensures
            batch@ == requests@,
    {
        BatchSend::new(requests)
    }

    /// A batch that calls the peer with each of `requests`, and waits
    /// `timeout_millis` for each response.
    pub fn send_batch_read(
        &self,
        requests: Vec<RemotingCommand>,
        timeout_millis: u64,
    ) -> (batch: BatchRead)
        ensures
            batch@ == (BatchView {
                timeout_millis,
                requests: requests@,
                waiting: Seq::empty(),
                results: Seq::empty(),
            }),
    {
        BatchRead::new(requests, timeout_millis)
    }
}

} // verus!
