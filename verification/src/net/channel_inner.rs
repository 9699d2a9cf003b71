//! The state that the clones of a channel share.

use bytes::Bytes;
use flume::SendError;
use vstd::prelude::*;

use crate::base::pending_responses::{
    PendingRequest, PendingResponses, PendingTable, RequestView,
};
use crate::base::response_future::Completion;
use crate::connection::{Connection, ConnectionState, ConnectionView};
use crate::error::{ErrorView, RocketMQError, RocketMQResult};
use crate::metrics::TransportCounters;
use crate::protocol::RemotingCommand;

verus! {

/// The number of messages that the outbound queue of a channel holds.
pub const QUEUE_CAPACITY: usize = 1024;

/// A message on its way through the outbound queue of a channel.
pub enum ChannelMessage {
    /// A command, the pending request that it belongs to, and the instant up
    /// to which it may be sent.
    Command(RemotingCommand, Option<PendingRequest>, Option<u128>),
    /// Bytes that are written as they are.
    Bytes(Bytes),
}

/// What a [`ChannelMessage`] holds.
pub enum MessageView {
    Command(RemotingCommand, Option<RequestView>, Option<u128>),
    Bytes(Bytes),
}

/// What `request` refers to, if it is there.
pub open spec fn request_view(request: Option<PendingRequest>) -> Option<RequestView> {
    match request {
        Some(pending) => Some(pending@),
        None => None,
    }
}

impl View for ChannelMessage {
    type V = MessageView;

    open spec fn view(&self) -> MessageView {
        match self {
            ChannelMessage::Command(command, pending, deadline) => MessageView::Command(
                *command,
                request_view(*pending),
                *deadline,
            ),
            ChannelMessage::Bytes(bytes) => MessageView::Bytes(*bytes),
        }
    }
}

impl MessageView {
    /// How long the caller of the pending request waits, if the message belongs to one.
    pub open spec fn timeout_millis(self) -> Option<u64> {
        match self {
            MessageView::Command(_, Some(pending), _) => Some(pending.timeout_millis),
            _ => None,
        }
    }
}

/// The ways in which a failure to enqueue a message is reported.
#[derive(Clone, Copy, Debug, PartialEq, Eq, Structural)]
pub enum SendStyle {
    /// As it is.
    Plain,
    /// As the failure of a one-way request.
    Oneway,
    /// As the failure of a request that nobody waits for.
    Request,
    /// As the failure of a remote call.
    Remote,
}

impl SendStyle {
    /// What the caller is told when enqueueing fails with `error`.
    pub open spec fn reported(self, error: ErrorView) -> ErrorView {
        match self {
            SendStyle::Plain => error,
            SendStyle::Oneway => channel_failure("send oneway failed: "@ + error.text()),
            SendStyle::Request => channel_failure("send failed: "@ + error.text()),
            SendStyle::Remote => ErrorView::Remote(error.text()),
        }
    }

    /// The error that the caller is told of when enqueueing fails with `error`.
    fn report(self, error: RocketMQError) -> (reported: RocketMQError)
        ensures
            reported@ == self.reported(error@),
    {
        match self {
            SendStyle::Plain => error,
            SendStyle::Oneway => {
                let reason = crate::error::prefixed("send oneway failed: ", &error.text());
                RocketMQError::network_connection_failed("channel", &reason)
            },
            SendStyle::Request => {
                let reason = crate::error::prefixed("send failed: ", &error.text());
                RocketMQError::network_connection_failed("channel", &reason)
            },
            SendStyle::Remote => crate::error::remote_error(&error.text()),
        }
    }
}

/// The error of a channel that cannot be used because of `reason`.
pub open spec fn channel_failure(reason: Seq<char>) -> ErrorView {
    ErrorView::Network { addr: "channel"@, reason }
}

/// A message that the outbound queue is to take, and how to wait for that.
pub struct Enqueue {
    pub message: ChannelMessage,
    pub wait: EnqueueWait,
}

/// How to wait for the outbound queue, and how to tell the caller what came of it.
pub struct EnqueueWait {
    /// The instant up to which the queue may take its time.
    pub deadline: Option<u128>,
    /// How long the caller of the pending request waits, if the message belongs to one.
    pub timeout_millis: Option<u64>,
    /// How a failure is reported.
    pub style: SendStyle,
}

/// The errors of `flume` queues that have no reader any more.
#[verifier::external_type_specification]
#[verifier::external_body]
#[verifier::reject_recursive_types(T)]
pub struct ExSendError<T>(SendError<T>);

/// Prints a `flume::SendError`, whose `Display` writes the same words for
/// every message.
#[verifier::external_body]
fn send_error_text(error: &SendError<ChannelMessage>) -> (text: String)
    ensures
        text@ == "sending on a closed channel"@,
{
    error.to_string()
}

/// What can come of waiting for the outbound queue.
pub enum EnqueueEvent {
    /// The queue took the message.
    Accepted,
    /// The queue has no reader any more.
    Disconnected(SendError<ChannelMessage>),
    /// The deadline of the wait, which has one, came first.
    DeadlineExpired,
    /// The channel was shut down first.
    Shutdown,
}

impl EnqueueWait {
    /// What the caller is told after `event`.
    pub open spec fn resolved(self, event: EnqueueEvent) -> Result<(), ErrorView> {
        match event {
            EnqueueEvent::Accepted => Ok(()),
            EnqueueEvent::Disconnected(_) => Err(
                self.style.reported(
                    channel_failure("send failed: "@ + "sending on a closed channel"@),
                ),
            ),
            EnqueueEvent::DeadlineExpired => Err(
                self.style.reported(
                    ErrorView::Timeout {
                        operation: "send_queue"@,
                        timeout_ms: match self.timeout_millis {
                            Some(timeout_millis) => timeout_millis,
                            None => 0,
                        },
                    },
                ),
            ),
            EnqueueEvent::Shutdown => Err(
                self.style.reported(channel_failure("connection closed"@)),
            ),
        }
    }

    /// Tells the caller what came of waiting for the outbound queue.
    pub fn resolve(self, event: EnqueueEvent) -> (result: RocketMQResult<()>)
        requires
            event is DeadlineExpired ==> self.deadline is Some,
        ensures
            crate::error::result_view(result) == self.resolved(event),
    {
        let failure = match event {
            EnqueueEvent::Accepted => {
                return Ok(());
            },
            EnqueueEvent::Disconnected(error) => {
                let reason = crate::error::prefixed("send failed: ", &send_error_text(&error));
                RocketMQError::network_connection_failed("channel", &reason)
            },
            EnqueueEvent::DeadlineExpired => RocketMQError::Timeout {
                operation: "send_queue",
                timeout_ms: match self.timeout_millis {
                    Some(timeout_millis) => timeout_millis,
                    None => 0,
                },
            },
            EnqueueEvent::Shutdown => RocketMQError::network_connection_failed(
                "channel",
                "connection closed",
            ),
        };
        Err(self.style.report(failure))
    }
}

/// What is left to do for a shutdown.
pub enum ShutdownAction {
    /// Another shutdown does everything.
    AlreadyStarted,
    /// Signal the shutdown to the tasks, close the stream, deliver `failed`,
    /// and abort the send task.
    Close { failed: Vec<Completion> },
}

/// The state that the clones of a channel share.
pub struct ChannelInner {
    connection: Connection,
    closed: bool,
    shutdown_started: bool,
}

/// What a [`ChannelInner`] holds.
pub struct ChannelView {
    pub connection: ConnectionView,
    pub closed: bool,
    pub shutdown_started: bool,
}

impl View for ChannelInner {
    type V = ChannelView;

    closed spec fn view(&self) -> ChannelView {
        ChannelView {
            connection: self.connection@,
            closed: self.closed,
            shutdown_started: self.shutdown_started,
        }
    }
}

impl ChannelView {
    /// Whether the channel takes messages.
    pub open spec fn admits(self) -> bool {
        !self.closed && self.connection.state == ConnectionState::Healthy
    }

    /// The channel after reading or writing failed. A closed connection stays closed.
    pub open spec fn degraded(self) -> ChannelView {
        ChannelView {
            connection: ConnectionView {
                state: if self.connection.state == ConnectionState::Closed {
                    ConnectionState::Closed
                } else {
                    ConnectionState::Degraded
                },
                ..self.connection
            },
            ..self
        }
    }

    /// The channel after its connection was given up.
    pub open spec fn retired(self) -> ChannelView {
        ChannelView {
            connection: ConnectionView { state: ConnectionState::Closed, ..self.connection },
            closed: true,
            shutdown_started: self.shutdown_started,
        }
    }

    /// The channel after a shutdown.
    pub open spec fn shut_down(self) -> ChannelView {
        if self.shutdown_started {
            self
        } else {
            ChannelView { shutdown_started: true, ..self.retired() }
        }
    }

    /// The table after a shutdown.
    pub open spec fn table_shut_down(self, table: PendingTable) -> PendingTable {
        if self.shutdown_started {
            table
        } else {
            table.without_connection(self.connection.connection_id)
        }
    }

    /// Whether `action` is what a shutdown comes to when `table` is pending:
    /// the first one tells every waiter of the connection, later ones nobody.
    pub open spec fn shuts_down(self, table: PendingTable, action: ShutdownAction) -> bool {
        match action {
            ShutdownAction::AlreadyStarted => self.shutdown_started,
            ShutdownAction::Close { failed } => {
                &&& !self.shutdown_started
                &&& crate::base::pending_responses::fail_each(
                    failed@,
                    table.of_connection(self.connection.connection_id),
                    crate::base::pending_responses::remoting_failure("connection closed"@),
                )
            },
        }
    }

    /// Whether `enqueued` is the outcome of enqueueing `message` in the given style.
    pub open spec fn enqueues(
        self,
        message: MessageView,
        deadline: Option<u128>,
        style: SendStyle,
        enqueued: Result<Enqueue, RocketMQError>,
    ) -> bool {
        match enqueued {
            Ok(enqueue) => {
                &&& self.admits()
                &&& enqueue.message@ == message
                &&& enqueue.wait == (EnqueueWait {
                    deadline,
                    timeout_millis: message.timeout_millis(),
                    style,
                })
            },
            Err(error) => {
                &&& !self.admits()
                &&& error@ == style.reported(channel_failure("connection closed"@))
            },
        }
    }
}

impl ChannelInner {
    /// The state of a channel over a new connection.
    pub fn new(connection: Connection) -> (channel: Self)
        ensures
            channel@ == (ChannelView {
                connection: connection@,
                closed: false,
                shutdown_started: false,
            }),
    {
        ChannelInner { connection, closed: false, shutdown_started: false }
    }

    /// The connection.
    pub fn connection_ref(&self) -> (connection: &Connection)
        ensures
            connection@ == self@.connection,
    {
        &self.connection
    }

    /// The same as [`ChannelInner::connection_ref`].
    pub fn connection_mut(&self) -> (connection: &Connection)
        ensures
            connection@ == self@.connection,
    {
        &self.connection
    }

    /// Whether the connection works.
    pub fn is_healthy(&self) -> (healthy: bool)
        ensures
            healthy == (self@.connection.state == ConnectionState::Healthy),
    {
        self.connection.is_healthy()
    }

    /// The same as [`ChannelInner::is_healthy`].
    pub fn is_ok(&self) -> (healthy: bool)
        ensures
            healthy == (self@.connection.state == ConnectionState::Healthy),
    {
        self.connection.is_healthy()
    }

    /// Notes that reading or writing failed.
    pub fn mark_degraded(&mut self)
        ensures
            final(self)@ == old(self)@.degraded(),
    {
        self.connection.mark_degraded();
    }

    /// Gives up the connection: no message is taken any more, and the waiters
    /// of the connection are told of `message`.
    pub(crate) fn retire(
        &mut self,
        message: &str,
        table: &mut PendingResponses,
        metrics: &mut TransportCounters,
    ) -> (failed: Vec<Completion>)
        requires
            old(table).wf(),
        ensures
            final(table).wf(),
            final(self)@ == old(self)@.retired(),
            final(table)@ == old(table)@.without_connection(old(self)@.connection.connection_id),
            crate::base::pending_responses::fail_each(
                failed@,
                old(table)@.of_connection(old(self)@.connection.connection_id),
                crate::base::pending_responses::remoting_failure(message@),
            ),
            final(metrics)@ == old(metrics)@.pending_moved(
                final(table)@.entries.len() - old(table)@.entries.len(),
            ),
    {
        self.closed = true;
        self.connection.close();
        table.fail_connection(self.connection.connection_id(), message, metrics)
    }

    /// Shuts the channel down. Only the first shutdown has an effect.
    pub fn shutdown(
        &mut self,
        table: &mut PendingResponses,
        metrics: &mut TransportCounters,
    ) -> (action: ShutdownAction)
        requires
            old(table).wf(),
        ensures
            final(table).wf(),
            final(self)@ == old(self)@.shut_down(),
            final(table)@ == old(self)@.table_shut_down(old(table)@),
            old(self)@.shuts_down(old(table)@, action),
            final(metrics)@ == old(metrics)@.pending_moved(
                final(table)@.entries.len() - old(table)@.entries.len(),
            ),
    {
        if self.shutdown_started {
            proof {
                crate::metrics::law_gauge_moves_add_up(metrics@.pending_responses, 0, 0);
            }
            return ShutdownAction::AlreadyStarted;
        }
        self.shutdown_started = true;
        let failed = self.retire("connection closed", table, metrics);
        ShutdownAction::Close { failed }
    }

    /// Lets a message into the outbound queue while the channel is open and
    /// its connection works.
    pub fn enqueue(
        &self,
        message: ChannelMessage,
        deadline: Option<u128>,
        style: SendStyle,
    ) -> (enqueued: Result<Enqueue, RocketMQError>)
        ensures
            self@.enqueues(message@, deadline, style, enqueued),
    {
        if self.closed || !self.connection.is_healthy() {
            let failure = RocketMQError::network_connection_failed("channel", "connection closed");
            return Err(style.report(failure));
        }
        let timeout_millis = match &message {
            ChannelMessage::Command(_, Some(pending), _) => Some(pending.timeout_millis()),
            _ => None,
        };
        Ok(Enqueue { message, wait: EnqueueWait { deadline, timeout_millis, style } })
    }

    /// Enqueues a command, with the pending request that it belongs to.
    pub fn send_command(
        &self,
        request: RemotingCommand,
        deadline: Option<u128>,
        pending_request: Option<PendingRequest>,
    ) -> (enqueued: Result<Enqueue, RocketMQError>)
        ensures
            self@.enqueues(
                MessageView::Command(request, request_view(pending_request), deadline),
                deadline,
                SendStyle::Plain,
                enqueued,
            ),
    {
        self.enqueue(
            ChannelMessage::Command(request, pending_request, deadline),
            deadline,
            SendStyle::Plain,
        )
    }

    /// Enqueues bytes.
    pub fn send_bytes(&self, bytes: Bytes) -> (enqueued: Result<Enqueue, RocketMQError>)
        ensures
            self@.enqueues(MessageView::Bytes(bytes), None, SendStyle::Plain, enqueued),
    {
        self.enqueue(ChannelMessage::Bytes(bytes), None, SendStyle::Plain)
    }

    /// Enqueues a request to which the peer sends no response. The timeout is
    /// for enqueueing.
    pub fn send_oneway(
        &self,
        request: RemotingCommand,
        timeout_millis: u64,
        now: u64,
    ) -> (enqueued: Result<Enqueue, RocketMQError>)
        ensures
            self@.enqueues(
                MessageView::Command(
                    RemotingCommand { oneway: true, ..request },
                    None,
                    Some(crate::time::instant_after(now, timeout_millis)),
                ),
                Some(crate::time::instant_after(now, timeout_millis)),
                SendStyle::Oneway,
                enqueued,
            ),
    {
        let request = request.mark_oneway_rpc();
        let deadline = crate::time::deadline_after(now, timeout_millis);
        self.enqueue(
            ChannelMessage::Command(request, None, Some(deadline)),
            Some(deadline),
            SendStyle::Oneway,
        )
    }

    /// Enqueues a request without waiting for its response. The timeout, if
    /// there is one, is for enqueueing.
    pub fn send(
        &self,
        request: RemotingCommand,
        timeout_millis: Option<u64>,
        now: u64,
    ) -> (enqueued: Result<Enqueue, RocketMQError>)
        ensures
            ({
                let deadline = match timeout_millis {
                    Some(timeout) => Some(crate::time::instant_after(now, timeout)),
                    None => None,
                };
                self@.enqueues(
                    MessageView::Command(request, None, deadline),
                    deadline,
                    SendStyle::Request,
                    enqueued,
                )
            }),
    {
        let deadline = match timeout_millis {
            Some(timeout) => Some(crate::time::deadline_after(now, timeout)),
            None => None,
        };
        self.enqueue(ChannelMessage::Command(request, None, deadline), deadline, SendStyle::Request)
    }
}

} // verus!
