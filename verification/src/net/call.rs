//! Calls: requests whose callers wait for the response.

use tokio::sync::oneshot::error::RecvError;
use tokio::sync::oneshot::{Receiver, Sender};
use vstd::prelude::*;

use crate::base::pending_responses::{
    IdentityView, PendingRegistration, PendingResponses, PendingTable, RequestView,
};
use crate::base::response_future::{Completion, ResponseFuture};
use crate::error::{ErrorView, RocketMQError, RocketMQResult};
use crate::metrics::TransportCounters;
use crate::net::channel_inner::{
    ChannelInner, ChannelView, Enqueue, EnqueueEvent, EnqueueWait, MessageView, SendStyle,
};
use crate::protocol::RemotingCommand;

verus! {

/// The receiving halves of `tokio` one-shot channels. A half is carried
/// through for the caller to wait on.
#[verifier::external_type_specification]
#[verifier::external_body]
#[verifier::reject_recursive_types(T)]
pub struct ExReceiver<T>(Receiver<T>);

/// The error that waiting on a receiving half ends with when the sending half is gone.
#[verifier::external_type_specification]
#[verifier::external_body]
pub struct ExRecvError(RecvError);

/// Prints a `tokio::sync::oneshot::error::RecvError`, whose `Display` always
/// writes the same words.
#[verifier::external_body]
fn recv_error_text(error: &RecvError) -> (text: String)
    ensures
        text@ == "channel closed"@,
{
    error.to_string()
}

/// `tokio::sync::oneshot::channel`, which makes a channel and returns its two
/// halves. No clause is needed: which halves belong together is told by the
/// call that returned them, see [`one_channel`].
pub assume_specification<T>[ tokio::sync::oneshot::channel::<T> ]() -> (halves: (
    Sender<T>,
    Receiver<T>,
));

/// Whether `tx` and `rx` are the halves of one channel: a call of
/// `tokio::sync::oneshot::channel` returned them together.
pub open spec fn one_channel(
    tx: Sender<RocketMQResult<RemotingCommand>>,
    rx: Receiver<RocketMQResult<RemotingCommand>>,
) -> bool {
    call_ensures(
        tokio::sync::oneshot::channel::<RocketMQResult<RemotingCommand>>,
        (),
        (tx, rx),
    )
}

/// The operations that wait for a response. They report failures in their own ways.
#[derive(Clone, Copy, Debug, PartialEq, Eq, Structural)]
pub enum CallStyle {
    /// A call on a channel.
    WaitResponse,
    /// A call of a client.
    SendRead,
    /// One of several calls of a client.
    SendBatchRead,
}

impl CallStyle {
    /// What the caller is told when a request with the same number is pending.
    pub open spec fn duplicate(self) -> ErrorView {
        match self {
            CallStyle::WaitResponse => crate::net::channel_inner::channel_failure(
                "duplicate pending request"@,
            ),
            _ => ErrorView::Remote("duplicate pending request"@),
        }
    }

    /// What the caller is told when the waiter was given up without an
    /// outcome, for which `text` stands.
    pub open spec fn dropped(self, text: Seq<char>) -> ErrorView {
        match self {
            CallStyle::WaitResponse => crate::net::channel_inner::channel_failure(
                "connection dropped: "@ + text,
            ),
            _ => ErrorView::Remote(text),
        }
    }

    /// What the caller is told when the deadline of the call came.
    pub open spec fn timed_out(self, timeout_millis: u64) -> ErrorView {
        ErrorView::Timeout {
            operation: match self {
                CallStyle::WaitResponse => "channel_recv"@,
                CallStyle::SendRead => "send_read"@,
                CallStyle::SendBatchRead => "send_batch_read"@,
            },
            timeout_ms: timeout_millis,
        }
    }

    fn duplicate_error(self) -> (error: RocketMQError)
        ensures
            error@ == self.duplicate(),
    {
        match self {
            CallStyle::WaitResponse => RocketMQError::network_connection_failed(
                "channel",
                "duplicate pending request",
            ),
            _ => crate::error::remote_error("duplicate pending request"),
        }
    }

    fn dropped_error(self, text: &str) -> (error: RocketMQError)
        ensures
            error@ == self.dropped(text@),
    {
        match self {
            CallStyle::WaitResponse => {
                let reason = crate::error::prefixed("connection dropped: ", text);
                RocketMQError::network_connection_failed("channel", &reason)
            },
            _ => crate::error::remote_error(text),
        }
    }

    fn timed_out_error(self, timeout_millis: u64) -> (error: RocketMQError)
        ensures
            error@ == self.timed_out(timeout_millis),
    {
        RocketMQError::Timeout {
            operation: match self {
                CallStyle::WaitResponse => "channel_recv",
                CallStyle::SendRead => "send_read",
                CallStyle::SendBatchRead => "send_batch_read",
            },
            timeout_ms: timeout_millis,
        }
    }
}

/// A call whose request is registered.
pub struct PendingCall {
    registration: PendingRegistration,
    deadline: u128,
    style: CallStyle,
    rx: Receiver<RocketMQResult<RemotingCommand>>,
}

/// What a [`PendingCall`] holds.
pub struct CallView {
    /// The registered request.
    pub request: RequestView,
    /// The instant up to which the caller waits.
    pub deadline: u128,
    /// How failures are reported.
    pub style: CallStyle,
    /// Where the caller waits for the outcome.
    pub rx: Receiver<RocketMQResult<RemotingCommand>>,
}

impl View for PendingCall {
    type V = CallView;

    closed spec fn view(&self) -> CallView {
        CallView {
            request: self.registration@,
            deadline: self.deadline,
            style: self.style,
            rx: self.rx,
        }
    }
}

/// A call whose request is registered and may enter the outbound queue.
pub struct StartedCall {
    pub call: PendingCall,
    pub enqueue: Enqueue,
}

/// What can come of waiting for a response.
pub enum ResponseEvent {
    /// The waiter was completed with this outcome.
    Completed(RocketMQResult<RemotingCommand>),
    /// The waiter was given up without an outcome.
    Dropped(RecvError),
    /// The deadline came first.
    DeadlineExpired,
}

/// How a call ended.
pub struct CallOutcome {
    /// What the caller is told.
    pub result: RocketMQResult<RemotingCommand>,
    /// What a waiter that was still pending when its time was over is told.
    pub timed_out: Option<Completion>,
}

/// The start of a call: what is asked, and what it is asked of.
pub struct CallStart {
    pub style: CallStyle,
    pub channel: ChannelView,
    pub request: RemotingCommand,
    pub timeout_millis: u64,
    pub now: u64,
    /// Where the outcome is sent.
    pub tx: Sender<RocketMQResult<RemotingCommand>>,
    /// Where the caller waits for it.
    pub rx: Receiver<RocketMQResult<RemotingCommand>>,
}

impl CallStart {
    /// Whether this is such a start, on a channel of its own: the caller waits
    /// where the outcome is sent.
    pub open spec fn asks(
        self,
        style: CallStyle,
        channel: ChannelView,
        request: RemotingCommand,
        timeout_millis: u64,
        now: u64,
    ) -> bool {
        &&& self == (CallStart {
            style,
            channel,
            request,
            timeout_millis,
            now,
            tx: self.tx,
            rx: self.rx,
        })
        &&& one_channel(self.tx, self.rx)
    }

    /// The key under which the request is pending.
    pub open spec fn key(self) -> (Seq<char>, i32) {
        (self.channel.connection.connection_id, self.request.opaque)
    }

    /// The waiter for the response.
    pub open spec fn future(self) -> ResponseFuture {
        ResponseFuture {
            opaque: self.request.opaque,
            timeout_millis: self.timeout_millis,
            send_request_ok: true,
            tx: self.tx,
        }
    }

    /// The instant up to which the caller waits.
    pub open spec fn deadline(self) -> u128 {
        crate::time::instant_after(self.now, self.timeout_millis)
    }

    /// The call that starts in `table`.
    pub open spec fn call(self, table: PendingTable) -> CallView {
        CallView {
            request: RequestView {
                identity: IdentityView { key: self.key(), token: table.next_token },
                timeout_millis: self.timeout_millis,
            },
            deadline: self.deadline(),
            style: self.style,
            rx: self.rx,
        }
    }

    /// The table after the start. A channel that takes no messages leaves
    /// nothing pending; the token is used up either way.
    pub open spec fn table_after(self, table: PendingTable) -> PendingTable {
        if self.channel.admits() {
            table.registered(self.key(), self.future())
        } else {
            PendingTable {
                next_token: crate::base::pending_responses::token_after(table.next_token),
                ..table
            }
        }
    }

    /// Whether the call can start in `table`, and `enqueue` lets its request
    /// into the outbound queue.
    pub open spec fn queues(self, table: PendingTable, enqueue: Enqueue) -> bool {
        &&& !table.is_pending(self.key())
        &&& self.channel.admits()
        &&& enqueue.message@ == MessageView::Command(
            self.request,
            Some(self.call(table).request),
            Some(self.deadline()),
        )
        &&& enqueue.wait == (EnqueueWait {
            deadline: Some(self.deadline()),
            timeout_millis: Some(self.timeout_millis),
            style: SendStyle::Plain,
        })
    }

    /// Whether the call cannot start in `table`, and `error` says why: its
    /// number is pending, or else the channel takes no messages.
    pub open spec fn refuses(self, table: PendingTable, error: ErrorView) -> bool {
        if table.is_pending(self.key()) {
            error == self.style.duplicate()
        } else {
            &&& !self.channel.admits()
            &&& error == crate::net::channel_inner::channel_failure("connection closed"@)
        }
    }

    /// Whether `started` is what the start in `table` gives.
    pub open spec fn gives(
        self,
        table: PendingTable,
        started: Result<StartedCall, RocketMQError>,
    ) -> bool {
        match started {
            Ok(started) => {
                &&& self.queues(table, started.enqueue)
                &&& started.call@ == self.call(table)
            },
            Err(error) => self.refuses(table, error@),
        }
    }
}

/// Starts a call: registers the request, whose outcome is sent over `tx` and
/// waited for on `rx`, and lets it into the outbound queue.
pub fn start_call(
    style: CallStyle,
    channel: &ChannelInner,
    request: RemotingCommand,
    timeout_millis: u64,
    now: u64,
    tx: Sender<RocketMQResult<RemotingCommand>>,
    rx: Receiver<RocketMQResult<RemotingCommand>>,
    table: &mut PendingResponses,
    metrics: &mut TransportCounters,
) -> (started: Result<StartedCall, RocketMQError>)
    requires
        old(table).wf(),
    ensures
        final(table).wf(),
        ({
            let start = CallStart {
                style,
                channel: channel@,
                request,
                timeout_millis,
                now,
                tx,
                rx,
            };
            &&& final(table)@ == start.table_after(old(table)@)
            &&& start.gives(old(table)@, started)
        }),
        final(metrics)@ == old(metrics)@.pending_moved(
            final(table)@.entries.len() - old(table)@.entries.len(),
        ),
{
    let ghost before = table@;
    let ghost gauge = metrics@;
    let deadline = crate::time::deadline_after(now, timeout_millis);
    let future = ResponseFuture::new(request.opaque(), timeout_millis, true, tx);
    let connection_id = channel.connection_ref().connection_id();
    let registration = match table.register(connection_id, future, metrics) {
        Ok(registration) => registration,
        Err(_) => {
            return Err(style.duplicate_error());
        },
    };
    let ghost registered = table@;
    let pending_request = registration.request();
    match channel.send_command(request, Some(deadline), Some(pending_request)) {
        Ok(enqueue) => Ok(
            StartedCall { call: PendingCall { registration, deadline, style, rx }, enqueue },
        ),
        Err(error) => {
            let _ = registration.release(table, metrics);
            proof {
                assert(table@.entries =~= before.entries);
                crate::metrics::law_gauge_moves_add_up(
                    gauge.pending_responses,
                    registered.entries.len() - before.entries.len(),
                    table@.entries.len() - registered.entries.len(),
                );
            }
            Err(error)
        },
    }
}

/// Starts a call on a one-shot channel of its own.
pub(crate) fn open_call(
    style: CallStyle,
    channel: &ChannelInner,
    request: RemotingCommand,
    timeout_millis: u64,
    now: u64,
    table: &mut PendingResponses,
    metrics: &mut TransportCounters,
) -> (started: Result<StartedCall, RocketMQError>)
    requires
        old(table).wf(),
    ensures
        final(table).wf(),
        exists|start: CallStart|
            #![trigger start.table_after(old(table)@)]
            {
                &&& start.asks(style, channel@, request, timeout_millis, now)
                &&& final(table)@ == start.table_after(old(table)@)
                &&& start.gives(old(table)@, started)
            },
        final(metrics)@ == old(metrics)@.pending_moved(
            final(table)@.entries.len() - old(table)@.entries.len(),
        ),
{
    let (tx, rx) = tokio::sync::oneshot::channel::<RocketMQResult<RemotingCommand>>();
    let ghost start = CallStart {
        style,
        channel: channel@,
        request,
        timeout_millis,
        now,
        tx,
        rx,
    };
    let ghost before = table@;
    let started = start_call(style, channel, request, timeout_millis, now, tx, rx, table, metrics);
    assert(table@ == start.table_after(before));
    started
}

impl ChannelInner {
    /// Starts a call on the channel. The caller waits on the receiving half of
    /// the call until the deadline of the call.
    pub fn send_wait_response(
        &self,
        request: RemotingCommand,
        timeout_millis: u64,
        now: u64,
        table: &mut PendingResponses,
        metrics: &mut TransportCounters,
    ) -> (started: Result<StartedCall, RocketMQError>)
        requires
            old(table).wf(),
        ensures
            final(table).wf(),
            exists|start: CallStart|
                #![trigger start.table_after(old(table)@)]
                {
                    &&& start.asks(CallStyle::WaitResponse, self@, request, timeout_millis, now)
                    &&& final(table)@ == start.table_after(old(table)@)
                    &&& start.gives(old(table)@, started)
                },
            final(metrics)@ == old(metrics)@.pending_moved(
                final(table)@.entries.len() - old(table)@.entries.len(),
            ),
    {
        open_call(CallStyle::WaitResponse, self, request, timeout_millis, now, table, metrics)
    }
}

impl CallView {
    /// What the caller is told after `event`.
    pub open spec fn answered(self, event: ResponseEvent) -> Result<RemotingCommand, ErrorView> {
        match event {
            ResponseEvent::Completed(outcome) => crate::error::result_view(outcome),
            ResponseEvent::Dropped(_) => Err(self.style.dropped("channel closed"@)),
            ResponseEvent::DeadlineExpired => Err(
                self.style.timed_out(self.request.timeout_millis),
            ),
        }
    }
}

impl PendingCall {
    /// The instant up to which the caller waits.
    pub fn deadline(&self) -> (deadline: u128)
        ensures
            deadline == self@.deadline,
    {
        self.deadline
    }

    /// The receiving half on which the caller waits.
    pub fn receiver(&mut self) -> (rx: &mut Receiver<RocketMQResult<RemotingCommand>>)
        ensures
            *rx == old(self)@.rx,
            final(self)@ == (CallView { rx: *final(rx), ..old(self)@ }),
    {
        &mut self.rx
    }

    /// Goes on after waiting for the outbound queue. Where the queue did not
    /// take the request, the call is over and its request is withdrawn.
    pub fn enqueued(
        self,
        wait: EnqueueWait,
        event: EnqueueEvent,
        table: &mut PendingResponses,
        metrics: &mut TransportCounters,
    ) -> (call: Result<PendingCall, RocketMQError>)
        requires
            old(table).wf(),
            event is DeadlineExpired ==> wait.deadline is Some,
        ensures
            final(table).wf(),
            call is Ok <==> event is Accepted,
            match call {
                Ok(call) => call == self && final(table)@ == old(table)@,
                Err(error) => {
                    &&& wait.resolved(event) == Err::<(), ErrorView>(error@)
                    &&& final(table)@ == old(table)@.withdrawn(self@.request.identity)
                },
            },
            final(metrics)@ == old(metrics)@.pending_moved(
                final(table)@.entries.len() - old(table)@.entries.len(),
            ),
    {
        proof {
            crate::metrics::law_gauge_moves_add_up(metrics@.pending_responses, 0, 0);
        }
        match wait.resolve(event) {
            Ok(_) => Ok(self),
            Err(error) => {
                let _ = self.registration.release(table, metrics);
                Err(error)
            },
        }
    }

    /// Ends the call after waiting for its response. Its request is withdrawn
    /// if it is still pending.
    pub fn finish(
        self,
        event: ResponseEvent,
        table: &mut PendingResponses,
        metrics: &mut TransportCounters,
    ) -> (outcome: CallOutcome)
        requires
            old(table).wf(),
        ensures
            final(table).wf(),
            crate::error::result_view(outcome.result) == self@.answered(event),
            event matches ResponseEvent::Completed(completed) ==> outcome.result == completed,
            final(table)@ == old(table)@.withdrawn(self@.request.identity),
            crate::base::pending_responses::fail_waiter(
                outcome.timed_out,
                if event is DeadlineExpired {
                    old(table)@.waiter(self@.request.identity)
                } else {
                    None
                },
                crate::base::pending_responses::remoting_timeout(self@.request.timeout_millis),
            ),
            final(metrics)@ == old(metrics)@.pending_moved(
                final(table)@.entries.len() - old(table)@.entries.len(),
            ),
    {
        match event {
            ResponseEvent::Completed(outcome) => {
                let _ = self.registration.release(table, metrics);
                CallOutcome { result: outcome, timed_out: None }
            },
            ResponseEvent::Dropped(error) => {
                let _ = self.registration.release(table, metrics);
                let text = recv_error_text(&error);
                CallOutcome { result: Err(self.style.dropped_error(&text)), timed_out: None }
            },
            ResponseEvent::DeadlineExpired => {
                let timeout_millis = self.registration.request().timeout_millis();
                let timed_out = self.registration.timeout(timeout_millis, table, metrics);
                let ghost gauge = metrics@;
                let _ = self.registration.release(table, metrics);
                proof {
                    crate::metrics::law_gauge_moves_add_up(gauge.pending_responses, 0, 0);
                }
                CallOutcome { result: Err(self.style.timed_out_error(timeout_millis)), timed_out }
            },
        }
    }

    /// Gives the call up. Its request is withdrawn if it is still pending.
    pub fn abandon(self, table: &mut PendingResponses, metrics: &mut TransportCounters)
        requires
            old(table).wf(),
        ensures
            final(table).wf(),
            final(table)@ == old(table)@.withdrawn(self@.request.identity),
            final(metrics)@ == old(metrics)@.pending_moved(
                final(table)@.entries.len() - old(table)@.entries.len(),
            ),
    {
        let _ = self.registration.release(table, metrics);
    }
}

} // verus!
