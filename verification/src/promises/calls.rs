//! What calls promise.

use tokio::sync::oneshot::{Receiver, Sender};
use vstd::prelude::*;

use crate::base::pending_responses::{PendingEntry, PendingResponses, PendingTable};
use crate::base::response_future::ResponseFuture;
use crate::clients::client::Client;
use crate::error::{RocketMQError, RocketMQResult};
use crate::metrics::TransportCounters;
use crate::net::call::{
    CallOutcome, CallStyle, CallView, PendingCall, ResponseEvent, StartedCall,
};
use crate::net::channel_inner::{
    ChannelInner, ChannelMessage, ChannelView, Enqueue, EnqueueEvent, EnqueueWait, SendStyle,
};
use crate::protocol::RemotingCommand;

verus! {

/// What goes into the start of a call.
pub struct Asked {
    pub style: CallStyle,
    pub channel: ChannelView,
    pub request: RemotingCommand,
    pub timeout_millis: u64,
    pub now: u64,
    pub tx: Sender<RocketMQResult<RemotingCommand>>,
    pub rx: Receiver<RocketMQResult<RemotingCommand>>,
}

impl Asked {
    /// The connection of the call and the number of its request.
    pub open spec fn place(self) -> (Seq<char>, i32) {
        (self.channel.connection.connection_id, self.request.opaque)
    }

    /// Whether the call can start: nothing is pending in its place, and the
    /// channel is open.
    pub open spec fn can_start(self, table: PendingTable) -> bool {
        !table.entries.contains_key(self.place()) && crate::promises::is_open(self.channel)
    }

    /// Whether `enqueue` lets the caller's request into the queue, in every
    /// field as it was given, for the request that is registered with the next
    /// token, and both have time until the timeout is over, from now on.
    pub open spec fn is_queued(self, table: PendingTable, enqueue: Enqueue) -> bool {
        &&& enqueue.message matches ChannelMessage::Command(command, pending, deadline) && {
            &&& command.code == self.request.code
            &&& command.opaque == self.request.opaque
            &&& command.oneway == self.request.oneway
            &&& command.body == self.request.body
            &&& pending matches Some(request) && {
                &&& request@.identity.key == self.place()
                &&& request@.identity.token == table.next_token
                &&& request@.timeout_millis == self.timeout_millis
            }
            &&& deadline matches Some(instant) && instant == crate::promises::due(
                self.now,
                self.timeout_millis,
            )
        }
        &&& enqueue.wait.deadline matches Some(instant) && instant == crate::promises::due(
            self.now,
            self.timeout_millis,
        )
        &&& enqueue.wait.timeout_millis == Some(self.timeout_millis)
        &&& enqueue.wait.style == SendStyle::Plain
    }

    /// Whether `call` is the call: for the request that is registered with the
    /// next token, waiting on the given half until the timeout is over.
    pub open spec fn is_called(self, table: PendingTable, call: CallView) -> bool {
        &&& call.request.identity.key == self.place()
        &&& call.request.identity.token == table.next_token
        &&& call.request.timeout_millis == self.timeout_millis
        &&& call.deadline == crate::promises::due(self.now, self.timeout_millis)
        &&& call.style == self.style
        &&& call.rx == self.rx
    }

    /// Whether `error` says why the call cannot start: its number is pending,
    /// or else the channel is closed.
    pub open spec fn is_refused(self, table: PendingTable, error: RocketMQError) -> bool {
        if table.entries.contains_key(self.place()) {
            if self.style == CallStyle::WaitResponse {
                crate::promises::is_network(error, "channel"@, "duplicate pending request"@)
            } else {
                crate::promises::is_remote(error, "duplicate pending request"@)
            }
        } else {
            crate::promises::is_network(error, "channel"@, "connection closed"@)
        }
    }

    /// Whether `after` is the table after the start: with a waiter that is
    /// completed over the given half, where the call starts, and otherwise
    /// with the same entries. The token is used up either way.
    pub open spec fn is_registered(self, table: PendingTable, after: PendingTable) -> bool {
        &&& after.next_token == crate::promises::next_of(table.next_token)
        &&& after.entries == if self.can_start(table) {
            table.entries.insert(
                self.place(),
                PendingEntry {
                    token: table.next_token,
                    future: ResponseFuture {
                        opaque: self.request.opaque,
                        timeout_millis: self.timeout_millis,
                        send_request_ok: true,
                        tx: self.tx,
                    },
                },
            )
        } else {
            table.entries
        }
    }

    /// Whether `started` and `after` are what the start comes to.
    pub open spec fn comes_to(
        self,
        table: PendingTable,
        started: Result<StartedCall, RocketMQError>,
        after: PendingTable,
    ) -> bool {
        &&& started is Ok <==> self.can_start(table)
        &&& match started {
            Ok(started) => {
                &&& self.is_queued(table, started.enqueue)
                &&& self.is_called(table, started.call@)
            },
            Err(error) => self.is_refused(table, error),
        }
        &&& self.is_registered(table, after)
    }

    /// Whether the two halves came from one call of `tokio`.
    pub open spec fn paired(self) -> bool {
        call_ensures(
            tokio::sync::oneshot::channel::<RocketMQResult<RemotingCommand>>,
            (),
            (self.tx, self.rx),
        )
    }
}

/// What `start` is in terms of what goes into it.
pub(crate) proof fn lemma_start(
    asked: Asked,
    start: crate::net::call::CallStart,
    table: PendingTable,
    enqueue: Enqueue,
    error: RocketMQError,
)
    requires
        start == (crate::net::call::CallStart {
            style: asked.style,
            channel: asked.channel,
            request: asked.request,
            timeout_millis: asked.timeout_millis,
            now: asked.now,
            tx: asked.tx,
            rx: asked.rx,
        }),
    ensures
        start.queues(table, enqueue) ==> asked.can_start(table) && asked.is_queued(table, enqueue),
        start.refuses(table, error@) ==> !asked.can_start(table) && asked.is_refused(table, error),
        asked.is_called(table, start.call(table)),
        asked.is_registered(table, start.table_after(table)),
{
    let timeout_millis = asked.timeout_millis;
    assert(timeout_millis * 1_000_000 <= u64::MAX * 1_000_000) by (nonlinear_arith)
        requires
            timeout_millis <= u64::MAX,
    ;
    assert(enqueue.message@ is Command ==> enqueue.message is Command);
}

/// Starting a call registers its request where nothing is pending in its place
/// and the channel is open, and lets the caller's own request, unchanged, into
/// the queue. Otherwise the caller is told why, and nothing is pending that was
/// not before.
pub proof fn law_start_call()
    ensures
        forall|
            style: CallStyle,
            channel: &ChannelInner,
            request: RemotingCommand,
            timeout_millis: u64,
            now: u64,
            tx: Sender<RocketMQResult<RemotingCommand>>,
            rx: Receiver<RocketMQResult<RemotingCommand>>,
            table: &mut PendingResponses,
            metrics: &mut TransportCounters,
            started: Result<StartedCall, RocketMQError>,
        | #[trigger]
            call_ensures(
                crate::net::call::start_call,
                (style, channel, request, timeout_millis, now, tx, rx, table, metrics),
                started,
            ) ==> {
                &&& (Asked {
                    style,
                    channel: channel@,
                    request,
                    timeout_millis,
                    now,
                    tx,
                    rx,
                }).comes_to(table@, started, final(table)@)
                &&& crate::promises::gauge_follows(
                    metrics@,
                    final(metrics)@,
                    final(table)@.entries.len() - table@.entries.len(),
                )
                &&& final(table).wf()
            },
{
    crate::promises::lemma_gauges();
    assert forall|
        style: CallStyle,
        channel: &ChannelInner,
        request: RemotingCommand,
        timeout_millis: u64,
        now: u64,
        tx: Sender<RocketMQResult<RemotingCommand>>,
        rx: Receiver<RocketMQResult<RemotingCommand>>,
        table: &mut PendingResponses,
        metrics: &mut TransportCounters,
        started: Result<StartedCall, RocketMQError>,
    | #[trigger]
        call_ensures(
            crate::net::call::start_call,
            (style, channel, request, timeout_millis, now, tx, rx, table, metrics),
            started,
        ) implies (Asked {
        style,
        channel: channel@,
        request,
        timeout_millis,
        now,
        tx,
        rx,
    }).comes_to(table@, started, final(table)@) by {
        let asked = Asked { style, channel: channel@, request, timeout_millis, now, tx, rx };
        let start = crate::net::call::CallStart {
            style,
            channel: channel@,
            request,
            timeout_millis,
            now,
            tx,
            rx,
        };
        lemma_start(asked, start, table@, started->Ok_0.enqueue, started->Err_0);
    }
}

/// Whether a call comes to `started` and `after`, on some channel of its own.
pub open spec fn opens(
    style: CallStyle,
    channel: ChannelView,
    request: RemotingCommand,
    timeout_millis: u64,
    now: u64,
    table: PendingTable,
    started: Result<StartedCall, RocketMQError>,
    after: PendingTable,
) -> bool {
    exists|asked: Asked| #[trigger]
        asked.comes_to(table, started, after) && asked.paired() && asked.style == style
            && asked.channel == channel && asked.request == request && asked.timeout_millis
            == timeout_millis && asked.now == now
}

proof fn lemma_opens(
    style: CallStyle,
    channel: ChannelView,
    request: RemotingCommand,
    timeout_millis: u64,
    now: u64,
    table: PendingTable,
    started: Result<StartedCall, RocketMQError>,
    after: PendingTable,
)
    requires
        exists|start: crate::net::call::CallStart|
            #![trigger start.table_after(table)]
            {
                &&& start.asks(style, channel, request, timeout_millis, now)
                &&& after == start.table_after(table)
                &&& start.gives(table, started)
            },
    ensures
        opens(style, channel, request, timeout_millis, now, table, started, after),
{
    let start = choose|start: crate::net::call::CallStart|
        #![trigger start.table_after(table)]
        {
            &&& start.asks(style, channel, request, timeout_millis, now)
            &&& after == start.table_after(table)
            &&& start.gives(table, started)
        };
    let asked = Asked {
        style,
        channel,
        request,
        timeout_millis,
        now,
        tx: start.tx,
        rx: start.rx,
    };
    lemma_start(asked, start, table, started->Ok_0.enqueue, started->Err_0);
    assert(asked.comes_to(table, started, after));
}

/// A call on a channel, and a call of a client, start as calls start, each in
/// its own style, and wait on the other half of the channel over which their
/// own waiter is completed.
pub proof fn law_calls_wait_for_their_own_response<H>()
    ensures
        forall|
            channel: &ChannelInner,
            request: RemotingCommand,
            timeout_millis: u64,
            now: u64,
            table: &mut PendingResponses,
            metrics: &mut TransportCounters,
            started: Result<StartedCall, RocketMQError>,
        | #[trigger]
            call_ensures(
                ChannelInner::send_wait_response,
                (channel, request, timeout_millis, now, table, metrics),
                started,
            ) ==> {
                &&& opens(
                    CallStyle::WaitResponse,
                    channel@,
                    request,
                    timeout_millis,
                    now,
                    table@,
                    started,
                    final(table)@,
                )
                &&& crate::promises::gauge_follows(
                    metrics@,
                    final(metrics)@,
                    final(table)@.entries.len() - table@.entries.len(),
                )
                &&& final(table).wf()
            },
        forall|
            client: &Client<H>,
            channel: &ChannelInner,
            request: RemotingCommand,
            timeout_millis: u64,
            now: u64,
            table: &mut PendingResponses,
            metrics: &mut TransportCounters,
            started: Result<StartedCall, RocketMQError>,
        | #[trigger]
            call_ensures(
                Client::<H>::send_read,
                (client, channel, request, timeout_millis, now, table, metrics),
                started,
            ) ==> {
                &&& opens(
                    CallStyle::SendRead,
                    channel@,
                    request,
                    timeout_millis,
                    now,
                    table@,
                    started,
                    final(table)@,
                )
                &&& crate::promises::gauge_follows(
                    metrics@,
                    final(metrics)@,
                    final(table)@.entries.len() - table@.entries.len(),
                )
                &&& final(table).wf()
            },
{
    crate::promises::lemma_gauges();
    assert forall|
        channel: &ChannelInner,
        request: RemotingCommand,
        timeout_millis: u64,
        now: u64,
        table: &mut PendingResponses,
        metrics: &mut TransportCounters,
        started: Result<StartedCall, RocketMQError>,
    | #[trigger]
        call_ensures(
            ChannelInner::send_wait_response,
            (channel, request, timeout_millis, now, table, metrics),
            started,
        ) implies opens(
        CallStyle::WaitResponse,
        channel@,
        request,
        timeout_millis,
        now,
        table@,
        started,
        final(table)@,
    ) by {
        lemma_opens(
            CallStyle::WaitResponse,
            channel@,
            request,
            timeout_millis,
            now,
            table@,
            started,
            final(table)@,
        );
    }
    assert forall|
        client: &Client<H>,
        channel: &ChannelInner,
        request: RemotingCommand,
        timeout_millis: u64,
        now: u64,
        table: &mut PendingResponses,
        metrics: &mut TransportCounters,
        started: Result<StartedCall, RocketMQError>,
    | #[trigger]
        call_ensures(
            Client::<H>::send_read,
            (client, channel, request, timeout_millis, now, table, metrics),
            started,
        ) implies opens(
        CallStyle::SendRead,
        channel@,
        request,
        timeout_millis,
        now,
        table@,
        started,
        final(table)@,
    ) by {
        lemma_opens(
            CallStyle::SendRead,
            channel@,
            request,
            timeout_millis,
            now,
            table@,
            started,
            final(table)@,
        );
    }
}

/// A call gives its deadline, and lends out the half on which it waits, with
/// everything else of it unchanged.
pub proof fn law_call_parts()
    ensures
        forall|call: &PendingCall, deadline: u128| #[trigger]
            call_ensures(PendingCall::deadline, (call,), deadline) ==> deadline == call@.deadline,
        forall|call: &mut PendingCall, rx: &mut Receiver<RocketMQResult<RemotingCommand>>|
            #[trigger]
            call_ensures(PendingCall::receiver, (call,), rx) ==> {
                &&& *rx == call@.rx
                &&& final(call)@.rx == *final(rx)
                &&& final(call)@.request == call@.request
                &&& final(call)@.deadline == call@.deadline
                &&& final(call)@.style == call@.style
            },
{
}

/// After waiting for the queue a call goes on as it is, if the queue took its
/// request. Otherwise it is over: its request, and nothing else, is withdrawn,
/// and the caller is told what kept the queue from taking it.
pub proof fn law_call_is_enqueued()
    ensures
        forall|
            call: PendingCall,
            wait: EnqueueWait,
            event: EnqueueEvent,
            table: &mut PendingResponses,
            metrics: &mut TransportCounters,
            result: Result<PendingCall, RocketMQError>,
        | #[trigger]
            call_ensures(PendingCall::enqueued, (call, wait, event, table, metrics), result) ==> {
                &&& result is Ok <==> event is Accepted
                &&& match result {
                    Ok(same) => same == call && final(table)@ == table@,
                    Err(error) => {
                        &&& crate::promises::channels::queue_failed(wait, event, error)
                        &&& crate::promises::removed(
                            table@,
                            final(table)@,
                            call@.request.identity,
                        )
                    },
                }
                &&& crate::promises::gauge_follows(
                    metrics@,
                    final(metrics)@,
                    final(table)@.entries.len() - table@.entries.len(),
                )
                &&& final(table).wf()
            },
{
    crate::promises::lemma_gauges();
    assert forall|
        call: PendingCall,
        wait: EnqueueWait,
        event: EnqueueEvent,
        table: &mut PendingResponses,
        metrics: &mut TransportCounters,
        result: Result<PendingCall, RocketMQError>,
    | #[trigger]
        call_ensures(PendingCall::enqueued, (call, wait, event, table, metrics), result)
            && result is Err implies crate::promises::channels::queue_failed(
        wait,
        event,
        result->Err_0,
    ) by {
        lemma_queue_failed(wait, event, result->Err_0);
    }
}

pub(crate) proof fn lemma_queue_failed(
    wait: EnqueueWait,
    event: EnqueueEvent,
    error: RocketMQError,
)
    requires
        wait.resolved(event) == Err::<(), crate::error::ErrorView>(error@),
    ensures
        crate::promises::channels::queue_failed(wait, event, error),
{
    let timeout_ms = match wait.timeout_millis {
        Some(timeout_millis) => timeout_millis,
        None => 0,
    };
    crate::promises::lemma_decimal(timeout_ms as nat);
    assert(crate::promises::writes_number(
        crate::error::decimal(timeout_ms as nat),
        timeout_ms as nat,
    ));
}

/// Whether `result` is what the caller is told after `event`: the outcome
/// itself, if the waiter was completed, and otherwise, in the style of the
/// operation, that the waiter was given up, or that the time is over.
pub open spec fn tells_caller(
    style: CallStyle,
    timeout_millis: u64,
    event: ResponseEvent,
    result: RocketMQResult<RemotingCommand>,
) -> bool {
    match event {
        ResponseEvent::Completed(outcome) => result == outcome,
        ResponseEvent::Dropped(_) => result matches Err(error) && if style
            == CallStyle::WaitResponse {
            crate::promises::is_network(
                error,
                "channel"@,
                "connection dropped: "@ + "channel closed"@,
            )
        } else {
            crate::promises::is_remote(error, "channel closed"@)
        },
        ResponseEvent::DeadlineExpired => result matches Err(error) && crate::promises::is_timeout(
            error,
            match style {
                CallStyle::WaitResponse => "channel_recv"@,
                CallStyle::SendRead => "send_read"@,
                CallStyle::SendBatchRead => "send_batch_read"@,
            },
            timeout_millis,
        ),
    }
}

/// A call that ends gives its caller the outcome as it is, or says why there is
/// none. Its request, and nothing else, is withdrawn, and only a waiter that
/// was still pending when the time was over is told so.
pub proof fn law_call_finishes()
    ensures
        forall|
            call: PendingCall,
            event: ResponseEvent,
            table: &mut PendingResponses,
            metrics: &mut TransportCounters,
            outcome: CallOutcome,
        | #[trigger]
            call_ensures(PendingCall::finish, (call, event, table, metrics), outcome) ==> {
                &&& tells_caller(
                    call@.style,
                    call@.request.timeout_millis,
                    event,
                    outcome.result,
                )
                &&& crate::promises::removed(table@, final(table)@, call@.request.identity)
                &&& if event is DeadlineExpired {
                    crate::promises::pending::times_its_waiter_out(
                        table@.entries,
                        call@.request.identity,
                        outcome.timed_out,
                        call@.request.timeout_millis,
                    )
                } else {
                    outcome.timed_out is None
                }
                &&& crate::promises::gauge_follows(
                    metrics@,
                    final(metrics)@,
                    final(table)@.entries.len() - table@.entries.len(),
                )
                &&& final(table).wf()
            },
        forall|call: PendingCall, table: &mut PendingResponses, metrics: &mut TransportCounters|
            #[trigger]
            call_ensures(PendingCall::abandon, (call, table, metrics), ()) ==> {
                &&& crate::promises::removed(table@, final(table)@, call@.request.identity)
                &&& crate::promises::gauge_follows(
                    metrics@,
                    final(metrics)@,
                    final(table)@.entries.len() - table@.entries.len(),
                )
                &&& final(table).wf()
            },
{
    crate::promises::lemma_gauges();
}

} // verus!
