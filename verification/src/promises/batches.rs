//! What batches promise.

use tokio::sync::oneshot::{Receiver, Sender};
use vstd::prelude::*;

use crate::base::pending_responses::{PendingEntry, PendingResponses, PendingTable};
use crate::base::response_future::Completion;
use crate::clients::batch::{BatchRead, BatchSend, BatchSendStep, BatchView};
use crate::error::{ErrorView, RocketMQError, RocketMQResult};
use crate::metrics::TransportCounters;
use crate::net::call::{CallStyle, CallView, ResponseEvent};
use crate::net::channel_inner::{
    ChannelInner, ChannelMessage, ChannelView, Enqueue, EnqueueEvent, EnqueueWait, SendStyle,
};
use crate::promises::calls::Asked;
use crate::protocol::RemotingCommand;

verus! {

/// A batch enqueues its next request as it is, while nothing went wrong, the
/// channel is open and requests are left. It ends with `Ok` when none is left,
/// and with the first failure otherwise, and then nothing is left.
pub proof fn law_batch_send_steps()
    ensures
        forall|
            batch: &mut BatchSend,
            previous: RocketMQResult<()>,
            channel: &ChannelInner,
            step: BatchSendStep,
        | #[trigger]
            call_ensures(BatchSend::step, (batch, previous, channel), step) ==> {
                &&& step is Enqueue <==> previous is Ok && batch@.len() > 0
                    && crate::promises::is_open(channel@)
                &&& match step {
                    BatchSendStep::Enqueue(enqueue) => {
                        &&& crate::promises::channels::lets_in(
                            channel@,
                            ChannelMessage::Command(batch@[0], None, None),
                            None,
                            None,
                            SendStyle::Remote,
                            Ok(enqueue),
                        )
                        &&& final(batch)@ == batch@.subrange(1, batch@.len() as int)
                    },
                    BatchSendStep::Done(result) => {
                        &&& final(batch)@.len() == 0
                        &&& result is Ok <==> previous is Ok && batch@.len() == 0
                        &&& result matches Err(error) ==> match previous {
                            Err(met) => error == met,
                            Ok(_) => crate::promises::reports_failure(
                                error,
                                SendStyle::Remote,
                                "connection closed"@,
                            ),
                        }
                    },
                }
            },
{
    assert forall|
        batch: &mut BatchSend,
        previous: RocketMQResult<()>,
        channel: &ChannelInner,
        step: BatchSendStep,
    | #[trigger]
        call_ensures(BatchSend::step, (batch, previous, channel), step)
            && step is Enqueue implies final(batch)@ == batch@.subrange(
        1,
        batch@.len() as int,
    ) by {
        assert(batch@.drop_first() =~= batch@.subrange(1, batch@.len() as int));
    }
}

/// Whether the very entry of `entries` under `key` belongs to one of `calls`.
pub open spec fn owned(
    entries: Map<(Seq<char>, i32), PendingEntry>,
    calls: Seq<CallView>,
    key: (Seq<char>, i32),
) -> bool {
    exists|i: int|
        0 <= i < calls.len() && (#[trigger] calls[i]).request.identity.key == key
            && calls[i].request.identity.token == entries[key].token
}

/// Whether `after` is `before` without the requests of `calls`, and with
/// everything else.
pub open spec fn all_withdrawn(
    before: PendingTable,
    after: PendingTable,
    calls: Seq<CallView>,
) -> bool {
    &&& after.next_token == before.next_token
    &&& forall|key: (Seq<char>, i32)|
        #![trigger after.entries.contains_key(key)]
        #![trigger before.entries.contains_key(key)]
        {
            &&& after.entries.contains_key(key) <==> before.entries.contains_key(key) && !owned(
                before.entries,
                calls,
                key,
            )
            &&& after.entries.contains_key(key) ==> after.entries[key] == before.entries[key]
        }
}

proof fn lemma_all_withdrawn(table: PendingTable, calls: Seq<CallView>)
    ensures
        all_withdrawn(table, crate::clients::batch::withdrawn_all(table, calls), calls),
    decreases calls.len(),
{
    let after = crate::clients::batch::withdrawn_all(table, calls);
    if calls.len() > 0 {
        let identity = calls[0].request.identity;
        let next = table.withdrawn(identity);
        let rest = calls.drop_first();
        lemma_all_withdrawn(next, rest);
        assert forall|key: (Seq<char>, i32)|
            #![trigger after.entries.contains_key(key)]
            #![trigger table.entries.contains_key(key)]
            {
                &&& after.entries.contains_key(key) <==> table.entries.contains_key(key) && !owned(
                    table.entries,
                    calls,
                    key,
                )
                &&& after.entries.contains_key(key) ==> after.entries[key] == table.entries[key]
            } by {
            let kept = next.entries.contains_key(key);
            if table.entries.contains_key(key) && owned(table.entries, calls, key) {
                let i = choose|i: int|
                    0 <= i < calls.len() && (#[trigger] calls[i]).request.identity.key == key
                        && calls[i].request.identity.token == table.entries[key].token;
                if i > 0 && kept {
                    assert(rest[i - 1] == calls[i]);
                    assert(owned(next.entries, rest, key));
                }
            }
            if kept && owned(next.entries, rest, key) {
                let i = choose|i: int|
                    0 <= i < rest.len() && (#[trigger] rest[i]).request.identity.key == key
                        && rest[i].request.identity.token == next.entries[key].token;
                assert(calls[i + 1] == rest[i]);
                assert(owned(table.entries, calls, key));
            }
            if table.entries.contains_key(key) && !kept {
                assert(calls[0].request.identity.key == key);
                assert(owned(table.entries, calls, key));
            }
        }
    }
}

/// Whether `after` is the batch `before` after it was given up: nothing is left
/// to submit or to wait for, and the results stay.
pub open spec fn is_given_up(before: BatchView, after: BatchView) -> bool {
    &&& after.requests.len() == 0
    &&& after.waiting.len() == 0
    &&& after.results == before.results
    &&& after.timeout_millis == before.timeout_millis
}

/// Whether submitting the next request of the batch `before`, which `asked`
/// asks, comes to `submitted`. Where it is let in, the call has the timeout of
/// the batch, from now on, and joins the calls that are waited for, the newest
/// last. Where it is not, the whole batch is given up.
pub open spec fn submitted_as(
    before: BatchView,
    after: BatchView,
    table: PendingTable,
    table_after: PendingTable,
    asked: Asked,
    submitted: Result<Enqueue, RocketMQError>,
) -> bool {
    &&& submitted is Ok <==> asked.can_start(table)
    &&& match submitted {
        Ok(enqueue) => {
            &&& asked.is_queued(table, enqueue)
            &&& asked.is_registered(table, table_after)
            &&& after.requests == before.requests.subrange(1, before.requests.len() as int)
            &&& after.waiting.len() == before.waiting.len() + 1
            &&& asked.is_called(table, after.waiting[before.waiting.len() as int])
            &&& forall|i: int|
                0 <= i < before.waiting.len() ==> #[trigger] after.waiting[i] == before.waiting[i]
            &&& after.results == before.results
            &&& after.timeout_millis == before.timeout_millis
        },
        Err(error) => {
            &&& asked.is_refused(table, error)
            &&& is_given_up(before, after)
            &&& exists|between: PendingTable| #[trigger]
                asked.is_registered(table, between) && all_withdrawn(
                    between,
                    table_after,
                    before.waiting,
                )
        },
    }
}

/// What submitting the next request of a batch asks.
pub open spec fn next_asked(
    batch: BatchView,
    channel: ChannelView,
    now: u64,
    tx: Sender<RocketMQResult<RemotingCommand>>,
    rx: Receiver<RocketMQResult<RemotingCommand>>,
) -> Asked {
    Asked {
        style: CallStyle::SendBatchRead,
        channel,
        request: batch.requests[0],
        timeout_millis: batch.timeout_millis,
        now,
        tx,
        rx,
    }
}

proof fn lemma_submits(
    before: BatchView,
    after: BatchView,
    table: PendingTable,
    table_after: PendingTable,
    asked: Asked,
    submitted: Result<Enqueue, RocketMQError>,
)
    requires
        before.requests.len() > 0,
        before.submits(
            crate::net::call::CallStart {
                style: asked.style,
                channel: asked.channel,
                request: asked.request,
                timeout_millis: asked.timeout_millis,
                now: asked.now,
                tx: asked.tx,
                rx: asked.rx,
            },
            table,
            submitted,
            after,
            table_after,
        ),
    ensures
        submitted_as(before, after, table, table_after, asked, submitted),
{
    let start = crate::net::call::CallStart {
        style: asked.style,
        channel: asked.channel,
        request: asked.request,
        timeout_millis: asked.timeout_millis,
        now: asked.now,
        tx: asked.tx,
        rx: asked.rx,
    };
    crate::promises::calls::lemma_start(
        asked,
        start,
        table,
        submitted->Ok_0,
        submitted->Err_0,
    );
    lemma_all_withdrawn(start.table_after(table), before.waiting);
    assert(before.requests.drop_first() =~= before.requests.subrange(
        1,
        before.requests.len() as int,
    ));
    assert(asked.is_registered(table, start.table_after(table)));
}

/// Submitting asks for the next request of the batch, with the timeout that the
/// batch was made with, counted from now. There is none left to submit exactly
/// where nothing happens.
pub proof fn law_submit_with()
    ensures
        forall|
            batch: &mut BatchRead,
            channel: &ChannelInner,
            now: u64,
            tx: Sender<RocketMQResult<RemotingCommand>>,
            rx: Receiver<RocketMQResult<RemotingCommand>>,
            table: &mut PendingResponses,
            metrics: &mut TransportCounters,
            submitted: Option<Result<Enqueue, RocketMQError>>,
        | #[trigger]
            call_ensures(
                BatchRead::submit_with,
                (batch, channel, now, tx, rx, table, metrics),
                submitted,
            ) ==> {
                &&& match submitted {
                    None => {
                        &&& batch@.requests.len() == 0
                        &&& final(batch)@ == batch@
                        &&& final(table)@ == table@
                    },
                    Some(result) => {
                        &&& batch@.requests.len() > 0
                        &&& submitted_as(
                            batch@,
                            final(batch)@,
                            table@,
                            final(table)@,
                            next_asked(batch@, channel@, now, tx, rx),
                            result,
                        )
                    },
                }
                &&& crate::promises::gauge_follows(
                    metrics@,
                    final(metrics)@,
                    final(table)@.entries.len() - table@.entries.len(),
                )
                &&& final(table).wf()
            },
{
    crate::promises::lemma_gauges();
    assert forall|
        batch: &mut BatchRead,
        channel: &ChannelInner,
        now: u64,
        tx: Sender<RocketMQResult<RemotingCommand>>,
        rx: Receiver<RocketMQResult<RemotingCommand>>,
        table: &mut PendingResponses,
        metrics: &mut TransportCounters,
        submitted: Option<Result<Enqueue, RocketMQError>>,
    | #[trigger]
        call_ensures(
            BatchRead::submit_with,
            (batch, channel, now, tx, rx, table, metrics),
            submitted,
        ) && submitted is Some implies submitted_as(
        batch@,
        final(batch)@,
        table@,
        final(table)@,
        next_asked(batch@, channel@, now, tx, rx),
        submitted->0,
    ) by {
        lemma_submits(
            batch@,
            final(batch)@,
            table@,
            final(table)@,
            next_asked(batch@, channel@, now, tx, rx),
            submitted->0,
        );
    }
}

/// Whether submitting comes to `submitted` with the two halves of one channel.
pub open spec fn submitted_on_its_own(
    before: BatchView,
    after: BatchView,
    channel: ChannelView,
    now: u64,
    table: PendingTable,
    table_after: PendingTable,
    submitted: Result<Enqueue, RocketMQError>,
) -> bool {
    exists|asked: Asked| #[trigger]
        submitted_as(before, after, table, table_after, asked, submitted) && asked.paired()
            && asked == next_asked(before, channel, now, asked.tx, asked.rx)
}

/// Submitting does so with a channel of its own: the call waits on the other
/// half of the channel over which its own waiter is completed.
pub proof fn law_submit()
    ensures
        forall|
            batch: &mut BatchRead,
            channel: &ChannelInner,
            now: u64,
            table: &mut PendingResponses,
            metrics: &mut TransportCounters,
            submitted: Option<Result<Enqueue, RocketMQError>>,
        | #[trigger]
            call_ensures(
                BatchRead::submit,
                (batch, channel, now, table, metrics),
                submitted,
            ) ==> {
                &&& match submitted {
                    None => {
                        &&& batch@.requests.len() == 0
                        &&& final(batch)@ == batch@
                        &&& final(table)@ == table@
                    },
                    Some(result) => {
                        &&& batch@.requests.len() > 0
                        &&& submitted_on_its_own(
                            batch@,
                            final(batch)@,
                            channel@,
                            now,
                            table@,
                            final(table)@,
                            result,
                        )
                    },
                }
                &&& crate::promises::gauge_follows(
                    metrics@,
                    final(metrics)@,
                    final(table)@.entries.len() - table@.entries.len(),
                )
                &&& final(table).wf()
            },
{
    crate::promises::lemma_gauges();
    assert forall|
        batch: &mut BatchRead,
        channel: &ChannelInner,
        now: u64,
        table: &mut PendingResponses,
        metrics: &mut TransportCounters,
        submitted: Option<Result<Enqueue, RocketMQError>>,
    | #[trigger]
        call_ensures(
            BatchRead::submit,
            (batch, channel, now, table, metrics),
            submitted,
        ) && submitted is Some implies submitted_on_its_own(
        batch@,
        final(batch)@,
        channel@,
        now,
        table@,
        final(table)@,
        submitted->0,
    ) by {
        let start = choose|start: crate::net::call::CallStart|
            #![trigger start.table_after(table@)]
            {
                &&& start.asks(
                    CallStyle::SendBatchRead,
                    channel@,
                    batch@.requests[0],
                    batch@.timeout_millis,
                    now,
                )
                &&& batch@.submits(start, table@, submitted->0, final(batch)@, final(table)@)
            };
        let asked = next_asked(batch@, channel@, now, start.tx, start.rx);
        lemma_submits(batch@, final(batch)@, table@, final(table)@, asked, submitted->0);
    }
}

/// Giving a batch up withdraws the requests of its calls and nothing else.
/// After waiting for the queue, the batch goes on as it is, if the queue took
/// the request, and is given up otherwise.
pub proof fn law_batch_is_given_up()
    ensures
        forall|
            batch: &mut BatchRead,
            table: &mut PendingResponses,
            metrics: &mut TransportCounters,
        | #[trigger]
            call_ensures(BatchRead::abandon, (batch, table, metrics), ()) ==> {
                &&& is_given_up(batch@, final(batch)@)
                &&& all_withdrawn(table@, final(table)@, batch@.waiting)
                &&& crate::promises::gauge_follows(
                    metrics@,
                    final(metrics)@,
                    final(table)@.entries.len() - table@.entries.len(),
                )
                &&& final(table).wf()
            },
        forall|
            batch: &mut BatchRead,
            wait: EnqueueWait,
            event: EnqueueEvent,
            table: &mut PendingResponses,
            metrics: &mut TransportCounters,
            result: RocketMQResult<()>,
        | #[trigger]
            call_ensures(
                BatchRead::enqueued,
                (batch, wait, event, table, metrics),
                result,
            ) ==> {
                &&& result is Ok <==> event is Accepted
                &&& match result {
                    Ok(_) => final(batch)@ == batch@ && final(table)@ == table@,
                    Err(error) => {
                        &&& crate::promises::channels::queue_failed(wait, event, error)
                        &&& is_given_up(batch@, final(batch)@)
                        &&& all_withdrawn(table@, final(table)@, batch@.waiting)
                    },
                }
                &&& crate::promises::gauge_follows(
                    metrics@,
                    final(metrics)@,
                    final(table)@.entries.len() - table@.entries.len(),
                )
                &&& final(table).wf()
            },
{
    crate::promises::lemma_gauges();
    assert forall|table: PendingTable, calls: Seq<CallView>|
        all_withdrawn(
            table,
            #[trigger] crate::clients::batch::withdrawn_all(table, calls),
            calls,
        ) by {
        lemma_all_withdrawn(table, calls);
    }
    assert forall|
        batch: &mut BatchRead,
        wait: EnqueueWait,
        event: EnqueueEvent,
        table: &mut PendingResponses,
        metrics: &mut TransportCounters,
        result: RocketMQResult<()>,
    | #[trigger]
        call_ensures(
            BatchRead::enqueued,
            (batch, wait, event, table, metrics),
            result,
        ) && result is Err implies crate::promises::channels::queue_failed(
        wait,
        event,
        result->Err_0,
    ) by {
        crate::promises::calls::lemma_queue_failed(wait, event, result->Err_0);
    }
}

/// What is waited for next is the oldest call without a result: its deadline,
/// and the half on which it waits, with everything else unchanged.
pub proof fn law_oldest_is_next()
    ensures
        forall|batch: &BatchRead, deadline: Option<u128>| #[trigger]
            call_ensures(BatchRead::next_deadline, (batch,), deadline) ==> match deadline {
                Some(instant) => batch@.waiting.len() > 0 && instant == batch@.waiting[0].deadline,
                None => batch@.waiting.len() == 0,
            },
        forall|
            batch: &mut BatchRead,
            rx: Option<&mut Receiver<RocketMQResult<RemotingCommand>>>,
        | #[trigger]
            call_ensures(BatchRead::next_receiver, (batch,), rx) ==> match rx {
                Some(rx) => {
                    &&& batch@.waiting.len() > 0
                    &&& *rx == batch@.waiting[0].rx
                    &&& final(batch)@.waiting.len() == batch@.waiting.len()
                    &&& final(batch)@.waiting[0].rx == *final(rx)
                    &&& final(batch)@.waiting[0].request == batch@.waiting[0].request
                    &&& final(batch)@.waiting[0].deadline == batch@.waiting[0].deadline
                    &&& final(batch)@.waiting[0].style == batch@.waiting[0].style
                    &&& forall|i: int|
                        1 <= i < batch@.waiting.len() ==> #[trigger] final(batch)@.waiting[i]
                            == batch@.waiting[i]
                    &&& final(batch)@.requests == batch@.requests
                    &&& final(batch)@.results == batch@.results
                    &&& final(batch)@.timeout_millis == batch@.timeout_millis
                },
                None => batch@.waiting.len() == 0 && final(batch)@ == batch@,
            },
{
}

/// Whether `result` says what the caller is told after `event`.
pub open spec fn says(
    style: CallStyle,
    timeout_millis: u64,
    event: ResponseEvent,
    result: Result<RemotingCommand, ErrorView>,
) -> bool {
    match event {
        ResponseEvent::Completed(Ok(response)) => result == Ok::<RemotingCommand, ErrorView>(
            response,
        ),
        ResponseEvent::Completed(Err(error)) => result == Err::<RemotingCommand, ErrorView>(
            error@,
        ),
        ResponseEvent::Dropped(_) => result matches Err(told) && if style
            == CallStyle::WaitResponse {
            told == (ErrorView::Network {
                addr: "channel"@,
                reason: "connection dropped: "@ + "channel closed"@,
            })
        } else {
            told == ErrorView::Remote("channel closed"@)
        },
        ResponseEvent::DeadlineExpired => result matches Err(told) && told == (
        ErrorView::Timeout {
            operation: match style {
                CallStyle::WaitResponse => "channel_recv"@,
                CallStyle::SendRead => "send_read"@,
                CallStyle::SendBatchRead => "send_batch_read"@,
            },
            timeout_ms: timeout_millis,
        }),
    }
}

/// Responding ends the oldest call: its result is the next one, its request,
/// and nothing else, is withdrawn, and only a waiter that was still pending
/// when the time was over is told so.
pub proof fn law_respond()
    ensures
        forall|
            batch: &mut BatchRead,
            event: ResponseEvent,
            table: &mut PendingResponses,
            metrics: &mut TransportCounters,
            timed_out: Option<Completion>,
        | #[trigger]
            call_ensures(BatchRead::respond, (batch, event, table, metrics), timed_out)
                && batch@.waiting.len() > 0 ==> {
                let oldest = batch@.waiting[0];
                let results = batch@.results;
                &&& final(batch)@.results.len() == results.len() + 1
                &&& says(
                    oldest.style,
                    oldest.request.timeout_millis,
                    event,
                    final(batch)@.results[results.len() as int],
                )
                &&& forall|i: int|
                    0 <= i < results.len() ==> #[trigger] final(batch)@.results[i] == results[i]
                &&& final(batch)@.waiting == batch@.waiting.subrange(
                    1,
                    batch@.waiting.len() as int,
                )
                &&& final(batch)@.requests == batch@.requests
                &&& final(batch)@.timeout_millis == batch@.timeout_millis
                &&& crate::promises::removed(table@, final(table)@, oldest.request.identity)
                &&& if event is DeadlineExpired {
                    crate::promises::pending::times_its_waiter_out(
                        table@.entries,
                        oldest.request.identity,
                        timed_out,
                        oldest.request.timeout_millis,
                    )
                } else {
                    timed_out is None
                }
                &&& crate::promises::gauge_follows(
                    metrics@,
                    final(metrics)@,
                    final(table)@.entries.len() - table@.entries.len(),
                )
                &&& final(table).wf()
            },
{
    crate::promises::lemma_gauges();
    assert forall|
        batch: &mut BatchRead,
        event: ResponseEvent,
        table: &mut PendingResponses,
        metrics: &mut TransportCounters,
        timed_out: Option<Completion>,
    | #[trigger]
        call_ensures(BatchRead::respond, (batch, event, table, metrics), timed_out)
            && batch@.waiting.len() > 0 implies final(batch)@.waiting == batch@.waiting.subrange(
        1,
        batch@.waiting.len() as int,
    ) by {
        assert(batch@.waiting.drop_first() =~= batch@.waiting.subrange(
            1,
            batch@.waiting.len() as int,
        ));
    }
}

/// A batch gives its results out in their order, each as it is.
pub proof fn law_batch_results(
    batch: BatchRead,
    results: Vec<RocketMQResult<RemotingCommand>>,
)
    ensures
        call_ensures(BatchRead::finish, (batch,), results) ==> {
            &&& results@.len() == batch@.results.len()
            &&& forall|i: int|
                0 <= i < results@.len() ==> match #[trigger] results@[i] {
                    Ok(response) => batch@.results[i] == Ok::<RemotingCommand, ErrorView>(
                        response,
                    ),
                    Err(error) => batch@.results[i] == Err::<RemotingCommand, ErrorView>(error@),
                }
        },
{
    if call_ensures(BatchRead::finish, (batch,), results) {
        assert forall|i: int| 0 <= i < results@.len() implies match #[trigger] results@[i] {
            Ok(response) => batch@.results[i] == Ok::<RemotingCommand, ErrorView>(response),
            Err(error) => batch@.results[i] == Err::<RemotingCommand, ErrorView>(error@),
        } by {
            assert(crate::clients::batch::results_view(results@)[i] == crate::error::result_view(
                results@[i],
            ));
        }
    }
}

} // verus!
