//! Several requests of a client at once.

use std::collections::VecDeque;

use tokio::sync::oneshot::{Receiver, Sender};
use vstd::prelude::*;

use crate::base::pending_responses::{PendingResponses, PendingTable};
use crate::base::response_future::Completion;
use crate::error::{ErrorView, RocketMQError, RocketMQResult};
use crate::metrics::TransportCounters;
use crate::net::call::{CallStart, CallStyle, CallView, PendingCall, ResponseEvent};
use crate::net::channel_inner::{
    ChannelInner, ChannelMessage, ChannelView, Enqueue, EnqueueEvent, EnqueueWait, MessageView,
    SendStyle,
};
use crate::protocol::RemotingCommand;

verus! {

/// Requests in the order in which they are sent.
struct RequestLine {
    /// The requests, the next one last.
    reversed: Vec<RemotingCommand>,
}

impl View for RequestLine {
    type V = Seq<RemotingCommand>;

    closed spec fn view(&self) -> Seq<RemotingCommand> {
        self.reversed@.reverse()
    }
}

impl RequestLine {
    fn new(requests: Vec<RemotingCommand>) -> (line: Self)
        ensures
            line@ == requests@,
    {
        let mut requests = requests;
        let ghost all = requests@;
        let mut reversed: Vec<RemotingCommand> = Vec::new();
        while requests.len() > 0
            invariant
                all == requests@ + reversed@.reverse(),
            decreases requests@.len(),
        {
            let ghost left = requests@;
            let ghost moved = reversed@;
            if let Some(request) = requests.pop() {
                reversed.push(request);
                assert(reversed@.reverse() =~= seq![request] + moved.reverse());
                assert(left =~= requests@.push(request));
                assert(requests@ + reversed@.reverse() =~= left + moved.reverse());
            }
        }
        assert(requests@ + reversed@.reverse() =~= reversed@.reverse());
        RequestLine { reversed }
    }

    fn next(&mut self) -> (request: Option<RemotingCommand>)
        ensures
            match request {
                Some(request) => old(self)@.len() > 0 && request == old(self)@[0]
                    && final(self)@ == old(self)@.drop_first(),
                None => old(self)@.len() == 0 && final(self)@ == old(self)@,
            },
    {
        let ghost left = self.reversed@;
        let request = self.reversed.pop();
        assert(left.len() > 0 ==> self.reversed@.reverse() =~= left.reverse().drop_first());
        request
    }

    fn clear(&mut self)
        ensures
            final(self)@ == Seq::<RemotingCommand>::empty(),
    {
        self.reversed.clear();
        assert(self.reversed@.reverse() =~= Seq::empty());
    }
}

/// Requests that are enqueued one after the other, without waiting for responses.
pub struct BatchSend {
    requests: RequestLine,
}

impl View for BatchSend {
    type V = Seq<RemotingCommand>;

    /// What is left to enqueue, the next request first.
    closed spec fn view(&self) -> Seq<RemotingCommand> {
        self.requests@
    }
}

/// What comes next in a batch.
pub enum BatchSendStep {
    /// Enqueue this message.
    Enqueue(Enqueue),
    /// The batch is over.
    Done(RocketMQResult<()>),
}

/// Whether a batch of which `left` is left to enqueue comes to `step` after
/// `previous`, and `after` is left then.
pub open spec fn batch_sends(
    left: Seq<RemotingCommand>,
    previous: RocketMQResult<()>,
    channel: ChannelView,
    step: BatchSendStep,
    after: Seq<RemotingCommand>,
) -> bool {
    match step {
        BatchSendStep::Enqueue(enqueue) => {
            &&& previous is Ok
            &&& left.len() > 0
            &&& channel.enqueues(
                MessageView::Command(left[0], None, None),
                None,
                SendStyle::Remote,
                Ok(enqueue),
            )
            &&& after == left.drop_first()
        },
        BatchSendStep::Done(Ok(_)) => {
            &&& previous is Ok
            &&& left.len() == 0
            &&& after.len() == 0
        },
        BatchSendStep::Done(Err(error)) => {
            &&& if previous is Err {
                error == previous->Err_0
            } else {
                &&& left.len() > 0
                &&& channel.enqueues(
                    MessageView::Command(left[0], None, None),
                    None,
                    SendStyle::Remote,
                    Err(error),
                )
            }
            &&& after.len() == 0
        },
    }
}

impl BatchSend {
    /// A batch of `requests`.
    pub(crate) fn new(requests: Vec<RemotingCommand>) -> (batch: Self)
        ensures
            batch@ == requests@,
    {
        BatchSend { requests: RequestLine::new(requests) }
    }

    /// Goes on after `previous`, which is what came of the last request, or
    /// `Ok` at the start. The first failure ends the batch.
    pub fn step(
        &mut self,
        previous: RocketMQResult<()>,
        channel: &ChannelInner,
    ) -> (step: BatchSendStep)
        ensures
            batch_sends(old(self)@, previous, channel@, step, final(self)@),
    {
        if let Err(error) = previous {
            self.requests.clear();
            return BatchSendStep::Done(Err(error));
        }
        match self.requests.next() {
            None => BatchSendStep::Done(Ok(())),
            Some(request) => {
                let message = ChannelMessage::Command(request, None, None);
                match channel.enqueue(message, None, SendStyle::Remote) {
                    Ok(enqueue) => BatchSendStep::Enqueue(enqueue),
                    Err(error) => {
                        self.requests.clear();
                        BatchSendStep::Done(Err(error))
                    },
                }
            },
        }
    }
}

/// Calls that are made one after the other and then waited for together.
pub struct BatchRead {
    timeout_millis: u64,
    requests: RequestLine,
    /// The oldest call without a result, once it is waited for.
    current: Option<PendingCall>,
    /// The calls after it.
    waiting: VecDeque<PendingCall>,
    results: Vec<RocketMQResult<RemotingCommand>>,
}

/// What a [`BatchRead`] holds.
#[verifier::ext_equal]
pub struct BatchView {
    /// How long each call waits, in milliseconds.
    pub timeout_millis: u64,
    /// The requests that are not submitted yet, the next one first.
    pub requests: Seq<RemotingCommand>,
    /// The calls without a result, the oldest first.
    pub waiting: Seq<CallView>,
    /// The results, the oldest first.
    pub results: Seq<Result<RemotingCommand, ErrorView>>,
}

impl View for BatchRead {
    type V = BatchView;

    closed spec fn view(&self) -> BatchView {
        BatchView {
            timeout_millis: self.timeout_millis,
            requests: self.requests@,
            waiting: call_views(self.current, self.waiting@),
            results: results_view(self.results@),
        }
    }
}

/// What `current`, if there is one, and then `waiting` hold.
spec fn call_views(current: Option<PendingCall>, waiting: Seq<PendingCall>) -> Seq<CallView> {
    let later = waiting.map_values(|call: PendingCall| call@);
    match current {
        Some(call) => seq![call@] + later,
        None => later,
    }
}

/// What `results` say, with the texts of errors as character sequences.
pub open spec fn results_view(results: Seq<RocketMQResult<RemotingCommand>>) -> Seq<
    Result<RemotingCommand, ErrorView>,
> {
    results.map_values(
        |result: RocketMQResult<RemotingCommand>| crate::error::result_view(result),
    )
}

/// The table after the requests of `calls` were withdrawn, the first one first.
pub open spec fn withdrawn_all(table: PendingTable, calls: Seq<CallView>) -> PendingTable
    decreases calls.len(),
{
    if calls.len() == 0 {
        table
    } else {
        withdrawn_all(table.withdrawn(calls[0].request.identity), calls.drop_first())
    }
}

impl BatchView {
    /// The batch after `event` ended its oldest call.
    pub open spec fn responded(self, event: ResponseEvent) -> BatchView {
        BatchView {
            waiting: self.waiting.drop_first(),
            results: self.results.push(self.waiting[0].answered(event)),
            ..self
        }
    }

    /// The batch after it was given up.
    pub open spec fn abandoned(self) -> BatchView {
        BatchView { requests: Seq::empty(), waiting: Seq::empty(), ..self }
    }

    /// The batch after its next request became `call`.
    pub open spec fn joined(self, call: CallView) -> BatchView {
        BatchView {
            requests: self.requests.drop_first(),
            waiting: self.waiting.push(call),
            ..self
        }
    }

    /// Whether submitting the next request, whose call starts as `start`,
    /// comes to `submitted`, the batch `after` and the table `table_after`.
    pub open spec fn submits(
        self,
        start: CallStart,
        table: PendingTable,
        submitted: Result<Enqueue, RocketMQError>,
        after: BatchView,
        table_after: PendingTable,
    ) -> bool {
        match submitted {
            Ok(enqueue) => {
                &&& start.queues(table, enqueue)
                &&& after == self.joined(start.call(table))
                &&& table_after == start.table_after(table)
            },
            Err(error) => {
                &&& start.refuses(table, error@)
                &&& after == self.abandoned()
                &&& table_after == withdrawn_all(start.table_after(table), self.waiting)
            },
        }
    }
}

impl BatchRead {
    /// A batch of calls with `requests`, which wait `timeout_millis` each.
    pub(crate) fn new(requests: Vec<RemotingCommand>, timeout_millis: u64) -> (batch: Self)
        ensures
            batch@ == (BatchView {
                timeout_millis,
                requests: requests@,
                waiting: Seq::empty(),
                results: Seq::empty(),
            }),
    {
        let batch = BatchRead {
            timeout_millis,
            requests: RequestLine::new(requests),
            current: None,
            waiting: VecDeque::new(),
            results: Vec::new(),
        };
        assert(batch@.waiting =~= Seq::empty());
        assert(batch@.results =~= Seq::empty());
        batch
    }

    /// Takes out the oldest call without a result.
    fn next_call(&mut self) -> (call: Option<PendingCall>)
        ensures
            final(self).current is None,
            match call {
                Some(call) => {
                    &&& old(self)@.waiting.len() > 0
                    &&& call@ == old(self)@.waiting[0]
                    &&& final(self)@ == (BatchView {
                        waiting: old(self)@.waiting.drop_first(),
                        ..old(self)@
                    })
                },
                None => old(self)@.waiting.len() == 0 && final(self)@ == old(self)@,
            },
    {
        let ghost waiting = self@.waiting;
        let call = match self.current.take() {
            Some(call) => Some(call),
            None => self.waiting.pop_front(),
        };
        assert(call is Some ==> self@.waiting =~= waiting.drop_first());
        call
    }

    /// Gives the batch up. What is not submitted stays so, and requests that
    /// are still pending are withdrawn.
    pub fn abandon(&mut self, table: &mut PendingResponses, metrics: &mut TransportCounters)
        requires
            old(table).wf(),
        ensures
            final(table).wf(),
            final(self)@ == old(self)@.abandoned(),
            final(table)@ == withdrawn_all(old(table)@, old(self)@.waiting),
            final(metrics)@ == old(metrics)@.pending_moved(
                final(table)@.entries.len() - old(table)@.entries.len(),
            ),
    {
        let ghost all = withdrawn_all(table@, self@.waiting);
        let ghost before = table@;
        let ghost batch = self@;
        let ghost gauge = metrics@;
        proof {
            crate::metrics::law_gauge_moves_add_up(gauge.pending_responses, 0, 0);
        }
        self.requests.clear();
        loop
            invariant
                table.wf(),
                all == withdrawn_all(table@, self@.waiting),
                self@.timeout_millis == batch.timeout_millis,
                self@.results == batch.results,
                self@.requests == Seq::<RemotingCommand>::empty(),
                metrics@ == gauge.pending_moved(table@.entries.len() - before.entries.len()),
            ensures
                self@.waiting.len() == 0,
            decreases self@.waiting.len(),
        {
            let ghost between = table@;
            match self.next_call() {
                Some(call) => {
                    call.abandon(table, metrics);
                    proof {
                        crate::metrics::law_gauge_moves_add_up(
                            gauge.pending_responses,
                            between.entries.len() - before.entries.len(),
                            table@.entries.len() - between.entries.len(),
                        );
                    }
                },
                None => {
                    break;
                },
            }
        }
        assert(self@.waiting =~= Seq::empty());
    }

    /// Submits the next request, whose outcome is sent over `tx` and waited for
    /// on `rx`. Where its call cannot start, the whole batch is given up.
    pub fn submit_with(
        &mut self,
        channel: &ChannelInner,
        now: u64,
        tx: Sender<RocketMQResult<RemotingCommand>>,
        rx: Receiver<RocketMQResult<RemotingCommand>>,
        table: &mut PendingResponses,
        metrics: &mut TransportCounters,
    ) -> (submitted: Option<Result<Enqueue, RocketMQError>>)
        requires
            old(table).wf(),
        ensures
            final(table).wf(),
            submitted is None <==> old(self)@.requests.len() == 0,
            submitted is None ==> final(self)@ == old(self)@ && final(table)@ == old(table)@,
            submitted matches Some(result) ==> old(self)@.submits(
                CallStart {
                    style: CallStyle::SendBatchRead,
                    channel: channel@,
                    request: old(self)@.requests[0],
                    timeout_millis: old(self)@.timeout_millis,
                    now,
                    tx,
                    rx,
                },
                old(table)@,
                result,
                final(self)@,
                final(table)@,
            ),
            final(metrics)@ == old(metrics)@.pending_moved(
                final(table)@.entries.len() - old(table)@.entries.len(),
            ),
    {
        let ghost before = table@;
        let ghost gauge = metrics@;
        let request = match self.requests.next() {
            Some(request) => request,
            None => {
                proof {
                    crate::metrics::law_gauge_moves_add_up(gauge.pending_responses, 0, 0);
                }
                return None;
            },
        };
        let started = crate::net::call::start_call(
            CallStyle::SendBatchRead,
            channel,
            request,
            self.timeout_millis,
            now,
            tx,
            rx,
            table,
            metrics,
        );
        let ghost between = table@;
        let submitted = match started {
            Ok(started) => {
                let ghost waiting = self@.waiting;
                self.waiting.push_back(started.call);
                assert(self@.waiting =~= waiting.push(started.call@));
                Ok(started.enqueue)
            },
            Err(error) => {
                self.abandon(table, metrics);
                proof {
                    crate::metrics::law_gauge_moves_add_up(
                        gauge.pending_responses,
                        between.entries.len() - before.entries.len(),
                        table@.entries.len() - between.entries.len(),
                    );
                }
                Err(error)
            },
        };
        Some(submitted)
    }

    /// Submits the next request, on a one-shot channel of its own. Where its
    /// call cannot start, the whole batch is given up.
    pub fn submit(
        &mut self,
        channel: &ChannelInner,
        now: u64,
        table: &mut PendingResponses,
        metrics: &mut TransportCounters,
    ) -> (submitted: Option<Result<Enqueue, RocketMQError>>)
        requires
            old(table).wf(),
        ensures
            final(table).wf(),
            submitted is None <==> old(self)@.requests.len() == 0,
            submitted is None ==> final(self)@ == old(self)@ && final(table)@ == old(table)@,
            submitted matches Some(result) ==> exists|start: CallStart|
                #![trigger start.table_after(old(table)@)]
                {
                    &&& start.asks(
                        CallStyle::SendBatchRead,
                        channel@,
                        old(self)@.requests[0],
                        old(self)@.timeout_millis,
                        now,
                    )
                    &&& old(self)@.submits(
                        start,
                        old(table)@,
                        result,
                        final(self)@,
                        final(table)@,
                    )
                },
            final(metrics)@ == old(metrics)@.pending_moved(
                final(table)@.entries.len() - old(table)@.entries.len(),
            ),
    {
        let (tx, rx) = tokio::sync::oneshot::channel::<RocketMQResult<RemotingCommand>>();
        let ghost start = CallStart {
            style: CallStyle::SendBatchRead,
            channel: channel@,
            request: self@.requests[0],
            timeout_millis: self@.timeout_millis,
            now,
            tx,
            rx,
        };
        // Names the start that the contract speaks of.
        assert(start.table_after(table@) == start.table_after(table@));
        self.submit_with(channel, now, tx, rx, table, metrics)
    }

    /// Goes on after waiting for the outbound queue to take the request of the
    /// last call. Where it did not, the whole batch is given up.
    pub fn enqueued(
        &mut self,
        wait: EnqueueWait,
        event: EnqueueEvent,
        table: &mut PendingResponses,
        metrics: &mut TransportCounters,
    ) -> (result: RocketMQResult<()>)
        requires
            old(table).wf(),
            event is DeadlineExpired ==> wait.deadline is Some,
        ensures
            final(table).wf(),
            crate::error::result_view(result) == wait.resolved(event),
            event is Accepted ==> {
                &&& final(self)@ == old(self)@
                &&& final(table)@ == old(table)@
            },
            !(event is Accepted) ==> {
                &&& final(self)@ == old(self)@.abandoned()
                &&& final(table)@ == withdrawn_all(old(table)@, old(self)@.waiting)
            },
            final(metrics)@ == old(metrics)@.pending_moved(
                final(table)@.entries.len() - old(table)@.entries.len(),
            ),
    {
        proof {
            crate::metrics::law_gauge_moves_add_up(metrics@.pending_responses, 0, 0);
        }
        let result = wait.resolve(event);
        if result.is_err() {
            self.abandon(table, metrics);
        }
        result
    }

    /// The instant up to which the oldest call without a result waits.
    pub fn next_deadline(&self) -> (deadline: Option<u128>)
        ensures
            deadline == (if self@.waiting.len() > 0 {
                Some(self@.waiting[0].deadline)
            } else {
                None
            }),
    {
        match &self.current {
            Some(call) => Some(call.deadline()),
            None => if self.waiting.len() > 0 {
                Some(self.waiting[0].deadline())
            } else {
                None
            },
        }
    }

    /// The receiving half on which the oldest call without a result waits.
    pub fn next_receiver(&mut self) -> (rx: Option<
        &mut Receiver<RocketMQResult<RemotingCommand>>,
    >)
        ensures
            match rx {
                Some(rx) => {
                    let oldest = old(self)@.waiting[0];
                    &&& old(self)@.waiting.len() > 0
                    &&& *rx == oldest.rx
                    &&& final(self)@ == (BatchView {
                        waiting: old(self)@.waiting.update(
                            0,
                            CallView { rx: *final(rx), ..oldest },
                        ),
                        ..old(self)@
                    })
                },
                None => old(self)@.waiting.len() == 0 && final(self)@ == old(self)@,
            },
    {
        let ghost waiting = self@.waiting;
        self.current = self.next_call();
        proof {
            let later = self.waiting@.map_values(|call: PendingCall| call@);
            assert(waiting.len() > 0 ==> later =~= waiting.drop_first());
            assert forall|view: CallView| waiting.len() > 0 implies #[trigger] (seq![view] + later)
                == waiting.update(0, view) by {
                assert(seq![view] + later =~= waiting.update(0, view));
            }
        }
        match &mut self.current {
            Some(call) => Some(call.receiver()),
            None => None,
        }
    }

    /// Ends the oldest call without a result. Calls are ended once all
    /// requests are submitted.
    pub fn respond(
        &mut self,
        event: ResponseEvent,
        table: &mut PendingResponses,
        metrics: &mut TransportCounters,
    ) -> (timed_out: Option<Completion>)
        requires
            old(table).wf(),
            old(self)@.requests.len() == 0,
            old(self)@.waiting.len() > 0,
        ensures
            final(table).wf(),
            final(self)@ == old(self)@.responded(event),
            final(table)@ == old(table)@.withdrawn(old(self)@.waiting[0].request.identity),
            crate::base::pending_responses::fail_waiter(
                timed_out,
                if event is DeadlineExpired {
                    old(table)@.waiter(old(self)@.waiting[0].request.identity)
                } else {
                    None
                },
                crate::base::pending_responses::remoting_timeout(
                    old(self)@.waiting[0].request.timeout_millis,
                ),
            ),
            final(metrics)@ == old(metrics)@.pending_moved(
                final(table)@.entries.len() - old(table)@.entries.len(),
            ),
    {
        let ghost batch = self@;
        match self.next_call() {
            Some(call) => {
                let outcome = call.finish(event, table, metrics);
                self.results.push(outcome.result);
                assert(self@.results =~= batch.responded(event).results);
                outcome.timed_out
            },
            None => None,
        }
    }

    /// The results of the calls, in the order of their requests.
    pub fn finish(self) -> (results: Vec<RocketMQResult<RemotingCommand>>)
        requires
            self@.requests.len() == 0,
            self@.waiting.len() == 0,
        ensures
            results_view(results@) == self@.results,
    {
        self.results
    }
}

} // verus!
