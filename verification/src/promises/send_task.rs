//! What the send task promises.

use vstd::prelude::*;

use crate::base::pending_responses::{PendingRequest, PendingResponses, PendingTable, RequestView};
use crate::base::response_future::Completion;
use crate::error::RocketMQError;
use crate::metrics::TransportCounters;
use crate::net::channel_inner::{ChannelInner, ChannelMessage, ChannelView};
use crate::net::send_loop::{SendAction, SendEvent, SendLoop, SendStateView, SendStep};

verus! {

/// What a step of the send task leaves behind.
pub struct Stepped {
    pub state: SendStateView,
    pub next: SendStateView,
    pub table: PendingTable,
    pub after: PendingTable,
    pub channel: ChannelView,
    pub channel_after: ChannelView,
    pub step: SendStep,
}

impl Stepped {
    /// Whether nobody is told anything and nothing pending or of the channel changes.
    pub open spec fn touches_nothing(self) -> bool {
        &&& self.after == self.table
        &&& self.channel_after == self.channel
        &&& self.step.withdrawn is None
        &&& self.step.failed@.len() == 0
    }

    /// Whether the task goes on with the next message.
    pub open spec fn receives(self) -> bool {
        self.step.action is Receive && self.next is Receiving
    }

    /// Whether the request of the message at hand, if there is one, and nothing
    /// else, is withdrawn as timed out.
    pub open spec fn times_out(self, pending: Option<RequestView>) -> bool {
        match pending {
            Some(request) => {
                &&& crate::promises::removed(self.table, self.after, request.identity)
                &&& crate::promises::pending::times_its_waiter_out(
                    self.table.entries,
                    request.identity,
                    self.step.withdrawn,
                    request.timeout_millis,
                )
            },
            None => self.after == self.table && self.step.withdrawn is None,
        }
    }

    /// Whether the request of the message at hand, if there is one, and nothing
    /// else, is withdrawn as failed.
    pub open spec fn fails(self, pending: Option<RequestView>, reason: Seq<char>) -> bool {
        match pending {
            Some(request) => {
                &&& crate::promises::removed(self.table, self.after, request.identity)
                &&& crate::promises::pending::fails_its_waiter(
                    self.table.entries,
                    request.identity,
                    self.step.withdrawn,
                    reason,
                )
            },
            None => self.after == self.table && self.step.withdrawn is None,
        }
    }

    /// Whether the task is over and the connection is given up, with nothing
    /// pending on it.
    pub open spec fn gives_up(self) -> bool {
        &&& self.step.action is Retire
        &&& self.next is Stopped
        &&& crate::promises::given_up(self.channel, self.channel_after)
        &&& crate::promises::cleared_of(
            self.table.entries,
            self.after.entries,
            self.channel.connection.connection_id,
        )
        &&& self.after.next_token == self.table.next_token
    }

    /// Whether every waiter of the connection, and nobody else, is told `reason`.
    pub open spec fn tells_all(self, reason: Seq<char>) -> bool {
        &&& self.step.withdrawn is None
        &&& crate::promises::all_told(
            self.step.failed@,
            self.table.entries,
            self.channel.connection.connection_id,
            reason,
        )
    }

    /// Whether the request at hand is told that its time is over, and every
    /// other waiter of the connection that the send deadline expired.
    pub open spec fn tells_expiry(self, pending: Option<RequestView>) -> bool {
        match pending {
            Some(request) => {
                &&& crate::promises::pending::times_its_waiter_out(
                    self.table.entries,
                    request.identity,
                    self.step.withdrawn,
                    request.timeout_millis,
                )
                &&& crate::promises::all_told(
                    self.step.failed@,
                    if crate::promises::present(self.table.entries, request.identity) {
                        self.table.entries.remove(request.identity.key)
                    } else {
                        self.table.entries
                    },
                    self.channel.connection.connection_id,
                    "send deadline expired"@,
                )
            },
            None => self.tells_all("send deadline expired"@),
        }
    }

    /// Whether the task does with a command of the queue what it should: skip
    /// it if its caller gave up, time it out if its deadline has come, and
    /// otherwise write it unchanged.
    pub open spec fn takes_command(
        self,
        command: crate::protocol::RemotingCommand,
        pending: Option<PendingRequest>,
        deadline: Option<u128>,
        now: u64,
    ) -> bool {
        let request = match pending {
            Some(handle) => Some(handle@),
            None => None,
        };
        if pending matches Some(handle) && !crate::promises::present(
            self.table.entries,
            handle@.identity,
        ) {
            self.touches_nothing() && self.receives()
        } else if deadline matches Some(instant) && instant <= now {
            &&& self.receives()
            &&& self.times_out(request)
            &&& self.channel_after == self.channel
            &&& self.step.failed@.len() == 0
        } else {
            &&& self.touches_nothing()
            &&& self.step.action == SendAction::WriteCommand(command, deadline)
            &&& self.next == SendStateView::WritingCommand(request)
        }
    }

    /// Whether the step is the right one for `event` at `now`.
    pub open spec fn answers(self, event: SendEvent, now: u64) -> bool {
        match event {
            SendEvent::Message(ChannelMessage::Bytes(bytes)) => {
                &&& self.touches_nothing()
                &&& self.step.action == SendAction::WriteBytes(bytes)
                &&& self.next is WritingBytes
            },
            SendEvent::Message(ChannelMessage::Command(command, pending, deadline)) => {
                self.takes_command(command, pending, deadline, now)
            },
            SendEvent::QueueClosed => self.touches_nothing() && self.step.action is Stop
                && self.next is Stopped,
            SendEvent::Shutdown => self.touches_nothing() && self.step.action is Stop
                && self.next is Stopped,
            SendEvent::Written => self.touches_nothing() && self.receives(),
            SendEvent::WriteFailed(error) => match self.state {
                SendStateView::WritingCommand(pending) => match error {
                    RocketMQError::IO(message) => self.gives_up() && self.tells_all(message@),
                    _ => {
                        &&& self.receives()
                        &&& exists|text: Seq<char>| #[trigger]
                            crate::promises::is_text_of(text, error) && self.fails(pending, text)
                        &&& self.channel_after == self.channel
                        &&& self.step.failed@.len() == 0
                    },
                },
                _ => {
                    &&& self.gives_up()
                    &&& exists|text: Seq<char>| #[trigger]
                        crate::promises::is_text_of(text, error) && self.tells_all(text)
                },
            },
            SendEvent::DeadlineExpired => {
                &&& self.gives_up_after_expiry()
                &&& self.state matches SendStateView::WritingCommand(pending)
                    && self.tells_expiry(pending)
            },
        }
    }

    /// Whether the connection is given up, with nothing pending on it, and the
    /// request at hand is not pending either.
    pub open spec fn gives_up_after_expiry(self) -> bool {
        &&& self.step.action is Retire
        &&& self.next is Stopped
        &&& crate::promises::given_up(self.channel, self.channel_after)
        &&& self.after.next_token == self.table.next_token
        &&& forall|key: (Seq<char>, i32)|
            #![trigger self.after.entries.contains_key(key)]
            #![trigger self.table.entries.contains_key(key)]
            {
                &&& self.after.entries.contains_key(key) <==> {
                    &&& self.table.entries.contains_key(key)
                    &&& key.0 != self.channel.connection.connection_id
                    &&& !self.is_at_hand(key)
                }
                &&& self.after.entries.contains_key(key) ==> self.after.entries[key]
                    == self.table.entries[key]
            }
    }

    /// Whether what is pending under `key` is the request that is being written.
    pub open spec fn is_at_hand(self, key: (Seq<char>, i32)) -> bool {
        self.state matches SendStateView::WritingCommand(Some(request)) && request.identity.key
            == key && request.identity.token == self.table.entries[key].token
    }
}

/// Each step of the send task does what is right for the event that it awaits:
/// live messages are written unchanged, what is written stays pending until its
/// response comes, callers that gave up cost nothing, and a stream that failed
/// is given up.
pub proof fn law_send_steps()
    ensures
        forall|
            task: &mut SendLoop,
            event: SendEvent,
            now: u64,
            channel: &mut ChannelInner,
            table: &mut PendingResponses,
            metrics: &mut TransportCounters,
            step: SendStep,
        | #[trigger]
            call_ensures(
                SendLoop::step,
                (task, event, now, channel, table, metrics),
                step,
            ) && expects(task@, event) ==> {
                &&& (Stepped {
                    state: task@,
                    next: final(task)@,
                    table: table@,
                    after: final(table)@,
                    channel: channel@,
                    channel_after: final(channel)@,
                    step,
                }).answers(event, now)
                &&& crate::promises::gauge_follows(
                    metrics@,
                    final(metrics)@,
                    final(table)@.entries.len() - table@.entries.len(),
                )
                &&& final(table).wf()
            },
        forall|task: SendLoop| #[trigger]
            call_ensures(SendLoop::new, (), task) ==> task@ is Receiving,
{
    crate::promises::lemma_gauges();
    assert forall|
        task: &mut SendLoop,
        event: SendEvent,
        now: u64,
        channel: &mut ChannelInner,
        table: &mut PendingResponses,
        metrics: &mut TransportCounters,
        step: SendStep,
    | #[trigger]
        call_ensures(
            SendLoop::step,
            (task, event, now, channel, table, metrics),
            step,
        ) && expects(task@, event) implies (Stepped {
        state: task@,
        next: final(task)@,
        table: table@,
        after: final(table)@,
        channel: channel@,
        channel_after: final(channel)@,
        step,
    }).answers(event, now) by {
        let stepped = Stepped {
            state: task@,
            next: final(task)@,
            table: table@,
            after: final(table)@,
            channel: channel@,
            channel_after: final(channel)@,
            step,
        };
        lemma_step(stepped, event, now);
    }
}

/// Whether a task in `state` can be told of `event`: of a message or the end of
/// the queue while it waits for one, of the end of a write while it writes, of
/// a deadline while it writes a command, and of a shutdown unless it is over.
pub open spec fn expects(state: SendStateView, event: SendEvent) -> bool {
    match event {
        SendEvent::Message(_) => state is Receiving,
        SendEvent::QueueClosed => state is Receiving,
        SendEvent::Shutdown => !(state is Stopped),
        SendEvent::Written => state is WritingBytes || state is WritingCommand,
        SendEvent::WriteFailed(_) => state is WritingBytes || state is WritingCommand,
        SendEvent::DeadlineExpired => state is WritingCommand,
    }
}

/// The task awaits exactly these events.
pub proof fn law_awaited_events(state: SendStateView, event: SendEvent)
    ensures
        state.awaits(event) <==> expects(state, event),
{
}

proof fn lemma_step(stepped: Stepped, event: SendEvent, now: u64)
    requires
        expects(stepped.state, event),
        ({
            let plan = stepped.state.plan(event, stepped.table, now);
            &&& stepped.next == plan.next
            &&& stepped.after == plan.table_after(stepped.table, stepped.channel)
            &&& stepped.channel_after == plan.channel_after(stepped.channel)
            &&& plan.carried_out(stepped.step, stepped.table, stepped.channel)
        }),
    ensures
        stepped.answers(event, now),
{
    crate::promises::lemma_tellings();
    match event {
        SendEvent::WriteFailed(error) => {
            crate::promises::values::lemma_text(error);
            match stepped.state {
                SendStateView::WritingCommand(pending) => {
                    if !(error is IO) {
                        assert(stepped.fails(pending, error@.text()));
                    }
                },
                _ => {
                    assert(stepped.tells_all(error@.text()));
                },
            }
        },
        _ => {},
    }
}

/// Only these events withdraw a request: a command whose deadline has come, a
/// write that failed, and a deadline that came while a command was written.
/// After any other event everything stays pending and nobody is told anything.
pub proof fn law_only_failures_withdraw()
    ensures
        forall|
            task: &mut SendLoop,
            event: SendEvent,
            now: u64,
            channel: &mut ChannelInner,
            table: &mut PendingResponses,
            metrics: &mut TransportCounters,
            step: SendStep,
        | #[trigger]
            call_ensures(
                SendLoop::step,
                (task, event, now, channel, table, metrics),
                step,
            ) && expects(task@, event) && (final(table)@ != table@ || final(channel)@ != channel@
                || step.withdrawn is Some || step.failed@.len() > 0) ==> {
                ||| event is WriteFailed
                ||| event is DeadlineExpired
                ||| event matches SendEvent::Message(
                    ChannelMessage::Command(_, Some(_), Some(instant)),
                ) && instant <= now
            },
{
    law_send_steps();
}

} // verus!
