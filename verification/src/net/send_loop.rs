//! The task that writes the outbound queue of a channel to its connection.
//!
//! The task alternates between waiting and deciding. What it decides is
//! [`SendLoop::step`]; the waiting is done by whoever runs the task.

use bytes::Bytes;
use vstd::prelude::*;

use crate::base::pending_responses::{
    IdentityView, PendingRequest, PendingResponses, PendingTable, RequestView,
};
use crate::base::response_future::Completion;
use crate::error::{ErrorView, RocketMQError};
use crate::metrics::TransportCounters;
use crate::net::channel_inner::{ChannelInner, ChannelMessage, ChannelView, MessageView};
use crate::protocol::RemotingCommand;

verus! {

/// What the task waits for.
enum SendState {
    /// For the next message of the queue, or a shutdown.
    Receiving,
    /// For bytes to be written, or a shutdown.
    WritingBytes,
    /// For a command to be written, its deadline, or a shutdown.
    WritingCommand(Option<PendingRequest>),
    /// For nothing: the task is over.
    Stopped,
}

/// What the send task waits for.
pub enum SendStateView {
    Receiving,
    WritingBytes,
    WritingCommand(Option<RequestView>),
    Stopped,
}

/// The send task of a channel.
pub struct SendLoop {
    state: SendState,
}

impl View for SendLoop {
    type V = SendStateView;

    closed spec fn view(&self) -> SendStateView {
        match self.state {
            SendState::Receiving => SendStateView::Receiving,
            SendState::WritingBytes => SendStateView::WritingBytes,
            SendState::WritingCommand(pending) => SendStateView::WritingCommand(
                crate::net::channel_inner::request_view(pending),
            ),
            SendState::Stopped => SendStateView::Stopped,
        }
    }
}

/// What the send task is told.
pub enum SendEvent {
    /// The queue gave a message.
    Message(ChannelMessage),
    /// The queue has no writer any more.
    QueueClosed,
    /// The channel is shut down.
    Shutdown,
    /// What was to be written is written.
    Written,
    /// Writing failed.
    WriteFailed(RocketMQError),
    /// The deadline of the command came before it was written.
    DeadlineExpired,
}

/// What the send task does next.
pub enum SendAction {
    /// Wait for the next message of the queue.
    Receive,
    /// Write bytes.
    WriteBytes(Bytes),
    /// Write a command, up to its deadline if it has one.
    WriteCommand(RemotingCommand, Option<u128>),
    /// End the task.
    Stop,
    /// Close the stream, signal the shutdown of the channel, and end the task.
    Retire,
}

/// What a step of the send task comes to.
pub struct SendStep {
    /// What the task does next.
    pub action: SendAction,
    /// What the waiter of the message at hand is told.
    pub withdrawn: Option<Completion>,
    /// What the waiters of a connection that was given up are told.
    pub failed: Vec<Completion>,
}

/// What the send task decides in a step.
pub struct SendPlan {
    /// What the task waits for afterwards.
    pub next: SendStateView,
    /// What the task does next.
    pub action: SendAction,
    /// The request that is withdrawn, and what its waiter is told.
    pub withdraws: Option<(IdentityView, ErrorView)>,
    /// What the waiters of the connection are told when it is given up.
    pub retires: Option<Seq<char>>,
}

/// Going on with the next message.
pub open spec fn plan_receive() -> SendPlan {
    SendPlan {
        next: SendStateView::Receiving,
        action: SendAction::Receive,
        withdraws: None,
        retires: None,
    }
}

/// Ending the task.
pub open spec fn plan_stop() -> SendPlan {
    SendPlan {
        next: SendStateView::Stopped,
        action: SendAction::Stop,
        withdraws: None,
        retires: None,
    }
}

/// Giving up the connection, about which its waiters are told `message`.
pub open spec fn plan_retire(message: Seq<char>) -> SendPlan {
    SendPlan {
        next: SendStateView::Stopped,
        action: SendAction::Retire,
        withdraws: None,
        retires: Some(message),
    }
}

/// `plan`, and telling the waiter of `pending`, if there is one, that its time is over.
pub open spec fn plan_timeout(plan: SendPlan, pending: Option<RequestView>) -> SendPlan {
    SendPlan {
        withdraws: match pending {
            Some(request) => Some(
                (
                    request.identity,
                    crate::base::pending_responses::remoting_timeout(request.timeout_millis),
                ),
            ),
            None => None,
        },
        ..plan
    }
}

/// `plan`, and telling the waiter of `pending`, if there is one, of a failure.
pub open spec fn plan_failure(
    plan: SendPlan,
    pending: Option<RequestView>,
    message: Seq<char>,
) -> SendPlan {
    SendPlan {
        withdraws: match pending {
            Some(request) => Some(
                (
                    request.identity,
                    crate::base::pending_responses::remoting_failure(message),
                ),
            ),
            None => None,
        },
        ..plan
    }
}

impl SendStateView {
    /// Whether the task can be told of `event` while it waits like this.
    pub open spec fn awaits(self, event: SendEvent) -> bool {
        match self {
            SendStateView::Receiving => event is Message || event is QueueClosed
                || event is Shutdown,
            SendStateView::WritingBytes => event is Written || event is WriteFailed
                || event is Shutdown,
            SendStateView::WritingCommand(_) => event is Written || event is WriteFailed
                || event is DeadlineExpired || event is Shutdown,
            SendStateView::Stopped => false,
        }
    }

    /// What the task decides when it gets `event` at `now`.
    pub open spec fn plan(self, event: SendEvent, table: PendingTable, now: u64) -> SendPlan {
        match (self, event) {
            (SendStateView::Receiving, SendEvent::Message(message)) => match message@ {
                MessageView::Bytes(bytes) => SendPlan {
                    next: SendStateView::WritingBytes,
                    action: SendAction::WriteBytes(bytes),
                    ..plan_receive()
                },
                MessageView::Command(command, pending, deadline) => {
                    if pending is Some && !table.holds(pending->0.identity) {
                        plan_receive()
                    } else if deadline is Some && deadline->0 <= now {
                        plan_timeout(plan_receive(), pending)
                    } else {
                        SendPlan {
                            next: SendStateView::WritingCommand(pending),
                            action: SendAction::WriteCommand(command, deadline),
                            ..plan_receive()
                        }
                    }
                },
            },
            (SendStateView::WritingBytes, SendEvent::WriteFailed(error)) => {
                plan_retire(error@.text())
            },
            (SendStateView::WritingCommand(pending), SendEvent::WriteFailed(error)) => match error@ {
                ErrorView::IO(message) => plan_retire(message),
                _ => plan_failure(plan_receive(), pending, error@.text()),
            },
            (SendStateView::WritingCommand(pending), SendEvent::DeadlineExpired) => plan_timeout(
                plan_retire("send deadline expired"@),
                pending,
            ),
            (_, SendEvent::Written) => plan_receive(),
            _ => plan_stop(),
        }
    }
}

impl SendPlan {
    /// The table after the withdrawal of the request at hand.
    pub open spec fn table_withdrawn(self, table: PendingTable) -> PendingTable {
        match self.withdraws {
            Some((identity, _)) => table.withdrawn(identity),
            None => table,
        }
    }

    /// The table after the step.
    pub open spec fn table_after(self, table: PendingTable, channel: ChannelView) -> PendingTable {
        if self.retires is Some {
            self.table_withdrawn(table).without_connection(channel.connection.connection_id)
        } else {
            self.table_withdrawn(table)
        }
    }

    /// The channel after the step.
    pub open spec fn channel_after(self, channel: ChannelView) -> ChannelView {
        if self.retires is Some {
            channel.retired()
        } else {
            channel
        }
    }

    /// Whether `step` carries the decisions out.
    pub open spec fn carried_out(
        self,
        step: SendStep,
        table: PendingTable,
        channel: ChannelView,
    ) -> bool {
        &&& step.action == self.action
        &&& match self.withdraws {
            Some((identity, error)) => crate::base::pending_responses::fail_waiter(
                step.withdrawn,
                table.waiter(identity),
                error,
            ),
            None => step.withdrawn is None,
        }
        &&& match self.retires {
            Some(message) => crate::base::pending_responses::fail_each(
                step.failed@,
                self.table_withdrawn(table).of_connection(channel.connection.connection_id),
                crate::base::pending_responses::remoting_failure(message),
            ),
            None => step.failed@.len() == 0,
        }
    }
}

impl SendLoop {
    /// A task that waits for the first message.
    pub fn new() -> (task: Self)
        ensures
            task@ == SendStateView::Receiving,
    {
        SendLoop { state: SendState::Receiving }
    }

    /// Decides what comes of `event`, which the task gets at `now`.
    pub fn step(
        &mut self,
        event: SendEvent,
        now: u64,
        channel: &mut ChannelInner,
        table: &mut PendingResponses,
        metrics: &mut TransportCounters,
    ) -> (step: SendStep)
        requires
            old(table).wf(),
            old(self)@.awaits(event),
        ensures
            final(table).wf(),
            ({
                let plan = old(self)@.plan(event, old(table)@, now);
                &&& final(self)@ == plan.next
                &&& final(table)@ == plan.table_after(old(table)@, old(channel)@)
                &&& final(channel)@ == plan.channel_after(old(channel)@)
                &&& plan.carried_out(step, old(table)@, old(channel)@)
            }),
            final(metrics)@ == old(metrics)@.pending_moved(
                final(table)@.entries.len() - old(table)@.entries.len(),
            ),
    {
        proof {
            crate::metrics::law_gauge_moves_add_up(metrics@.pending_responses, 0, 0);
        }
        let mut state = SendState::Stopped;
        core::mem::swap(&mut state, &mut self.state);
        match (state, event) {
            (SendState::Receiving, SendEvent::Message(message)) => {
                self.receive(message, now, table, metrics)
            },
            (SendState::WritingBytes, SendEvent::WriteFailed(error)) => {
                let failed = channel.retire(&error.text(), table, metrics);
                SendStep { action: SendAction::Retire, withdrawn: None, failed }
            },
            (SendState::WritingCommand(pending), SendEvent::WriteFailed(error)) => {
                if let RocketMQError::IO(message) = &error {
                    let failed = channel.retire(message, table, metrics);
                    return SendStep { action: SendAction::Retire, withdrawn: None, failed };
                }
                self.state = SendState::Receiving;
                let withdrawn = match pending {
                    Some(request) => request.fail(&error.text(), table, metrics),
                    None => None,
                };
                SendStep { action: SendAction::Receive, withdrawn, failed: Vec::new() }
            },
            (SendState::WritingCommand(pending), SendEvent::DeadlineExpired) => {
                let ghost before = table@;
                let ghost gauge = metrics@;
                let withdrawn = match pending {
                    Some(request) => request.timeout(request.timeout_millis(), table, metrics),
                    None => None,
                };
                let ghost between = table@;
                let failed = channel.retire("send deadline expired", table, metrics);
                proof {
                    crate::metrics::law_gauge_moves_add_up(
                        gauge.pending_responses,
                        between.entries.len() - before.entries.len(),
                        table@.entries.len() - between.entries.len(),
                    );
                }
                SendStep { action: SendAction::Retire, withdrawn, failed }
            },
            (_, SendEvent::Written) => {
                self.state = SendState::Receiving;
                SendStep { action: SendAction::Receive, withdrawn: None, failed: Vec::new() }
            },
            _ => SendStep { action: SendAction::Stop, withdrawn: None, failed: Vec::new() },
        }
    }

    /// Decides what comes of a message of the queue.
    fn receive(
        &mut self,
        message: ChannelMessage,
        now: u64,
        table: &mut PendingResponses,
        metrics: &mut TransportCounters,
    ) -> (step: SendStep)
        requires
            old(table).wf(),
        ensures
            final(table).wf(),
            ({
                let plan = SendStateView::Receiving.plan(
                    SendEvent::Message(message),
                    old(table)@,
                    now,
                );
                &&& final(self)@ == plan.next
                &&& final(table)@ == plan.table_withdrawn(old(table)@)
                &&& step.action == plan.action
                &&& match plan.withdraws {
                    Some((identity, error)) => crate::base::pending_responses::fail_waiter(
                        step.withdrawn,
                        old(table)@.waiter(identity),
                        error,
                    ),
                    None => step.withdrawn is None,
                }
                &&& step.failed@.len() == 0
            }),
            final(metrics)@ == old(metrics)@.pending_moved(
                final(table)@.entries.len() - old(table)@.entries.len(),
            ),
    {
        proof {
            crate::metrics::law_gauge_moves_add_up(metrics@.pending_responses, 0, 0);
        }
        let (command, pending, deadline) = match message {
            ChannelMessage::Bytes(bytes) => {
                self.state = SendState::WritingBytes;
                return SendStep {
                    action: SendAction::WriteBytes(bytes),
                    withdrawn: None,
                    failed: Vec::new(),
                };
            },
            ChannelMessage::Command(command, pending, deadline) => (command, pending, deadline),
        };
        self.state = SendState::Receiving;
        if let Some(request) = &pending {
            if !request.is_registered(table) {
                return SendStep {
                    action: SendAction::Receive,
                    withdrawn: None,
                    failed: Vec::new(),
                };
            }
        }
        if let Some(instant) = deadline {
            if crate::time::has_expired(instant, now) {
                let withdrawn = match pending {
                    Some(request) => request.timeout(request.timeout_millis(), table, metrics),
                    None => None,
                };
                return SendStep { action: SendAction::Receive, withdrawn, failed: Vec::new() };
            }
        }
        self.state = SendState::WritingCommand(pending);
        SendStep {
            action: SendAction::WriteCommand(command, deadline),
            withdrawn: None,
            failed: Vec::new(),
        }
    }
}

} // verus!
