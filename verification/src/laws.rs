//! What holds of the library as a whole.
//!
//! The laws speak of the states that the contracts of the functions speak of:
//! the table of pending requests, the state of a channel, and the decisions of
//! its tasks.

use vstd::prelude::*;

use crate::base::pending_responses::{IdentityView, PendingEntry, PendingTable};
use crate::base::response_future::{Completion, ResponseFuture};
use crate::clients::batch::BatchView;
use crate::connection::{ConnectionState, ConnectionView};
use crate::error::{ErrorView, RocketMQError};
use crate::net::call::{CallStart, CallView, ResponseEvent};
use crate::net::channel::Channel;
use crate::net::channel_inner::{ChannelView, Enqueue, MessageView, SendStyle, ShutdownAction};
use crate::net::send_loop::{SendAction, SendEvent, SendPlan, SendStateView};
use crate::protocol::RemotingCommand;
use crate::runs::TableChange;

verus! {

// Registration.

/// A registered request is pending under the identity that its registration
/// got, and no other request can be registered under its key.
pub proof fn law_registered_request_is_pending(
    table: PendingTable,
    key: (Seq<char>, i32),
    future: ResponseFuture,
    other: ResponseFuture,
)
    requires
        !table.is_pending(key),
    ensures
        ({
            let after = table.registered(key, future);
            &&& after.waiter(IdentityView { key, token: table.next_token }) == Some(future)
            &&& after.is_pending(key)
            &&& after.registered(key, other).entries == after.entries
        }),
{
}

/// Registration is scoped to the connection: it changes nothing of what is
/// pending on another connection, or under another number of the same one.
pub proof fn law_registration_is_scoped(
    table: PendingTable,
    key: (Seq<char>, i32),
    future: ResponseFuture,
    other: (Seq<char>, i32),
)
    requires
        other != key,
    ensures
        table.registered(key, future).is_pending(other) == table.is_pending(other),
        table.is_pending(other) ==> table.registered(key, future).entries[other]
            == table.entries[other],
{
}

/// A response is taken before its waiter is completed: it is then no longer
/// pending, cannot be taken again, and everything else stays pending.
pub proof fn law_taken_request_is_gone(
    table: PendingTable,
    key: (Seq<char>, i32),
    other: (Seq<char>, i32),
)
    ensures
        !table.without(key).is_pending(key),
        table.without(key).without(key) == table.without(key),
        other != key ==> table.without(key).is_pending(other) == table.is_pending(other),
        other != key && table.is_pending(other) ==> table.without(key).entries[other]
            == table.entries[other],
{
    assert(table.without(key).without(key).entries =~= table.without(key).entries);
}

/// A withdrawn request is not pending, withdrawing it again changes nothing,
/// and everything under another key stays pending.
pub proof fn law_withdrawn_request_is_gone(
    table: PendingTable,
    identity: IdentityView,
    other: (Seq<char>, i32),
)
    ensures
        !table.withdrawn(identity).holds(identity),
        table.withdrawn(identity).withdrawn(identity) == table.withdrawn(identity),
        table.withdrawn(identity).waiter(identity) is None,
        other != identity.key ==> table.withdrawn(identity).is_pending(other)
            == table.is_pending(other),
        other != identity.key && table.is_pending(other) ==> table.withdrawn(
            identity,
        ).entries[other] == table.entries[other],
{
}

/// A registration that is released at once leaves the pending requests as they were.
pub proof fn law_released_registration_leaves_no_trace(
    table: PendingTable,
    key: (Seq<char>, i32),
    future: ResponseFuture,
)
    requires
        !table.is_pending(key),
    ensures
        table.registered(key, future).withdrawn(
            IdentityView { key, token: table.next_token },
        ).entries == table.entries,
{
    assert(table.entries.insert(
        key,
        PendingEntry { token: table.next_token, future },
    ).remove(key) =~= table.entries);
}

/// The token that is given out `count` registrations after `first`.
pub open spec fn token_at(first: u64, count: nat) -> u64
    decreases count,
{
    if count == 0 {
        first
    } else {
        crate::base::pending_responses::token_after(token_at(first, (count - 1) as nat))
    }
}

proof fn lemma_token_at(first: u64, count: nat)
    requires
        count <= u64::MAX,
    ensures
        token_at(first, count) == (if first + count <= u64::MAX {
            first + count
        } else {
            first + count - u64::MAX - 1
        }),
    decreases count,
{
    if count > 0 {
        lemma_token_at(first, (count - 1) as nat);
    }
}

/// No token is given out twice before all of them were given out.
pub proof fn law_tokens_repeat_only_after_all(first: u64, earlier: nat, later: nat)
    requires
        earlier < later <= u64::MAX,
    ensures
        token_at(first, earlier) != token_at(first, later),
{
    lemma_token_at(first, earlier);
    lemma_token_at(first, later);
}

/// Cleanup is token-safe: a registration that lost its key, because its
/// request was taken or withdrawn, leaves a later registration under the same
/// key alone. The later one may follow after any number of others, as long as
/// the tokens were not all given out in between.
pub proof fn law_cleanup_is_token_safe(
    table: PendingTable,
    stale: IdentityView,
    registrations: nat,
)
    requires
        0 < registrations <= u64::MAX,
        table.is_pending(stale.key),
        table.entries[stale.key].token == token_at(stale.token, registrations),
    ensures
        table.withdrawn(stale) == table,
        table.waiter(stale) is None,
{
    law_tokens_repeat_only_after_all(stale.token, 0, registrations);
}

// Failure of a connection.

/// A connection that failed has no pending requests, and failing it again
/// changes nothing.
pub proof fn law_failed_connection_has_no_pending_requests(
    table: PendingTable,
    connection_id: Seq<char>,
)
    ensures
        table.without_connection(connection_id).of_connection(connection_id).is_empty(),
        table.without_connection(connection_id).without_connection(connection_id)
            == table.without_connection(connection_id),
{
    let after = table.without_connection(connection_id);
    assert(after.of_connection(connection_id) =~= Map::empty());
    assert(after.without_connection(connection_id) =~= after);
}

/// The failure of a connection concerns no other connection.
pub proof fn law_failed_connection_leaves_others_alone(
    table: PendingTable,
    connection_id: Seq<char>,
    other: Seq<char>,
)
    requires
        other != connection_id,
    ensures
        table.without_connection(connection_id).of_connection(other) == table.of_connection(other),
{
    assert(table.without_connection(connection_id).of_connection(other) =~= table.of_connection(
        other,
    ));
}

/// Whether `completion` tells the waiter of one of `requests` of `error`.
pub open spec fn fails_one(
    completion: Completion,
    requests: Map<(Seq<char>, i32), PendingEntry>,
    error: ErrorView,
) -> bool {
    exists|key: (Seq<char>, i32)| #[trigger]
        requests.contains_key(key) && completion.fails(requests[key].future.tx, error)
}

/// When requests fail together, there are as many completions as requests:
/// the waiter of every request is told, and nobody else is.
pub proof fn law_each_waiter_is_told_once(
    completions: Seq<Completion>,
    requests: Map<(Seq<char>, i32), PendingEntry>,
    error: ErrorView,
)
    requires
        crate::base::pending_responses::fail_each(completions, requests, error),
    ensures
        completions.len() == requests.len(),
        forall|key: (Seq<char>, i32)|
            #[trigger] requests.contains_key(key) ==> exists|i: int|
                0 <= i < completions.len() && (#[trigger] completions[i]).fails(
                    requests[key].future.tx,
                    error,
                ),
        forall|i: int|
            0 <= i < completions.len() ==> fails_one(#[trigger] completions[i], requests, error),
{
    let keys = choose|keys: Seq<(Seq<char>, i32)>|
        #![trigger crate::base::pending_responses::fail_in_order(
            completions,
            requests,
            error,
            keys,
        )]
        keys.no_duplicates() && keys.to_set() == requests.dom()
            && crate::base::pending_responses::fail_in_order(completions, requests, error, keys);
    keys.unique_seq_to_set();
    assert forall|key: (Seq<char>, i32)| #[trigger] requests.contains_key(key) implies exists|
        i: int,
    |
        0 <= i < completions.len() && (#[trigger] completions[i]).fails(
            requests[key].future.tx,
            error,
        ) by {
        assert(keys.to_set().contains(key));
        let i = keys.index_of(key);
        assert(completions[i].fails(requests[keys[i]].future.tx, error));
    }
    assert forall|i: int| 0 <= i < completions.len() implies fails_one(
        #[trigger] completions[i],
        requests,
        error,
    ) by {
        assert(keys.contains(keys[i]));
        assert(keys.to_set().contains(keys[i]));
        assert(requests.contains_key(keys[i]));
    }
}

// Channels.

/// Channels are equal exactly when their addresses and their identifiers are,
/// whatever state they share. So equality is reflexive, symmetric and
/// transitive, and a channel is equal to what has its identity, as a clone has.
pub proof fn law_channel_equality_is_by_identity<I>(a: Channel<I>, b: Channel<I>, c: Channel<I>)
    ensures
        vstd::std_specs::cmp::PartialEqSpec::eq_spec(&a, &a),
        vstd::std_specs::cmp::PartialEqSpec::eq_spec(&a, &b)
            == vstd::std_specs::cmp::PartialEqSpec::eq_spec(&b, &a),
        vstd::std_specs::cmp::PartialEqSpec::eq_spec(&a, &b)
            && vstd::std_specs::cmp::PartialEqSpec::eq_spec(&b, &c)
            ==> vstd::std_specs::cmp::PartialEqSpec::eq_spec(&a, &c),
        vstd::std_specs::cmp::PartialEqSpec::eq_spec(&a, &b) <==> {
            &&& a@.local_address == b@.local_address
            &&& a@.remote_address == b@.remote_address
            &&& a@.channel_id == b@.channel_id
        },
        a@ == b@ ==> vstd::std_specs::cmp::PartialEqSpec::eq_spec(&a, &b),
{
}

/// Equal channels hash alike: channels are equal exactly when a hasher is fed
/// with the same values for both.
pub proof fn law_equal_channels_hash_alike<I>(a: Channel<I>, b: Channel<I>)
    ensures
        vstd::std_specs::cmp::PartialEqSpec::eq_spec(&a, &b) <==> a@.hashed() == b@.hashed(),
{
}

/// A channel that takes no messages refuses all of them, and says that the
/// connection is closed. One that takes messages refuses none.
pub proof fn law_closed_channel_refuses_messages(
    channel: ChannelView,
    message: MessageView,
    deadline: Option<u128>,
    style: SendStyle,
    enqueued: Result<Enqueue, RocketMQError>,
)
    requires
        channel.enqueues(message, deadline, style, enqueued),
    ensures
        enqueued is Ok <==> channel.admits(),
        enqueued matches Err(error) ==> error@ == style.reported(
            crate::net::channel_inner::channel_failure("connection closed"@),
        ),
{
}

/// A channel whose connection was given up, and one that was shut down by the
/// first shutdown, take no messages, and no later shutdown changes that.
pub proof fn law_closed_channel_stays_closed(channel: ChannelView)
    ensures
        !channel.retired().admits(),
        channel.retired().closed,
        !channel.shutdown_started ==> !channel.shut_down().admits(),
        channel.closed ==> channel.shut_down().closed && channel.retired().closed,
        channel.closed ==> !channel.admits(),
{
}

/// Only the first shutdown has an effect. It leaves nothing pending on the
/// connection, and the second finds nothing to do.
pub proof fn law_shutdown_happens_once(
    channel: ChannelView,
    table: PendingTable,
    action: ShutdownAction,
)
    requires
        channel.shut_down().shuts_down(channel.table_shut_down(table), action),
    ensures
        action is AlreadyStarted,
        channel.shut_down().shut_down() == channel.shut_down(),
        channel.shut_down().table_shut_down(channel.table_shut_down(table))
            == channel.table_shut_down(table),
        !channel.shutdown_started ==> channel.table_shut_down(table).of_connection(
            channel.connection.connection_id,
        ).is_empty(),
{
    law_failed_connection_has_no_pending_requests(table, channel.connection.connection_id);
}

/// Whether the parts of the state of a channel agree: a shutdown closes the
/// channel, and a closed channel has a closed connection.
pub open spec fn channel_is_consistent(channel: ChannelView) -> bool {
    &&& channel.shutdown_started ==> channel.closed
    &&& channel.closed ==> channel.connection.state == ConnectionState::Closed
}

/// The parts of the state of a channel agree at its start, and whatever
/// happens to it: its connection degrades, it is given up, or it is shut down.
/// So a channel that was ever shut down takes no messages.
pub proof fn law_channel_state_is_consistent(channel: ChannelView, connection: ConnectionView)
    requires
        channel_is_consistent(channel),
    ensures
        channel_is_consistent(
            ChannelView { connection, closed: false, shutdown_started: false },
        ),
        channel_is_consistent(channel.degraded()),
        channel_is_consistent(channel.retired()),
        channel_is_consistent(channel.shut_down()),
        channel.shut_down().shutdown_started,
        !channel.shut_down().admits(),
{
}

// The send task.

/// What is written is what the queue gave, and in its order: a message is
/// written unchanged, or not at all, before the next one is received.
pub proof fn law_messages_are_written_unchanged(
    event: SendEvent,
    table: PendingTable,
    now: u64,
)
    requires
        event is Message,
    ensures
        ({
            let plan = SendStateView::Receiving.plan(event, table, now);
            match event->Message_0@ {
                MessageView::Bytes(bytes) => plan.action == SendAction::WriteBytes(bytes),
                MessageView::Command(command, _, deadline) => plan.action is Receive
                    || plan.action == SendAction::WriteCommand(command, deadline),
            }
        }),
        ({
            let plan = SendStateView::Receiving.plan(event, table, now);
            plan.next is Receiving <==> plan.action is Receive
        }),
{
}

/// No command is written whose caller gave up, or whose deadline has come.
pub proof fn law_no_stale_command_is_written(
    state: SendStateView,
    event: SendEvent,
    table: PendingTable,
    now: u64,
)
    requires
        state.awaits(event),
        state.plan(event, table, now).action is WriteCommand,
    ensures
        event is Message,
        event->Message_0@ matches MessageView::Command(command, pending, deadline) && {
            &&& pending matches Some(request) ==> table.holds(request.identity)
            &&& deadline matches Some(instant) ==> now < instant
            &&& state.plan(event, table, now).next == SendStateView::WritingCommand(pending)
        },
{
}

/// A task that stopped is told nothing more, and a task stops exactly when it
/// ends or gives up the connection.
pub proof fn law_stopped_task_is_over(
    state: SendStateView,
    event: SendEvent,
    table: PendingTable,
    now: u64,
)
    requires
        state.awaits(event),
    ensures
        !(state is Stopped),
        ({
            let plan = state.plan(event, table, now);
            &&& plan.next is Stopped <==> (plan.action is Stop || plan.action is Retire)
            &&& plan.action is Retire <==> plan.retires is Some
        }),
{
}

/// A task that gives up the connection leaves a channel that takes no messages
/// and a connection on which nothing is pending.
pub proof fn law_retired_connection_is_not_used_again(
    plan: SendPlan,
    table: PendingTable,
    channel: ChannelView,
)
    requires
        plan.retires is Some,
    ensures
        !plan.channel_after(channel).admits(),
        plan.table_after(table, channel).of_connection(
            channel.connection.connection_id,
        ).is_empty(),
{
    law_failed_connection_has_no_pending_requests(
        plan.table_withdrawn(table),
        channel.connection.connection_id,
    );
}

/// A command whose deadline comes while it is written may leave a part of
/// itself on the stream. The stream is never used again: the task stops, and
/// gives up the connection.
pub proof fn law_send_deadline_retires_connection(
    pending: Option<crate::base::pending_responses::RequestView>,
    table: PendingTable,
    now: u64,
    channel: ChannelView,
)
    ensures
        ({
            let plan = SendStateView::WritingCommand(pending).plan(
                SendEvent::DeadlineExpired,
                table,
                now,
            );
            &&& plan.action is Retire
            &&& plan.next is Stopped
            &&& !plan.channel_after(channel).admits()
            &&& plan.table_after(table, channel).of_connection(
                channel.connection.connection_id,
            ).is_empty()
            &&& pending matches Some(request) ==> !plan.table_after(table, channel).holds(
                request.identity,
            )
        }),
{
    let plan = SendStateView::WritingCommand(pending).plan(SendEvent::DeadlineExpired, table, now);
    law_retired_connection_is_not_used_again(plan, table, channel);
}

/// Bytes that cannot be written, and a command whose stream fails, end the
/// task and give up the connection. The waiters of the connection are told
/// why: of the error, or of what the stream said.
pub proof fn law_stream_failure_retires_connection(
    pending: Option<crate::base::pending_responses::RequestView>,
    error: RocketMQError,
    table: PendingTable,
    now: u64,
)
    ensures
        ({
            let plan = SendStateView::WritingBytes.plan(SendEvent::WriteFailed(error), table, now);
            &&& plan.action is Retire
            &&& plan.next is Stopped
            &&& plan.retires == Some(error@.text())
            &&& plan.withdraws is None
        }),
        error@ matches ErrorView::IO(message) ==> {
            let plan = SendStateView::WritingCommand(pending).plan(
                SendEvent::WriteFailed(error),
                table,
                now,
            );
            &&& plan.action is Retire
            &&& plan.next is Stopped
            &&& plan.retires == Some(message)
            &&& plan.withdraws is None
        },
{
}

/// A command that cannot be written for a reason that leaves the stream
/// intact concerns its own caller only: the task goes on, the channel is as
/// before, and everything else stays pending.
pub proof fn law_other_write_failures_concern_one_request(
    pending: Option<crate::base::pending_responses::RequestView>,
    error: RocketMQError,
    table: PendingTable,
    now: u64,
    channel: ChannelView,
    other: (Seq<char>, i32),
)
    requires
        !(error@ is IO),
        pending matches Some(request) ==> request.identity.key != other,
    ensures
        ({
            let plan = SendStateView::WritingCommand(pending).plan(
                SendEvent::WriteFailed(error),
                table,
                now,
            );
            &&& plan.next is Receiving
            &&& plan.channel_after(channel) == channel
            &&& plan.table_after(table, channel).is_pending(other) == table.is_pending(other)
            &&& table.is_pending(other) ==> plan.table_after(table, channel).entries[other]
                == table.entries[other]
            &&& pending matches Some(request) ==> !plan.table_after(table, channel).holds(
                request.identity,
            )
        }),
{
}

// Calls.

/// A response finds the caller that waits for it. Whatever else happens to the
/// table, until the request of a call is removed, its waiter is the one that
/// the call registered. What completes that waiter is sent into the channel on
/// which the caller waits, and what the caller gets there is what it is told.
pub proof fn law_response_finds_its_caller(
    start: CallStart,
    table: PendingTable,
    changes: Seq<TableChange>,
    outcome: crate::error::RocketMQResult<RemotingCommand>,
)
    requires
        start.asks(start.style, start.channel, start.request, start.timeout_millis, start.now),
        start.channel.admits(),
        !table.is_pending(start.key()),
        crate::runs::attempts(changes) <= u64::MAX,
        !crate::runs::removed_in(changes, start.call(table).request.identity),
    ensures
        ({
            let after = crate::runs::table_after(start.table_after(table), changes);
            let call = start.call(table);
            &&& after.is_pending(start.key())
            &&& after.waiter(call.request.identity) == Some(start.future())
            &&& after.entries[start.key()].future == start.future()
            &&& crate::net::call::one_channel(after.entries[start.key()].future.tx, call.rx)
            &&& call.answered(ResponseEvent::Completed(outcome)) == crate::error::result_view(
                outcome,
            )
        }),
{
    crate::runs::law_registered_until_removed(table, start.key(), start.future(), changes);
}

/// A call leaves nothing pending. Whatever happens to the table while the call
/// is made, once its request is withdrawn, which is how a call ends, it is not
/// pending, and neither is anything under its key, unless something else was
/// registered there meanwhile. What is pending under other keys stays so. With
/// nothing in between, the pending requests are those from before the call. A
/// call that cannot start leaves them as they were.
pub proof fn law_call_leaves_nothing_pending(
    start: CallStart,
    table: PendingTable,
    changes: Seq<TableChange>,
    other: (Seq<char>, i32),
)
    requires
        other != start.key(),
    ensures
        ({
            let identity = start.call(table).request.identity;
            let between = crate::runs::table_after(start.table_after(table), changes);
            let after = between.withdrawn(identity);
            &&& !after.holds(identity)
            &&& !table.is_pending(start.key()) && !crate::runs::registers_in(
                changes,
                start.key(),
            ) ==> !after.is_pending(start.key())
            &&& after.is_pending(other) == between.is_pending(other)
            &&& between.is_pending(other) ==> after.entries[other] == between.entries[other]
        }),
        !table.is_pending(start.key()) ==> start.table_after(table).withdrawn(
            start.call(table).request.identity,
        ).entries == table.entries,
        table.is_pending(start.key()) || !start.channel.admits() ==> start.table_after(
            table,
        ).entries == table.entries,
{
    if !table.is_pending(start.key()) {
        law_released_registration_leaves_no_trace(table, start.key(), start.future());
        if !crate::runs::registers_in(changes, start.key()) {
            crate::runs::law_pending_was_registered(
                start.table_after(table),
                start.key(),
                changes,
            );
        }
    }
}

/// A call whose deadline came is over for good: its request is not pending,
/// so a response that comes later finds no waiter, and the caller is told how
/// long it waited.
pub proof fn law_timed_out_call_gets_no_response(call: CallView, table: PendingTable)
    requires
        table.holds(call.request.identity),
    ensures
        !table.withdrawn(call.request.identity).is_pending(call.request.identity.key),
        call.answered(ResponseEvent::DeadlineExpired) == Err::<
            RemotingCommand,
            ErrorView,
        >(call.style.timed_out(call.request.timeout_millis)),
{
}

// Batches.

/// A batch that is given up leaves none of its requests pending.
pub proof fn law_abandoned_batch_leaves_nothing_pending(table: PendingTable, calls: Seq<CallView>)
    ensures
        forall|i: int|
            0 <= i < calls.len() ==> !crate::clients::batch::withdrawn_all(table, calls).holds(
                (#[trigger] calls[i]).request.identity,
            ),
        forall|identity: IdentityView|
            !table.holds(identity) ==> !#[trigger] crate::clients::batch::withdrawn_all(
                table,
                calls,
            ).holds(identity),
        forall|key: (Seq<char>, i32)|
            (forall|i: int| 0 <= i < calls.len() ==> calls[i].request.identity.key != key)
                && table.is_pending(key) ==> {
                &&& #[trigger] crate::clients::batch::withdrawn_all(table, calls).is_pending(key)
                &&& crate::clients::batch::withdrawn_all(table, calls).entries[key]
                    == table.entries[key]
            },
    decreases calls.len(),
{
    if calls.len() > 0 {
        let first = calls[0].request.identity;
        let rest = calls.drop_first();
        let next = table.withdrawn(first);
        law_abandoned_batch_leaves_nothing_pending(next, rest);
        let all = crate::clients::batch::withdrawn_all(table, calls);
        assert(all == crate::clients::batch::withdrawn_all(next, rest));
        assert forall|i: int| 0 <= i < calls.len() implies !all.holds(
            (#[trigger] calls[i]).request.identity,
        ) by {
            if i == 0 {
                assert(!next.holds(first));
            } else {
                assert(rest[i - 1] == calls[i]);
            }
        }
        assert forall|identity: IdentityView| !table.holds(identity) implies !#[trigger] all.holds(
            identity,
        ) by {
            assert(!next.holds(identity));
        }
        assert forall|key: (Seq<char>, i32)|
            (forall|i: int| 0 <= i < calls.len() ==> calls[i].request.identity.key != key)
                && table.is_pending(key) implies {
            &&& #[trigger] all.is_pending(key)
            &&& all.entries[key] == table.entries[key]
        } by {
            assert(calls[0].request.identity.key != key);
            assert(next.is_pending(key));
            assert forall|i: int| 0 <= i < rest.len() implies rest[i].request.identity.key
                != key by {
                assert(rest[i] == calls[i + 1]);
            }
        }
    }
}

/// Whether each call of a batch waits where the outcome of its own request is
/// sent: while the request is pending in `table`, the half of its waiter and
/// the half of the call belong to one channel.
pub open spec fn batch_waits_for_its_own(batch: BatchView, table: PendingTable) -> bool {
    forall|i: int|
        0 <= i < batch.waiting.len() ==> (table.waiter(
            (#[trigger] batch.waiting[i]).request.identity,
        ) matches Some(future) ==> crate::net::call::one_channel(future.tx, batch.waiting[i].rx))
}

/// Whether the calls of a batch have tokens that were given out before: since
/// the token `first`, `count` tokens were given out, not all there are, and the
/// calls of the batch have some of these.
pub open spec fn batch_has_tokens(
    batch: BatchView,
    table: PendingTable,
    first: u64,
    count: nat,
) -> bool {
    &&& count <= u64::MAX
    &&& table.next_token == token_at(first, count)
    &&& forall|i: int|
        0 <= i < batch.waiting.len() ==> given_out(
            (#[trigger] batch.waiting[i]).request.identity.token,
            first,
            count,
        )
}

/// Whether `token` is among the `count` tokens from `first` on.
pub open spec fn given_out(token: u64, first: u64, count: nat) -> bool {
    exists|k: nat| k < count && token == #[trigger] token_at(first, k)
}

proof fn lemma_given_out(token: u64, first: u64, count: nat)
    requires
        given_out(token, first, count),
        count <= u64::MAX,
    ensures
        token != token_at(first, count),
        given_out(token, first, count + 1),
{
    let k = choose|k: nat| k < count && token == #[trigger] token_at(first, k);
    law_tokens_repeat_only_after_all(first, k, count);
}

/// The calls of a batch wait for their own requests: so they do at the start,
/// after each request that is submitted and each call that is ended, and
/// whatever else happens to the table, as long as the tokens were not all
/// given out since the first of its calls.
pub proof fn law_batch_waits_for_its_own(
    batch: BatchView,
    table: PendingTable,
    first: u64,
    count: nat,
    start: CallStart,
    event: ResponseEvent,
    change: TableChange,
)
    requires
        batch_waits_for_its_own(batch, table),
        batch_has_tokens(batch, table, first, count),
    ensures
        ({
            let new = BatchView { waiting: Seq::empty(), ..batch };
            &&& batch_waits_for_its_own(new, table)
            &&& batch_has_tokens(new, table, table.next_token, 0)
        }),
        start.asks(start.style, start.channel, start.request, start.timeout_millis, start.now)
            && start.channel.admits() && !table.is_pending(start.key()) ==> {
            let joined = batch.joined(start.call(table));
            &&& batch_waits_for_its_own(joined, start.table_after(table))
            &&& count < u64::MAX ==> batch_has_tokens(
                joined,
                start.table_after(table),
                first,
                count + 1,
            )
        },
        batch.waiting.len() > 0 ==> {
            let after = table.withdrawn(batch.waiting[0].request.identity);
            &&& batch_waits_for_its_own(batch.responded(event), after)
            &&& batch_has_tokens(batch.responded(event), after, first, count)
        },
        batch_waits_for_its_own(batch, change.applied(table)),
        change is Registered && count < u64::MAX ==> batch_has_tokens(
            batch,
            change.applied(table),
            first,
            count + 1,
        ),
        !(change is Registered) ==> batch_has_tokens(batch, change.applied(table), first, count),
{
    assert forall|i: int| 0 <= i < batch.waiting.len() implies {
        &&& (#[trigger] batch.waiting[i]).request.identity.token != table.next_token
        &&& given_out(batch.waiting[i].request.identity.token, first, count + 1)
    } by {
        lemma_given_out(batch.waiting[i].request.identity.token, first, count);
    }
    assert(token_at(first, count + 1) == crate::base::pending_responses::token_after(
        token_at(first, count),
    ));
    assert(given_out(table.next_token, first, count + 1));
    let joined = batch.joined(start.call(table));
    assert forall|i: int| 0 <= i < joined.waiting.len() implies given_out(
        (#[trigger] joined.waiting[i]).request.identity.token,
        first,
        count + 1,
    ) by {
        if i < batch.waiting.len() {
            assert(joined.waiting[i] == batch.waiting[i]);
        }
    }
    if batch.waiting.len() > 0 {
        let next = batch.responded(event);
        let after = table.withdrawn(batch.waiting[0].request.identity);
        assert forall|i: int| 0 <= i < next.waiting.len() implies {
            &&& (after.waiter((#[trigger] next.waiting[i]).request.identity) matches Some(future)
                ==> crate::net::call::one_channel(future.tx, next.waiting[i].rx))
            &&& given_out(next.waiting[i].request.identity.token, first, count)
        } by {
            assert(next.waiting[i] == batch.waiting[i + 1]);
        }
    }
}

/// The batch after `events` ended its calls, the oldest first.
pub open spec fn responded_all(batch: BatchView, events: Seq<ResponseEvent>) -> BatchView
    decreases events.len(),
{
    if events.len() == 0 {
        batch
    } else {
        responded_all(batch.responded(events[0]), events.drop_first())
    }
}

/// The results of a batch come in the order of its requests: the result at a
/// place answers the call at that place.
pub proof fn law_batch_results_are_in_order(batch: BatchView, events: Seq<ResponseEvent>)
    requires
        events.len() <= batch.waiting.len(),
    ensures
        responded_all(batch, events).waiting == batch.waiting.skip(events.len() as int),
        responded_all(batch, events).results == batch.results + Seq::new(
            events.len(),
            |i: int| batch.waiting[i].answered(events[i]),
        ),
    decreases events.len(),
{
    if events.len() > 0 {
        let next = batch.responded(events[0]);
        let rest = events.drop_first();
        law_batch_results_are_in_order(next, rest);
        assert(next.waiting.skip(rest.len() as int) =~= batch.waiting.skip(events.len() as int));
        assert(next.results + Seq::new(
            rest.len(),
            |i: int| next.waiting[i].answered(rest[i]),
        ) =~= batch.results + Seq::new(
            events.len(),
            |i: int| batch.waiting[i].answered(events[i]),
        ));
    } else {
        assert(batch.waiting.skip(0) =~= batch.waiting);
        assert(batch.results + Seq::new(
            0,
            |i: int| batch.waiting[i].answered(events[i]),
        ) =~= batch.results);
    }
}

/// Whether a batch goes through `requests` in order on the connection
/// `connection_id`: the first ones have results, the next ones are waited for,
/// and the rest is yet to be submitted.
pub open spec fn batch_follows(
    batch: BatchView,
    requests: Seq<RemotingCommand>,
    connection_id: Seq<char>,
) -> bool {
    let answered = batch.results.len();
    let submitted = answered + batch.waiting.len();
    &&& submitted <= requests.len()
    &&& batch.requests == requests.skip(submitted as int)
    &&& forall|i: int|
        0 <= i < batch.waiting.len() ==> (#[trigger] batch.waiting[i]).request.identity.key == (
            connection_id,
            requests[answered + i].opaque,
        )
}

/// A batch goes through its requests in order: it does so at its start, and
/// after every request that it submits and every call that it ends. The call
/// that ends next, and gives the next result, is that of the next request.
pub proof fn law_batch_follows_its_requests(
    batch: BatchView,
    requests: Seq<RemotingCommand>,
    timeout_millis: u64,
    start: CallStart,
    table: PendingTable,
    event: ResponseEvent,
)
    requires
        batch_follows(batch, requests, start.channel.connection.connection_id),
    ensures
        batch_follows(
            BatchView { timeout_millis, requests, waiting: Seq::empty(), results: Seq::empty() },
            requests,
            start.channel.connection.connection_id,
        ),
        batch.requests.len() > 0 && start.request == batch.requests[0] ==> batch_follows(
            batch.joined(start.call(table)),
            requests,
            start.channel.connection.connection_id,
        ),
        batch.waiting.len() > 0 ==> {
            &&& batch_follows(
                batch.responded(event),
                requests,
                start.channel.connection.connection_id,
            )
            &&& batch.waiting[0].request.identity.key.1
                == requests[batch.results.len() as int].opaque
        },
        batch.requests.len() == 0 && batch.waiting.len() == 0 ==> batch.results.len()
            == requests.len(),
{
    let connection_id = start.channel.connection.connection_id;
    assert(requests.skip(0) =~= requests);
    if batch.requests.len() > 0 && start.request == batch.requests[0] {
        let next = batch.joined(start.call(table));
        let submitted = batch.results.len() + batch.waiting.len();
        assert(next.requests =~= requests.skip(submitted as int + 1));
        assert forall|i: int| 0 <= i < next.waiting.len() implies (
        #[trigger] next.waiting[i]).request.identity.key == (
            connection_id,
            requests[next.results.len() + i].opaque,
        ) by {
            if i < batch.waiting.len() {
                assert(next.waiting[i] == batch.waiting[i]);
            } else {
                assert(batch.requests[0] == requests[submitted as int]);
            }
        }
    }
    if batch.waiting.len() > 0 {
        let next = batch.responded(event);
        assert forall|i: int| 0 <= i < next.waiting.len() implies (
        #[trigger] next.waiting[i]).request.identity.key == (
            connection_id,
            requests[next.results.len() + i].opaque,
        ) by {
            assert(next.waiting[i] == batch.waiting[i + 1]);
        }
    }
}

} // verus!
