//! What holds over runs: any number of changes of the table of pending
//! requests, of steps of the send task, and of steps of a batch.

use vstd::prelude::*;

use crate::base::pending_responses::{IdentityView, PendingTable};
use crate::base::response_future::ResponseFuture;
use crate::clients::batch::BatchSendStep;
use crate::error::RocketMQResult;
use crate::net::call::{CallStart, CallView};
use crate::net::channel_inner::{ChannelView, MessageView};
use crate::net::send_loop::{SendAction, SendEvent, SendPlan, SendStateView};
use crate::protocol::RemotingCommand;

verus! {

// Changes of the table.

/// What can happen to the table of pending requests.
pub enum TableChange {
    /// A waiter was to be registered under a key: `PendingResponses::register`.
    Registered((Seq<char>, i32), ResponseFuture),
    /// What was pending under a key was taken out: `PendingResponses::take`.
    Taken((Seq<char>, i32)),
    /// A request was withdrawn by its identity:
    /// `PendingResponses::remove_if_token_matches`, `fail_identity` and
    /// `timeout_identity`, and the release of a registration.
    Withdrawn(IdentityView),
    /// The requests of a connection failed: `PendingResponses::fail_connection`.
    ConnectionFailed(Seq<char>),
}

impl TableChange {
    /// The table after the change.
    pub open spec fn applied(self, table: PendingTable) -> PendingTable {
        match self {
            TableChange::Registered(key, future) => table.registered(key, future),
            TableChange::Taken(key) => table.without(key),
            TableChange::Withdrawn(identity) => table.withdrawn(identity),
            TableChange::ConnectionFailed(connection_id) => table.without_connection(connection_id),
        }
    }

    /// Whether the change removes the request that `identity` names, while it is pending.
    pub open spec fn removes(self, identity: IdentityView) -> bool {
        match self {
            TableChange::Registered(_, _) => false,
            TableChange::Taken(key) => key == identity.key,
            TableChange::Withdrawn(withdrawn) => withdrawn == identity,
            TableChange::ConnectionFailed(connection_id) => connection_id == identity.key.0,
        }
    }

    /// How many registrations succeed with the change in `table`.
    pub open spec fn added(self, table: PendingTable) -> nat {
        match self {
            TableChange::Registered(key, _) => if table.is_pending(key) {
                0
            } else {
                1
            },
            _ => 0,
        }
    }

    /// How many requests the change removes from `table`.
    pub open spec fn removed(self, table: PendingTable) -> nat {
        match self {
            TableChange::Registered(_, _) => 0,
            TableChange::Taken(key) => if table.is_pending(key) {
                1
            } else {
                0
            },
            TableChange::Withdrawn(identity) => if table.holds(identity) {
                1
            } else {
                0
            },
            TableChange::ConnectionFailed(connection_id) => table.of_connection(
                connection_id,
            ).len(),
        }
    }
}

/// The table after `changes`, the first one first.
pub open spec fn table_after(table: PendingTable, changes: Seq<TableChange>) -> PendingTable
    decreases changes.len(),
{
    if changes.len() == 0 {
        table
    } else {
        changes.last().applied(table_after(table, changes.drop_last()))
    }
}

/// How many of `changes` are attempts to register. Each uses a token up.
pub open spec fn attempts(changes: Seq<TableChange>) -> nat
    decreases changes.len(),
{
    if changes.len() == 0 {
        0
    } else {
        attempts(changes.drop_last()) + if changes.last() is Registered {
            1nat
        } else {
            0
        }
    }
}

/// How many registrations succeed in the course of `changes`.
pub open spec fn total_added(table: PendingTable, changes: Seq<TableChange>) -> nat
    decreases changes.len(),
{
    if changes.len() == 0 {
        0
    } else {
        let earlier = changes.drop_last();
        total_added(table, earlier) + changes.last().added(table_after(table, earlier))
    }
}

/// How many requests are removed in the course of `changes`.
pub open spec fn total_removed(table: PendingTable, changes: Seq<TableChange>) -> nat
    decreases changes.len(),
{
    if changes.len() == 0 {
        0
    } else {
        let earlier = changes.drop_last();
        total_removed(table, earlier) + changes.last().removed(table_after(table, earlier))
    }
}

/// Whether one of `changes` removes the request that `identity` names.
pub open spec fn removed_in(changes: Seq<TableChange>, identity: IdentityView) -> bool {
    exists|i: int| 0 <= i < changes.len() && (#[trigger] changes[i]).removes(identity)
}

proof fn lemma_removed_in(changes: Seq<TableChange>, identity: IdentityView)
    requires
        changes.len() > 0,
    ensures
        removed_in(changes, identity) == (removed_in(changes.drop_last(), identity)
            || changes.last().removes(identity)),
{
    let earlier = changes.drop_last();
    if removed_in(changes, identity) {
        let i = choose|i: int| 0 <= i < changes.len() && (#[trigger] changes[i]).removes(identity);
        if i < earlier.len() {
            assert(earlier[i].removes(identity));
        }
    }
    if removed_in(earlier, identity) {
        let i = choose|i: int| 0 <= i < earlier.len() && (#[trigger] earlier[i]).removes(identity);
        assert(changes[i].removes(identity));
    }
    assert(changes[changes.len() - 1] == changes.last());
}

/// A registered request stays pending, with its own waiter, exactly as long as
/// it was not removed: by its response, by its identity, or with its
/// connection. Once removed, it is not registered again, even while a later
/// registration holds its key. This is so as long as the tokens were not all
/// given out since.
pub proof fn law_registered_until_removed(
    table: PendingTable,
    key: (Seq<char>, i32),
    future: ResponseFuture,
    changes: Seq<TableChange>,
)
    requires
        !table.is_pending(key),
        attempts(changes) <= u64::MAX,
    ensures
        ({
            let identity = IdentityView { key, token: table.next_token };
            let after = table_after(table.registered(key, future), changes);
            &&& after.holds(identity) <==> !removed_in(changes, identity)
            &&& after.waiter(identity) == if removed_in(changes, identity) {
                None
            } else {
                Some(future)
            }
        }),
        table_after(table.registered(key, future), changes).next_token == crate::laws::token_at(
            table.next_token,
            attempts(changes) + 1,
        ),
    decreases changes.len(),
{
    let identity = IdentityView { key, token: table.next_token };
    let registered = table.registered(key, future);
    if changes.len() > 0 {
        let earlier = changes.drop_last();
        law_registered_until_removed(table, key, future, earlier);
        lemma_removed_in(changes, identity);
        if changes.last() is Registered {
            crate::laws::law_tokens_repeat_only_after_all(
                table.next_token,
                0,
                attempts(earlier) + 1,
            );
        }
    } else {
        reveal_with_fuel(crate::laws::token_at, 2);
    }
}

proof fn lemma_change_counts(table: PendingTable, change: TableChange)
    requires
        table.entries.dom().finite(),
    ensures
        change.applied(table).entries.dom().finite(),
        change.applied(table).entries.len() == table.entries.len() + change.added(table)
            - change.removed(table),
{
    match change {
        TableChange::Registered(key, future) => {},
        TableChange::Taken(key) => {
            if !table.is_pending(key) {
                assert(table.without(key).entries =~= table.entries);
            }
        },
        TableChange::Withdrawn(identity) => {},
        TableChange::ConnectionFailed(connection_id) => {
            let failed = table.of_connection(connection_id).dom();
            let kept = table.without_connection(connection_id).entries.dom();
            assert(failed.subset_of(table.entries.dom()));
            assert(kept.subset_of(table.entries.dom()));
            vstd::set_lib::lemma_len_subset(failed, table.entries.dom());
            vstd::set_lib::lemma_len_subset(kept, table.entries.dom());
            assert(failed + kept =~= table.entries.dom());
            vstd::set_lib::lemma_set_disjoint_lens(failed, kept);
        },
    }
}

/// The number of pending requests is the number of registrations that
/// succeeded, less the requests that were removed since. An attempt to
/// register under a key that is taken does not count.
pub proof fn law_len_counts_registrations(table: PendingTable, changes: Seq<TableChange>)
    requires
        table.entries.dom().finite(),
    ensures
        table_after(table, changes).entries.dom().finite(),
        table_after(table, changes).entries.len() == table.entries.len() + total_added(
            table,
            changes,
        ) - total_removed(table, changes),
        table.entries.is_empty() ==> table_after(table, changes).entries.len() == total_added(
            table,
            changes,
        ) - total_removed(table, changes),
    decreases changes.len(),
{
    if changes.len() > 0 {
        let earlier = changes.drop_last();
        law_len_counts_registrations(table, earlier);
        lemma_change_counts(table_after(table, earlier), changes.last());
    }
    assert(table.entries.is_empty() ==> table.entries.dom() =~= Set::empty());
}

/// Whether one of `changes` is an attempt to register under `key`.
pub open spec fn registers_in(changes: Seq<TableChange>, key: (Seq<char>, i32)) -> bool {
    exists|i: int|
        0 <= i < changes.len() && (#[trigger] changes[i] matches TableChange::Registered(
            registered,
            _,
        ) && registered == key)
}

/// What is pending under a key was registered there: where nothing is
/// registered under a key, what is pending under it was pending before.
pub proof fn law_pending_was_registered(
    table: PendingTable,
    key: (Seq<char>, i32),
    changes: Seq<TableChange>,
)
    requires
        !registers_in(changes, key),
    ensures
        table_after(table, changes).is_pending(key) ==> {
            &&& table.is_pending(key)
            &&& table_after(table, changes).entries[key] == table.entries[key]
        },
    decreases changes.len(),
{
    if changes.len() > 0 {
        let earlier = changes.drop_last();
        assert(changes[changes.len() - 1] == changes.last());
        if registers_in(earlier, key) {
            let i = choose|i: int|
                0 <= i < earlier.len() && (#[trigger] earlier[i] matches TableChange::Registered(
                    registered,
                    _,
                ) && registered == key);
            assert(changes[i] == earlier[i]);
        }
        law_pending_was_registered(table, key, earlier);
    }
}

/// Whether some changes, `count` of them attempts to register, lead from
/// `before` to `after`.
pub open spec fn leads_to(before: PendingTable, after: PendingTable, count: nat) -> bool {
    exists|changes: Seq<TableChange>|
        #![trigger table_after(before, changes)]
        table_after(before, changes) == after && attempts(changes) == count
}

proof fn lemma_leads_to_next(
    before: PendingTable,
    between: PendingTable,
    count: nat,
    change: TableChange,
)
    requires
        leads_to(before, between, count),
    ensures
        leads_to(
            before,
            change.applied(between),
            count + if change is Registered {
                1nat
            } else {
                0
            },
        ),
{
    let changes = choose|changes: Seq<TableChange>|
        #![trigger table_after(before, changes)]
        table_after(before, changes) == between && attempts(changes) == count;
    let more = changes.push(change);
    assert(more.drop_last() =~= changes);
    assert(table_after(before, more) == change.applied(between));
}

proof fn lemma_leads_to_itself(table: PendingTable)
    ensures
        leads_to(table, table, 0),
{
    assert(table_after(table, Seq::empty()) == table);
}

proof fn lemma_withdrawals_are_changes(
    before: PendingTable,
    table: PendingTable,
    calls: Seq<CallView>,
)
    requires
        leads_to(before, table, 0),
    ensures
        leads_to(before, crate::clients::batch::withdrawn_all(table, calls), 0),
    decreases calls.len(),
{
    if calls.len() > 0 {
        let identity = calls[0].request.identity;
        lemma_leads_to_next(before, table, 0, TableChange::Withdrawn(identity));
        lemma_withdrawals_are_changes(before, table.withdrawn(identity), calls.drop_first());
    }
}

/// Whatever the library does to the table is made of the same few changes: the
/// start of a call, which attempts to register once, and, without an attempt,
/// the withdrawal of calls, a step of the send task, and a shutdown.
pub proof fn law_operations_are_changes(
    table: PendingTable,
    start: CallStart,
    calls: Seq<CallView>,
    plan: SendPlan,
    channel: ChannelView,
)
    ensures
        leads_to(table, start.table_after(table), 1),
        leads_to(table, crate::clients::batch::withdrawn_all(table, calls), 0),
        leads_to(table, plan.table_after(table, channel), 0),
        leads_to(table, channel.table_shut_down(table), 0),
{
    let connection_id = channel.connection.connection_id;
    lemma_leads_to_itself(table);
    lemma_leads_to_next(
        table,
        table,
        0,
        TableChange::Registered(start.key(), start.future()),
    );
    let registered = table.registered(start.key(), start.future());
    if !start.channel.admits() && !table.is_pending(start.key()) {
        let identity = start.call(table).request.identity;
        lemma_leads_to_next(table, registered, 1, TableChange::Withdrawn(identity));
        assert(registered.withdrawn(identity) =~= start.table_after(table));
    }
    lemma_withdrawals_are_changes(table, table, calls);
    if let Some((identity, _)) = plan.withdraws {
        lemma_leads_to_next(table, table, 0, TableChange::Withdrawn(identity));
    }
    lemma_leads_to_next(
        table,
        plan.table_withdrawn(table),
        0,
        TableChange::ConnectionFailed(connection_id),
    );
    lemma_leads_to_next(table, table, 0, TableChange::ConnectionFailed(connection_id));
}

// Steps of the send task.

/// What the send task finds at a step: the event that it is told of, what is
/// pending then, and the time.
pub struct SendInput {
    pub event: SendEvent,
    pub table: PendingTable,
    pub now: u64,
}

/// What a new send task waits for after `inputs`.
pub open spec fn send_state(inputs: Seq<SendInput>) -> SendStateView
    decreases inputs.len(),
{
    if inputs.len() == 0 {
        SendStateView::Receiving
    } else {
        let last = inputs.last();
        send_state(inputs.drop_last()).plan(last.event, last.table, last.now).next
    }
}

/// Whether a new send task can be told of `inputs`, one after the other.
pub open spec fn awaited(inputs: Seq<SendInput>) -> bool
    decreases inputs.len(),
{
    inputs.len() == 0 || {
        &&& awaited(inputs.drop_last())
        &&& send_state(inputs.drop_last()).awaits(inputs.last().event)
    }
}

/// What a new send task writes in the course of `inputs`, the first one first.
pub open spec fn writes(inputs: Seq<SendInput>) -> Seq<SendAction>
    decreases inputs.len(),
{
    if inputs.len() == 0 {
        Seq::empty()
    } else {
        let earlier = inputs.drop_last();
        let last = inputs.last();
        let action = send_state(earlier).plan(last.event, last.table, last.now).action;
        if action is WriteBytes || action is WriteCommand {
            writes(earlier).push(action)
        } else {
            writes(earlier)
        }
    }
}

impl SendInput {
    /// Whether the input is a message that is still to be written: its caller
    /// did not give up, and its deadline did not come.
    pub open spec fn live(self) -> bool {
        match self.event {
            SendEvent::Message(message) => match message@ {
                MessageView::Bytes(_) => true,
                MessageView::Command(_, pending, deadline) => {
                    &&& pending matches Some(request) ==> self.table.holds(request.identity)
                    &&& deadline matches Some(instant) ==> self.now < instant
                },
            },
            _ => false,
        }
    }
}

/// The messages among `inputs` that are still to be written, in the order in
/// which the queue gave them.
pub open spec fn live_messages(inputs: Seq<SendInput>) -> Seq<MessageView>
    decreases inputs.len(),
{
    if inputs.len() == 0 {
        Seq::empty()
    } else if inputs.last().live() {
        live_messages(inputs.drop_last()).push(inputs.last().event->Message_0@)
    } else {
        live_messages(inputs.drop_last())
    }
}

/// How a message is written.
pub open spec fn write_of(message: MessageView) -> SendAction {
    match message {
        MessageView::Bytes(bytes) => SendAction::WriteBytes(bytes),
        MessageView::Command(command, _, deadline) => SendAction::WriteCommand(command, deadline),
    }
}

/// The send task keeps the order of the queue: it writes the messages that are
/// still to be written when it gets them, each once and unchanged, in the
/// order in which the queue gave them, and nothing else.
pub proof fn law_queue_order_is_kept(inputs: Seq<SendInput>)
    requires
        awaited(inputs),
    ensures
        writes(inputs) == live_messages(inputs).map_values(
            |message: MessageView| write_of(message),
        ),
    decreases inputs.len(),
{
    let write = |message: MessageView| write_of(message);
    if inputs.len() > 0 {
        let earlier = inputs.drop_last();
        law_queue_order_is_kept(earlier);
        if inputs.last().live() {
            let message = inputs.last().event->Message_0@;
            assert(live_messages(earlier).push(message).map_values(write) =~= live_messages(
                earlier,
            ).map_values(write).push(write_of(message)));
        }
    } else {
        assert(Seq::<MessageView>::empty().map_values(write) =~= Seq::empty());
    }
}

// Steps of a batch that is sent.

/// A step of a batch: what came of the last request, the state of the channel,
/// what the step came to, and what is left to enqueue then.
pub struct BatchTurn {
    pub previous: RocketMQResult<()>,
    pub channel: ChannelView,
    pub step: BatchSendStep,
    pub left: Seq<RemotingCommand>,
}

/// Whether `turns` are the steps of a batch of `requests` from its start: they
/// start with `Ok`, and a batch that is over takes no further step.
pub open spec fn is_batch_run(requests: Seq<RemotingCommand>, turns: Seq<BatchTurn>) -> bool
    decreases turns.len(),
{
    turns.len() == 0 || {
        let earlier = turns.drop_last();
        let last = turns.last();
        &&& is_batch_run(requests, earlier)
        &&& if earlier.len() == 0 {
            last.previous is Ok
        } else {
            earlier.last().step is Enqueue
        }
        &&& crate::clients::batch::batch_sends(
            if earlier.len() == 0 {
                requests
            } else {
                earlier.last().left
            },
            last.previous,
            last.channel,
            last.step,
            last.left,
        )
    }
}

/// What is enqueued in the course of `turns`, the first message first.
pub open spec fn batch_enqueued(turns: Seq<BatchTurn>) -> Seq<MessageView>
    decreases turns.len(),
{
    if turns.len() == 0 {
        Seq::empty()
    } else {
        match turns.last().step {
            BatchSendStep::Enqueue(enqueue) => batch_enqueued(turns.drop_last()).push(
                enqueue.message@,
            ),
            BatchSendStep::Done(_) => batch_enqueued(turns.drop_last()),
        }
    }
}

/// What the queue took in the course of `turns`, as the following turns tell,
/// the first message first.
pub open spec fn batch_taken(turns: Seq<BatchTurn>) -> Seq<MessageView>
    decreases turns.len(),
{
    if turns.len() < 2 {
        Seq::empty()
    } else {
        let earlier = turns.drop_last();
        match earlier.last().step {
            BatchSendStep::Enqueue(enqueue) if turns.last().previous is Ok => batch_taken(
                earlier,
            ).push(enqueue.message@),
            _ => batch_taken(earlier),
        }
    }
}

/// The messages of `requests` that nobody waits for.
pub open spec fn batch_messages(requests: Seq<RemotingCommand>) -> Seq<MessageView> {
    requests.map_values(|request: RemotingCommand| MessageView::Command(request, None, None))
}

/// A batch is sent in order, up to the first failure: the queue takes the
/// first requests, each once and unchanged, and at most one more was enqueued.
/// The batch is over after one step more than it has requests, if not before,
/// and it ends with `Ok` exactly when the queue took all of its requests.
pub proof fn law_batch_is_sent_in_order(requests: Seq<RemotingCommand>, turns: Seq<BatchTurn>)
    requires
        is_batch_run(requests, turns),
    ensures
        batch_enqueued(turns).len() <= requests.len(),
        batch_enqueued(turns) == batch_messages(
            requests.take(batch_enqueued(turns).len() as int),
        ),
        batch_taken(turns) == batch_messages(requests.take(batch_taken(turns).len() as int)),
        batch_taken(turns).len() <= batch_enqueued(turns).len() <= batch_taken(turns).len() + 1,
        turns.len() <= requests.len() + 1,
        turns.len() == requests.len() + 1 ==> turns.last().step is Done,
        turns.len() > 0 ==> (turns.last().step matches BatchSendStep::Done(result) ==> (
        result is Ok <==> batch_taken(turns).len() == requests.len())),
{
    lemma_batch_run(requests, turns);
}

/// How far a batch is after `turns`.
proof fn lemma_batch_run(requests: Seq<RemotingCommand>, turns: Seq<BatchTurn>)
    requires
        is_batch_run(requests, turns),
    ensures
        batch_enqueued(turns).len() <= requests.len(),
        batch_enqueued(turns) == batch_messages(
            requests.take(batch_enqueued(turns).len() as int),
        ),
        batch_taken(turns) == batch_messages(requests.take(batch_taken(turns).len() as int)),
        turns.len() == 0 ==> batch_enqueued(turns).len() == 0 && batch_taken(turns).len() == 0,
        turns.len() > 0 && turns.last().step is Enqueue ==> {
            &&& batch_enqueued(turns).len() == turns.len()
            &&& batch_taken(turns).len() == turns.len() - 1
            &&& turns.last().left == requests.skip(turns.len() as int)
        },
        turns.len() > 0 && turns.last().step is Done ==> {
            &&& batch_enqueued(turns).len() == turns.len() - 1
            &&& batch_taken(turns).len() == if turns.last().previous is Ok {
                turns.len() - 1
            } else {
                turns.len() - 2
            }
            &&& turns.last().step->Done_0 is Ok <==> (turns.last().previous is Ok
                && turns.len() == requests.len() + 1)
        },
    decreases turns.len(),
{
    if turns.len() > 0 {
        let earlier = turns.drop_last();
        let last = turns.last();
        let done = earlier.len() as int;
        lemma_batch_run(requests, earlier);
        assert(requests.skip(0) =~= requests);
        let left = requests.skip(done);
        assert(left.len() == requests.len() - done);
        if left.len() > 0 {
            assert(left[0] == requests[done]);
            assert(left.drop_first() =~= requests.skip(done + 1));
            assert(batch_messages(requests.take(done)).push(
                MessageView::Command(requests[done], None, None),
            ) =~= batch_messages(requests.take(done + 1)));
        }
        if done > 0 {
            assert(batch_messages(requests.take(done - 1)).push(
                MessageView::Command(requests[done - 1], None, None),
            ) =~= batch_messages(requests.take(done)));
            assert(batch_enqueued(earlier)[done - 1] == MessageView::Command(
                requests[done - 1],
                None,
                None,
            ));
        }
    } else {
        assert(batch_messages(requests.take(0)) =~= Seq::empty());
    }
}

} // verus!
