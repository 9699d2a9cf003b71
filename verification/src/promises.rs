//! What each operation promises.
//!
//! A law here speaks of every call of an operation: of what went into it and
//! what came out of it. It says so in terms of the values themselves: which
//! entries a table has, which fields a message has, which words an error has.

pub mod batches;
pub mod calls;
pub mod channels;
pub mod clients;
pub mod pending;
pub mod readiness;
pub mod send_task;
pub mod values;

use vstd::prelude::*;

use crate::base::pending_responses::{IdentityView, PendingEntry, PendingTable};
use crate::base::response_future::{Completion, ResponseFuture};
use crate::connection::ConnectionState;
use crate::error::{NetworkError, RocketMQError};
use crate::metrics::TransportMetrics;
use crate::net::channel_inner::{ChannelView, SendStyle, ShutdownAction};

verus! {

/// Whether `error` says that the connection to `addr` failed for `reason`.
pub open spec fn is_network(error: RocketMQError, addr: Seq<char>, reason: Seq<char>) -> bool {
    error matches RocketMQError::Network(NetworkError::ConnectionFailed { addr: a, reason: r })
        && a@ == addr && r@ == reason
}

/// Whether `error` says that `operation` did not end within `timeout_ms`.
pub open spec fn is_timeout(error: RocketMQError, operation: Seq<char>, timeout_ms: u64) -> bool {
    error matches RocketMQError::Timeout { operation: o, timeout_ms: t } && o@ == operation && t
        == timeout_ms
}

/// Whether `error` says that a remote call failed with `message`.
pub open spec fn is_remote(error: RocketMQError, message: Seq<char>) -> bool {
    error matches RocketMQError::Remote(m) && m@ == message
}

/// Whether `error` says that a stream failed with `message`.
pub open spec fn is_io(error: RocketMQError, message: Seq<char>) -> bool {
    error matches RocketMQError::IO(m) && m@ == message
}

/// What the text of an error says, for a decimal number `digits` of milliseconds.
pub open spec fn error_words(error: RocketMQError, digits: Seq<char>) -> Seq<char> {
    match error {
        RocketMQError::Network(NetworkError::ConnectionFailed { addr, reason }) => {
            "Connection failed to "@ + addr@ + ": "@ + reason@
        },
        RocketMQError::IO(message) => "IO error: "@ + message@,
        RocketMQError::Timeout { operation, timeout_ms } => operation@ + " timed out after "@
            + digits + "ms"@,
        RocketMQError::Remote(message) => message@,
        RocketMQError::Other(message) => message@,
    }
}

/// The number that `digits` write in decimal.
pub open spec fn number_of(digits: Seq<char>) -> int
    decreases digits.len(),
{
    if digits.len() == 0 {
        0
    } else {
        number_of(digits.drop_last()) * 10 + (digits.last() as int - '0' as int)
    }
}

/// Whether `digits` write `number` in decimal: they are digits, they come to
/// the number, and there is no leading zero but in zero itself.
pub open spec fn writes_number(digits: Seq<char>, number: nat) -> bool {
    &&& digits.len() > 0
    &&& forall|i: int| 0 <= i < digits.len() ==> '0' <= #[trigger] digits[i] <= '9'
    &&& number_of(digits) == number
    &&& number > 0 ==> digits[0] != '0'
    &&& number == 0 ==> digits.len() == 1
}

/// The text of an error, up to the digits of a timeout.
pub open spec fn is_text_of(text: Seq<char>, error: RocketMQError) -> bool {
    let number = match error {
        RocketMQError::Timeout { timeout_ms, .. } => timeout_ms as nat,
        _ => 0,
    };
    exists|digits: Seq<char>|
        #![trigger error_words(error, digits)]
        writes_number(digits, number) && text == error_words(error, digits)
}

/// Whether `completion` tells the waiter `future` that the connection failed for `reason`.
pub open spec fn told_failure(
    completion: Completion,
    future: ResponseFuture,
    reason: Seq<char>,
) -> bool {
    &&& completion.tx == future.tx
    &&& completion.outcome matches Err(error) && is_network(error, "remoting"@, reason)
}

/// Whether `completion` tells the waiter `future` that its time is over.
pub open spec fn told_timeout(
    completion: Completion,
    future: ResponseFuture,
    timeout_millis: u64,
) -> bool {
    &&& completion.tx == future.tx
    &&& completion.outcome matches Err(error) && is_timeout(error, "remoting"@, timeout_millis)
}

/// The keys of `entries` on the connection `connection_id`.
pub open spec fn keys_on(
    entries: Map<(Seq<char>, i32), PendingEntry>,
    connection_id: Seq<char>,
) -> Set<(Seq<char>, i32)> {
    Set::new(|key: (Seq<char>, i32)| entries.contains_key(key) && key.0 == connection_id)
}

/// Whether `completion` goes to one of `entries` on the connection `connection_id`.
pub open spec fn goes_to_one(
    completion: Completion,
    entries: Map<(Seq<char>, i32), PendingEntry>,
    connection_id: Seq<char>,
    reason: Seq<char>,
) -> bool {
    exists|key: (Seq<char>, i32)|
        #![trigger entries.contains_key(key)]
        entries.contains_key(key) && key.0 == connection_id && told_failure(
            completion,
            entries[key].future,
            reason,
        )
}

/// Whether one of `completions` tells the waiter `future` that the connection
/// failed for `reason`.
pub open spec fn one_tells(
    completions: Seq<Completion>,
    future: ResponseFuture,
    reason: Seq<char>,
) -> bool {
    exists|i: int|
        0 <= i < completions.len() && told_failure(#[trigger] completions[i], future, reason)
}

/// Whether `completions` tell every waiter of `entries` on the connection
/// `connection_id`, and nobody else, that the connection failed for `reason`:
/// there are as many completions as such entries.
pub open spec fn all_told(
    completions: Seq<Completion>,
    entries: Map<(Seq<char>, i32), PendingEntry>,
    connection_id: Seq<char>,
    reason: Seq<char>,
) -> bool {
    &&& completions.len() == keys_on(entries, connection_id).len()
    &&& forall|key: (Seq<char>, i32)| #[trigger]
        keys_on(entries, connection_id).contains(key) ==> one_tells(
            completions,
            entries[key].future,
            reason,
        )
    &&& forall|i: int|
        0 <= i < completions.len() ==> goes_to_one(
            #[trigger] completions[i],
            entries,
            connection_id,
            reason,
        )
}

/// Whether `after` is `before` without what is on the connection `connection_id`.
pub open spec fn cleared_of(
    before: Map<(Seq<char>, i32), PendingEntry>,
    after: Map<(Seq<char>, i32), PendingEntry>,
    connection_id: Seq<char>,
) -> bool {
    forall|key: (Seq<char>, i32)|
        #![trigger after.contains_key(key)]
        #![trigger before.contains_key(key)]
        {
            &&& after.contains_key(key) <==> before.contains_key(key) && key.0 != connection_id
            &&& after.contains_key(key) ==> after[key] == before[key]
        }
}

/// Whether the very request that `identity` names is in `entries`.
pub open spec fn present(
    entries: Map<(Seq<char>, i32), PendingEntry>,
    identity: IdentityView,
) -> bool {
    entries.contains_key(identity.key) && entries[identity.key].token == identity.token
}

/// Whether `after` is `before` without the request that `identity` names.
pub open spec fn removed(
    before: PendingTable,
    after: PendingTable,
    identity: IdentityView,
) -> bool {
    &&& after.next_token == before.next_token
    &&& after.entries == if present(before.entries, identity) {
        before.entries.remove(identity.key)
    } else {
        before.entries
    }
}

/// Whether the gauges `after` are those `before`, but for that of pending
/// responses, which moved by `delta`, and wraps around at the word size.
pub open spec fn gauge_follows(
    before: TransportMetrics,
    after: TransportMetrics,
    delta: int,
) -> bool {
    &&& after.pending_responses as int == (before.pending_responses as int + delta) % (
    usize::MAX as int + 1)
    &&& 0 <= before.pending_responses + delta <= usize::MAX ==> after.pending_responses
        == before.pending_responses + delta
    &&& after.send_tasks == before.send_tasks
    &&& after.recv_tasks == before.recv_tasks
}

/// The token after `token`.
pub open spec fn next_of(token: u64) -> int {
    if token == u64::MAX {
        0
    } else {
        token + 1
    }
}

/// Whether the channel takes messages.
pub open spec fn is_open(channel: ChannelView) -> bool {
    !channel.closed && channel.connection.state == ConnectionState::Healthy
}

/// Whether `after` is the channel `before` after its connection was given up.
pub open spec fn given_up(before: ChannelView, after: ChannelView) -> bool {
    &&& after.closed
    &&& after.connection.state == ConnectionState::Closed
    &&& after.connection.connection_id == before.connection.connection_id
    &&& after.shutdown_started == before.shutdown_started
}

/// Whether `after` is the channel `before` after a shutdown.
pub open spec fn was_shut_down(before: ChannelView, after: ChannelView) -> bool {
    if before.shutdown_started {
        after == before
    } else {
        &&& after.shutdown_started
        &&& after.closed
        &&& after.connection.state == ConnectionState::Closed
        &&& after.connection.connection_id == before.connection.connection_id
    }
}

/// Whether `action` is that of a shutdown of `channel` with `entries` pending:
/// the first shutdown tells every waiter of the connection that it is closed.
pub open spec fn shutdown_tells(
    channel: ChannelView,
    entries: Map<(Seq<char>, i32), PendingEntry>,
    action: ShutdownAction,
) -> bool {
    &&& action is AlreadyStarted <==> channel.shutdown_started
    &&& action matches ShutdownAction::Close { failed } ==> all_told(
        failed@,
        entries,
        channel.connection.connection_id,
        "connection closed"@,
    )
}

/// Whether `error` reports, in `style`, that the channel failed for `reason`.
pub open spec fn reports_failure(
    error: RocketMQError,
    style: SendStyle,
    reason: Seq<char>,
) -> bool {
    let words = "Connection failed to "@ + "channel"@ + ": "@ + reason;
    match style {
        SendStyle::Plain => is_network(error, "channel"@, reason),
        SendStyle::Oneway => is_network(error, "channel"@, "send oneway failed: "@ + words),
        SendStyle::Request => is_network(error, "channel"@, "send failed: "@ + words),
        SendStyle::Remote => is_remote(error, words),
    }
}

/// Whether `error` reports, in `style`, that the queue took longer than `timeout_ms`.
pub open spec fn reports_timeout(error: RocketMQError, style: SendStyle, timeout_ms: u64) -> bool {
    exists|digits: Seq<char>|
        #![trigger writes_number(digits, timeout_ms as nat)]
        writes_number(digits, timeout_ms as nat) && {
            let words = "send_queue"@ + " timed out after "@ + digits + "ms"@;
            match style {
                SendStyle::Plain => is_timeout(error, "send_queue"@, timeout_ms),
                SendStyle::Oneway => is_network(error, "channel"@, "send oneway failed: "@ + words),
                SendStyle::Request => is_network(error, "channel"@, "send failed: "@ + words),
                SendStyle::Remote => is_remote(error, words),
            }
        }
}

/// The instant `timeout_millis` milliseconds after `now`, in nanoseconds.
pub open spec fn due(now: u64, timeout_millis: u64) -> int {
    now + 1_000_000 * timeout_millis
}

// How these come out of the contracts.

pub(crate) proof fn lemma_gauge(before: TransportMetrics, delta: int)
    ensures
        gauge_follows(before, before.pending_moved(delta), delta),
{
    let size = usize::MAX as int + 1;
    let moved = before.pending_responses as int + delta;
    vstd::arithmetic::div_mod::lemma_mod_bound(moved, size);
    if 0 <= moved <= usize::MAX {
        vstd::arithmetic::div_mod::lemma_small_mod(moved as nat, size as nat);
    }
}

pub(crate) proof fn lemma_told(
    completions: Seq<Completion>,
    table: PendingTable,
    connection_id: Seq<char>,
    reason: Seq<char>,
)
    requires
        crate::base::pending_responses::fail_each(
            completions,
            table.of_connection(connection_id),
            crate::base::pending_responses::remoting_failure(reason),
        ),
    ensures
        all_told(completions, table.entries, connection_id, reason),
{
    let requests = table.of_connection(connection_id);
    let error = crate::base::pending_responses::remoting_failure(reason);
    let keys = choose|keys: Seq<(Seq<char>, i32)>|
        #![trigger crate::base::pending_responses::fail_in_order(
            completions,
            requests,
            error,
            keys,
        )]
        keys.no_duplicates() && keys.to_set() == requests.dom()
            && crate::base::pending_responses::fail_in_order(completions, requests, error, keys);
    keys.unique_seq_to_set();
    assert(requests.dom() =~= keys_on(table.entries, connection_id));
    assert forall|i: int| 0 <= i < completions.len() implies {
        &&& table.entries.contains_key(keys[i])
        &&& keys[i].0 == connection_id
        &&& told_failure(#[trigger] completions[i], table.entries[keys[i]].future, reason)
    } by {
        assert(keys.to_set().contains(keys[i]));
        assert(requests.contains_key(keys[i]));
        assert(completions[i].fails(requests[keys[i]].future.tx, error));
    }
    assert forall|key: (Seq<char>, i32)| #[trigger]
        keys_on(table.entries, connection_id).contains(key) implies one_tells(
        completions,
        table.entries[key].future,
        reason,
    ) by {
        assert(keys.to_set().contains(key));
        let i = keys.index_of(key);
        assert(told_failure(completions[i], table.entries[keys[i]].future, reason));
    }
    assert forall|i: int| 0 <= i < completions.len() implies goes_to_one(
        #[trigger] completions[i],
        table.entries,
        connection_id,
        reason,
    ) by {
        assert(told_failure(completions[i], table.entries[keys[i]].future, reason));
        assert(table.entries.contains_key(keys[i]));
    }
    assert(completions.len() == keys_on(table.entries, connection_id).len());
}

pub(crate) proof fn lemma_decimal(number: nat)
    ensures
        writes_number(crate::error::decimal(number), number),
    decreases number,
{
    let digits = crate::error::decimal(number);
    let last = (('0' as u32 + number % 10) as u32) as char;
    assert(last as int == '0' as int + number % 10);
    if number < 10 {
        assert(digits =~= seq![last]);
        assert(digits.drop_last() =~= Seq::empty());
        reveal_with_fuel(number_of, 2);
    } else {
        lemma_decimal(number / 10);
        assert(digits.drop_last() =~= crate::error::decimal(number / 10));
    }
}

pub(crate) proof fn lemma_gauges()
    ensures
        forall|metrics: TransportMetrics, delta: int|
            gauge_follows(metrics, #[trigger] metrics.pending_moved(delta), delta),
{
    assert forall|metrics: TransportMetrics, delta: int|
        gauge_follows(metrics, #[trigger] metrics.pending_moved(delta), delta) by {
        lemma_gauge(metrics, delta);
    }
}

pub(crate) proof fn lemma_tellings()
    ensures
        forall|
            completions: Seq<Completion>,
            table: PendingTable,
            connection_id: Seq<char>,
            reason: Seq<char>,
        | #[trigger]
            crate::base::pending_responses::fail_each(
                completions,
                table.of_connection(connection_id),
                crate::base::pending_responses::remoting_failure(reason),
            ) ==> all_told(completions, table.entries, connection_id, reason),
{
    assert forall|
        completions: Seq<Completion>,
        table: PendingTable,
        connection_id: Seq<char>,
        reason: Seq<char>,
    | #[trigger]
        crate::base::pending_responses::fail_each(
            completions,
            table.of_connection(connection_id),
            crate::base::pending_responses::remoting_failure(reason),
        ) implies all_told(completions, table.entries, connection_id, reason) by {
        lemma_told(completions, table, connection_id, reason);
    }
}

pub(crate) proof fn lemma_decimals()
    ensures
        forall|number: nat| writes_number(#[trigger] crate::error::decimal(number), number),
{
    assert forall|number: nat| writes_number(#[trigger] crate::error::decimal(number), number) by {
        lemma_decimal(number);
    }
}

} // verus!
