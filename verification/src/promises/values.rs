//! What the values of the transport promise: gauges, deadlines, errors,
//! commands and connections.

use vstd::prelude::*;

use crate::connection::{Connection, ConnectionState};
use crate::error::{NetworkError, RocketMQError};
use crate::metrics::{TaskGuard, TaskKind, TransportCounters, TransportMetrics};
use crate::protocol::RemotingCommand;

verus! {

/// Gauges start at zero, are read as they stand, and count one up or down. Each
/// of them counts what it is for, and leaves the others alone.
pub proof fn law_gauges_count()
    ensures
        forall|counters: TransportCounters| #[trigger]
            call_ensures(TransportCounters::new, (), counters) ==> {
                &&& counters@.pending_responses == 0
                &&& counters@.send_tasks == 0
                &&& counters@.recv_tasks == 0
            },
        forall|metrics: TransportMetrics| #[trigger]
            call_ensures(TransportMetrics::default, (), metrics) ==> {
                &&& metrics.pending_responses == 0
                &&& metrics.send_tasks == 0
                &&& metrics.recv_tasks == 0
            },
        forall|counters: &TransportCounters, metrics: TransportMetrics| #[trigger]
            call_ensures(crate::metrics::snapshot, (counters,), metrics) ==> {
                &&& metrics.pending_responses == counters@.pending_responses
                &&& metrics.send_tasks == counters@.send_tasks
                &&& metrics.recv_tasks == counters@.recv_tasks
            },
        forall|counters: &mut TransportCounters| #[trigger]
            call_ensures(crate::metrics::pending_registered, (counters,), ()) ==> {
                &&& counts_up(counters@.pending_responses, final(counters)@.pending_responses)
                &&& final(counters)@.send_tasks == counters@.send_tasks
                &&& final(counters)@.recv_tasks == counters@.recv_tasks
            },
        forall|counters: &mut TransportCounters| #[trigger]
            call_ensures(crate::metrics::pending_removed, (counters,), ()) ==> {
                &&& counts_up(final(counters)@.pending_responses, counters@.pending_responses)
                &&& final(counters)@.send_tasks == counters@.send_tasks
                &&& final(counters)@.recv_tasks == counters@.recv_tasks
            },
        forall|counters: &mut TransportCounters, guard: TaskGuard| #[trigger]
            call_ensures(crate::metrics::send_task_started, (counters,), guard) ==> {
                &&& guard@ == TaskKind::Send
                &&& counts_up(counters@.send_tasks, final(counters)@.send_tasks)
                &&& final(counters)@.pending_responses == counters@.pending_responses
                &&& final(counters)@.recv_tasks == counters@.recv_tasks
            },
        forall|counters: &mut TransportCounters, guard: TaskGuard| #[trigger]
            call_ensures(crate::metrics::recv_task_started, (counters,), guard) ==> {
                &&& guard@ == TaskKind::Receive
                &&& counts_up(counters@.recv_tasks, final(counters)@.recv_tasks)
                &&& final(counters)@.pending_responses == counters@.pending_responses
                &&& final(counters)@.send_tasks == counters@.send_tasks
            },
        forall|guard: TaskGuard, counters: &mut TransportCounters| #[trigger]
            call_ensures(TaskGuard::finish, (guard, counters), ()) ==> {
                &&& final(counters)@.pending_responses == counters@.pending_responses
                &&& if guard@ == TaskKind::Send {
                    &&& counts_up(final(counters)@.send_tasks, counters@.send_tasks)
                    &&& final(counters)@.recv_tasks == counters@.recv_tasks
                } else {
                    &&& counts_up(final(counters)@.recv_tasks, counters@.recv_tasks)
                    &&& final(counters)@.send_tasks == counters@.send_tasks
                }
            },
{
    assert forall|value: usize| true implies {
        &&& counts_up(value, #[trigger] crate::metrics::gauge_moved(value, 1))
        &&& counts_up(crate::metrics::gauge_moved(value, -1), value)
    } by {
        lemma_step(value);
    }
    assert forall|value: usize| true implies counts_up(
        #[trigger] crate::metrics::gauge_moved(value, -1),
        value,
    ) by {
        lemma_step(value);
    }
}

/// Whether `after` is one more than `before`. Gauges wrap around.
pub open spec fn counts_up(before: usize, after: usize) -> bool {
    if before == usize::MAX {
        after == 0
    } else {
        after == before + 1
    }
}

proof fn lemma_step(value: usize)
    ensures
        counts_up(value, crate::metrics::gauge_moved(value, 1)),
        counts_up(crate::metrics::gauge_moved(value, -1), value),
{
    let size = usize::MAX as int + 1;
    if value < usize::MAX {
        vstd::arithmetic::div_mod::lemma_small_mod((value + 1) as nat, size as nat);
    } else {
        vstd::arithmetic::div_mod::lemma_mod_self_0(size);
    }
    if value > 0 {
        vstd::arithmetic::div_mod::lemma_small_mod((value - 1) as nat, size as nat);
    } else {
        vstd::arithmetic::div_mod::lemma_mod_add_multiples_vanish(-1, size);
        vstd::arithmetic::div_mod::lemma_small_mod((size - 1) as nat, size as nat);
    }
}

/// A deadline lies a thousand thousand nanoseconds after `now` for each
/// millisecond, and has come from that instant on.
pub proof fn law_deadlines(now: u64, timeout_millis: u64, deadline: u128, expired: bool)
    ensures
        call_ensures(crate::time::deadline_after, (now, timeout_millis), deadline) ==> deadline
            == now + 1_000_000 * timeout_millis,
        call_ensures(crate::time::has_expired, (deadline, now), expired) ==> (expired <==> now
            >= deadline),
{
}

/// Errors say what they were made with, and their text says it in words.
pub proof fn law_errors(
    addr: &str,
    reason: &str,
    message: &str,
    made: RocketMQError,
    error: &RocketMQError,
    text: String,
)
    ensures
        call_ensures(RocketMQError::network_connection_failed, (addr, reason), made)
            ==> crate::promises::is_network(made, addr@, reason@),
        call_ensures(crate::error::remote_error, (message,), made) ==> crate::promises::is_remote(
            made,
            message@,
        ),
        call_ensures(crate::error::io_error, (message,), made) ==> crate::promises::is_io(
            made,
            message@,
        ),
        call_ensures(RocketMQError::text, (error,), text) ==> crate::promises::is_text_of(
            text@,
            *error,
        ),
{
    lemma_text(*error);
}

pub(crate) proof fn lemma_text(error: RocketMQError)
    ensures
        crate::promises::is_text_of(error@.text(), error),
{
    crate::promises::lemma_decimal(0);
    match error {
        RocketMQError::Timeout { operation, timeout_ms } => {
            crate::promises::lemma_decimal(timeout_ms as nat);
            let digits = crate::error::decimal(timeout_ms as nat);
            assert(error@.text() == crate::promises::error_words(error, digits));
        },
        _ => {
            let digits = crate::error::decimal(0);
            assert(error@.text() == crate::promises::error_words(error, digits));
        },
    }
}

/// The view of an error says what the error says, and the view of a result is
/// the result.
pub proof fn law_views_are_faithful<T>(
    error: RocketMQError,
    value: T,
    result: Result<T, RocketMQError>,
)
    ensures
        error@ matches crate::error::ErrorView::Network { addr, reason }
            ==> crate::promises::is_network(error, addr, reason),
        error@ matches crate::error::ErrorView::IO(message) ==> crate::promises::is_io(
            error,
            message,
        ),
        error@ matches crate::error::ErrorView::Timeout { operation, timeout_ms }
            ==> crate::promises::is_timeout(error, operation, timeout_ms),
        error@ matches crate::error::ErrorView::Remote(message) ==> crate::promises::is_remote(
            error,
            message,
        ),
        error@ matches crate::error::ErrorView::Other(message) ==> (error matches
            RocketMQError::Other(m) && m@ == message),
        crate::error::result_view(result) is Ok <==> result is Ok,
        result matches Ok(v) ==> crate::error::result_view(result) == Ok::<
            T,
            crate::error::ErrorView,
        >(v),
        result matches Err(e) ==> crate::error::result_view(result) == Err::<
            T,
            crate::error::ErrorView,
        >(e@),
{
}

/// A command gives its number, and marking it as one-way changes nothing else of it.
pub proof fn law_commands(command: RemotingCommand, opaque: i32, marked: RemotingCommand)
    ensures
        call_ensures(RemotingCommand::opaque, (&command,), opaque) ==> opaque == command.opaque,
        call_ensures(RemotingCommand::mark_oneway_rpc, (command,), marked) ==> {
            &&& marked.oneway
            &&& marked.code == command.code
            &&& marked.opaque == command.opaque
            &&& marked.body == command.body
        },
{
}

/// A new connection works. Failures degrade it, closing closes it for good, and
/// nothing changes its name.
pub proof fn law_connections()
    ensures
        forall|name: String, connection: Connection| #[trigger]
            call_ensures(Connection::new, (name,), connection) ==> {
                &&& connection@.connection_id == name@
                &&& connection@.state == ConnectionState::Healthy
            },
        forall|connection: &Connection, name: &str| #[trigger]
            call_ensures(Connection::connection_id, (connection,), name) ==> name@
                == connection@.connection_id,
        forall|connection: &Connection, state: ConnectionState| #[trigger]
            call_ensures(Connection::state, (connection,), state) ==> state == connection@.state,
        forall|connection: &Connection, healthy: bool| #[trigger]
            call_ensures(Connection::is_healthy, (connection,), healthy) ==> (healthy
                <==> connection@.state == ConnectionState::Healthy),
        forall|connection: &mut Connection| #[trigger]
            call_ensures(Connection::mark_degraded, (connection,), ()) ==> {
                &&& final(connection)@.connection_id == connection@.connection_id
                &&& final(connection)@.state != ConnectionState::Healthy
                &&& final(connection)@.state == ConnectionState::Closed <==> connection@.state
                    == ConnectionState::Closed
            },
        forall|connection: &mut Connection| #[trigger]
            call_ensures(Connection::close, (connection,), ()) ==> {
                &&& final(connection)@.connection_id == connection@.connection_id
                &&& final(connection)@.state == ConnectionState::Closed
            },
{
}

} // verus!
