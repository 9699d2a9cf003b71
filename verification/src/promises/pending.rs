//! What the table of pending requests promises.

use vstd::prelude::*;

use crate::base::pending_responses::{
    PendingEntry, PendingIdentity, PendingRegistration, PendingRequest, PendingResponses,
};
use crate::base::response_future::{Completion, ResponseFuture};
use crate::error::RocketMQResult;
use crate::metrics::TransportCounters;
use crate::protocol::RemotingCommand;
use tokio::sync::oneshot::Sender;

verus! {

/// A new table is empty, whatever room was asked for, and counts what it holds.
pub proof fn law_new_table_is_empty(
    capacity: usize,
    table: PendingResponses,
    any: &PendingResponses,
    len: usize,
    empty: bool,
)
    ensures
        call_ensures(PendingResponses::with_capacity, (capacity,), table) ==> {
            &&& forall|key: (Seq<char>, i32)| !#[trigger] table@.entries.contains_key(key)
            &&& table@.next_token == 1
            &&& table.wf()
        },
        call_ensures(PendingResponses::len, (any,), len) ==> len == any@.entries.len(),
        call_ensures(PendingResponses::is_empty, (any,), empty) ==> (empty <==> forall|
            key: (Seq<char>, i32),
        |
            !#[trigger] any@.entries.contains_key(key)),
        call_ensures(PendingResponses::is_empty, (any,), empty) && call_ensures(
            PendingResponses::len,
            (any,),
            len,
        ) ==> (empty <==> len == 0),
{
    if call_ensures(PendingResponses::is_empty, (any,), empty) {
        if forall|key: (Seq<char>, i32)| !#[trigger] any@.entries.contains_key(key) {
            assert(any@.entries =~= Map::empty());
        }
    }
}

/// Registering adds the waiter under its connection and its number, where
/// nothing is pending there, and hands it back otherwise. Everything else stays.
/// Each attempt uses a token up.
pub proof fn law_register()
    ensures
        forall|
            table: &mut PendingResponses,
            connection_id: &str,
            future: ResponseFuture,
            metrics: &mut TransportCounters,
            registration: Result<PendingRegistration, ResponseFuture>,
        | #[trigger]
            call_ensures(
                PendingResponses::register,
                (table, connection_id, future, metrics),
                registration,
            ) ==> {
                let key = (connection_id@, future.opaque);
                let entries = table@.entries;
                &&& registration is Ok <==> !entries.contains_key(key)
                &&& match registration {
                    Ok(registered) => {
                        &&& final(table)@.entries == entries.insert(
                            key,
                            PendingEntry { token: table@.next_token, future },
                        )
                        &&& registered@.identity.key == key
                        &&& registered@.identity.token == table@.next_token
                        &&& registered@.timeout_millis == future.timeout_millis
                    },
                    Err(refused) => refused == future && final(table)@.entries == entries,
                }
                &&& final(table)@.next_token == crate::promises::next_of(table@.next_token)
                &&& crate::promises::gauge_follows(
                    metrics@,
                    final(metrics)@,
                    final(table)@.entries.len() - entries.len(),
                )
                &&& final(table).wf()
            },
{
    crate::promises::lemma_gauges();
}

/// Taking hands out the waiter under a connection and a number, if there is
/// one, and removes it and nothing else.
pub proof fn law_take()
    ensures
        forall|
            table: &mut PendingResponses,
            connection_id: &str,
            opaque: i32,
            metrics: &mut TransportCounters,
            future: Option<ResponseFuture>,
        | #[trigger]
            call_ensures(
                PendingResponses::take,
                (table, connection_id, opaque, metrics),
                future,
            ) ==> {
                let key = (connection_id@, opaque);
                let entries = table@.entries;
                &&& future == if entries.contains_key(key) {
                    Some(entries[key].future)
                } else {
                    None
                }
                &&& final(table)@.entries == entries.remove(key)
                &&& final(table)@.next_token == table@.next_token
                &&& crate::promises::gauge_follows(
                    metrics@,
                    final(metrics)@,
                    final(table)@.entries.len() - entries.len(),
                )
                &&& final(table).wf()
            },
{
    crate::promises::lemma_gauges();
}

/// What is registered is what is taken: the waiter that was registered under a
/// connection and a number comes out under these, once.
pub proof fn law_taken_is_what_was_registered()
    ensures
        forall|
            first: &mut PendingResponses,
            second: &mut PendingResponses,
            third: &mut PendingResponses,
            connection_id: &str,
            same_id: &str,
            future: ResponseFuture,
            metrics: &mut TransportCounters,
            metrics2: &mut TransportCounters,
            metrics3: &mut TransportCounters,
            registration: Result<PendingRegistration, ResponseFuture>,
            taken: Option<ResponseFuture>,
            again: Option<ResponseFuture>,
        |
            #[trigger]
            call_ensures(
                PendingResponses::register,
                (first, connection_id, future, metrics),
                registration,
            ) && registration is Ok && *second == *final(first) && same_id@ == connection_id@
                && #[trigger] call_ensures(
                PendingResponses::take,
                (second, same_id, future.opaque, metrics2),
                taken,
            ) && *third == *final(second) && #[trigger] call_ensures(
                PendingResponses::take,
                (third, same_id, future.opaque, metrics3),
                again,
            ) ==> taken == Some(future) && again is None,
{
}

/// Whether a request is registered is whether its own entry is there.
pub proof fn law_is_registered(
    table: &PendingResponses,
    identity: &PendingIdentity,
    request: &PendingRequest,
    registered: bool,
)
    ensures
        call_ensures(PendingResponses::is_registered, (table, identity), registered) ==> (
        registered <==> crate::promises::present(table@.entries, identity@)),
        call_ensures(PendingRequest::is_registered, (request, table), registered) ==> (registered
            <==> crate::promises::present(table@.entries, request@.identity)),
{
}

/// A request is registered from its registration until it is taken.
pub proof fn law_registered_until_taken()
    ensures
        forall|
            first: &mut PendingResponses,
            second: &mut PendingResponses,
            between: &PendingResponses,
            after: &PendingResponses,
            connection_id: &str,
            future: ResponseFuture,
            metrics: &mut TransportCounters,
            metrics2: &mut TransportCounters,
            registration: Result<PendingRegistration, ResponseFuture>,
            identity: &PendingIdentity,
            taken: Option<ResponseFuture>,
            before_take: bool,
            after_take: bool,
        |
            #[trigger]
            call_ensures(
                PendingResponses::register,
                (first, connection_id, future, metrics),
                registration,
            ) && (registration matches Ok(r) && call_ensures(
                PendingRegistration::identity,
                (&r,),
                identity,
            )) && *between == *final(first) && #[trigger] call_ensures(
                PendingResponses::is_registered,
                (between, identity),
                before_take,
            ) && *second == *final(first) && #[trigger] call_ensures(
                PendingResponses::take,
                (second, connection_id, future.opaque, metrics2),
                taken,
            ) && *after == *final(second) && #[trigger] call_ensures(
                PendingResponses::is_registered,
                (after, identity),
                after_take,
            ) ==> before_take && !after_take,
{
}

/// Removing by identity hands out the waiter of that very request, if it is
/// pending, and removes it and nothing else. Releasing a registration does so.
pub proof fn law_remove_by_identity()
    ensures
        forall|
            table: &mut PendingResponses,
            identity: &PendingIdentity,
            metrics: &mut TransportCounters,
            future: Option<ResponseFuture>,
        | #[trigger]
            call_ensures(
                PendingResponses::remove_if_token_matches,
                (table, identity, metrics),
                future,
            ) ==> {
                &&& hands_out(table@.entries, identity@, future)
                &&& crate::promises::removed(table@, final(table)@, identity@)
                &&& crate::promises::gauge_follows(
                    metrics@,
                    final(metrics)@,
                    final(table)@.entries.len() - table@.entries.len(),
                )
                &&& final(table).wf()
            },
        forall|
            registration: PendingRegistration,
            table: &mut PendingResponses,
            metrics: &mut TransportCounters,
            future: Option<ResponseFuture>,
        | #[trigger]
            call_ensures(
                PendingRegistration::release,
                (registration, table, metrics),
                future,
            ) ==> {
                &&& hands_out(table@.entries, registration@.identity, future)
                &&& crate::promises::removed(table@, final(table)@, registration@.identity)
                &&& crate::promises::gauge_follows(
                    metrics@,
                    final(metrics)@,
                    final(table)@.entries.len() - table@.entries.len(),
                )
                &&& final(table).wf()
            },
{
    crate::promises::lemma_gauges();
}

/// Whether `future` is the waiter of the request that `identity` names, if it is pending.
pub open spec fn hands_out(
    entries: Map<(Seq<char>, i32), PendingEntry>,
    identity: crate::base::pending_responses::IdentityView,
    future: Option<ResponseFuture>,
) -> bool {
    future == if crate::promises::present(entries, identity) {
        Some(entries[identity.key].future)
    } else {
        None
    }
}

/// Whether the waiter of the request that `identity` names, if it is pending,
/// is told that the connection failed, and nobody else is told anything.
pub open spec fn fails_its_waiter(
    entries: Map<(Seq<char>, i32), PendingEntry>,
    identity: crate::base::pending_responses::IdentityView,
    completion: Option<Completion>,
    reason: Seq<char>,
) -> bool {
    match completion {
        Some(completion) => crate::promises::present(entries, identity)
            && crate::promises::told_failure(completion, entries[identity.key].future, reason),
        None => !crate::promises::present(entries, identity),
    }
}

/// Whether the waiter of the request that `identity` names, if it is pending,
/// is told that its time is over, and nobody else is told anything.
pub open spec fn times_its_waiter_out(
    entries: Map<(Seq<char>, i32), PendingEntry>,
    identity: crate::base::pending_responses::IdentityView,
    completion: Option<Completion>,
    timeout_millis: u64,
) -> bool {
    match completion {
        Some(completion) => crate::promises::present(entries, identity)
            && crate::promises::told_timeout(
            completion,
            entries[identity.key].future,
            timeout_millis,
        ),
        None => !crate::promises::present(entries, identity),
    }
}

/// Failing a request by identity removes it, if it is pending, and nothing
/// else, and its waiter is told that the connection failed, and why. A handle
/// to the request does so too.
pub proof fn law_fail_by_identity()
    ensures
        forall|
            table: &mut PendingResponses,
            identity: &PendingIdentity,
            message: &str,
            metrics: &mut TransportCounters,
            completion: Option<Completion>,
        | #[trigger]
            call_ensures(
                PendingResponses::fail_identity,
                (table, identity, message, metrics),
                completion,
            ) ==> {
                &&& fails_its_waiter(table@.entries, identity@, completion, message@)
                &&& crate::promises::removed(table@, final(table)@, identity@)
                &&& crate::promises::gauge_follows(
                    metrics@,
                    final(metrics)@,
                    final(table)@.entries.len() - table@.entries.len(),
                )
                &&& final(table).wf()
            },
        forall|
            request: &PendingRequest,
            message: &str,
            table: &mut PendingResponses,
            metrics: &mut TransportCounters,
            completion: Option<Completion>,
        | #[trigger]
            call_ensures(
                PendingRequest::fail,
                (request, message, table, metrics),
                completion,
            ) ==> {
                &&& fails_its_waiter(table@.entries, request@.identity, completion, message@)
                &&& crate::promises::removed(table@, final(table)@, request@.identity)
                &&& crate::promises::gauge_follows(
                    metrics@,
                    final(metrics)@,
                    final(table)@.entries.len() - table@.entries.len(),
                )
                &&& final(table).wf()
            },
{
    crate::promises::lemma_gauges();
}

/// Timing a request out by identity removes it, if it is pending, and nothing
/// else, and its waiter is told how long it waited. Its registration and a
/// handle to it do so too.
pub proof fn law_timeout_by_identity()
    ensures
        forall|
            table: &mut PendingResponses,
            identity: &PendingIdentity,
            timeout_millis: u64,
            metrics: &mut TransportCounters,
            completion: Option<Completion>,
        | #[trigger]
            call_ensures(
                PendingResponses::timeout_identity,
                (table, identity, timeout_millis, metrics),
                completion,
            ) ==> {
                &&& times_its_waiter_out(table@.entries, identity@, completion, timeout_millis)
                &&& crate::promises::removed(table@, final(table)@, identity@)
                &&& crate::promises::gauge_follows(
                    metrics@,
                    final(metrics)@,
                    final(table)@.entries.len() - table@.entries.len(),
                )
                &&& final(table).wf()
            },
        forall|
            registration: &PendingRegistration,
            timeout_millis: u64,
            table: &mut PendingResponses,
            metrics: &mut TransportCounters,
            completion: Option<Completion>,
        | #[trigger]
            call_ensures(
                PendingRegistration::timeout,
                (registration, timeout_millis, table, metrics),
                completion,
            ) ==> {
                &&& times_its_waiter_out(
                    table@.entries,
                    registration@.identity,
                    completion,
                    timeout_millis,
                )
                &&& crate::promises::removed(table@, final(table)@, registration@.identity)
                &&& crate::promises::gauge_follows(
                    metrics@,
                    final(metrics)@,
                    final(table)@.entries.len() - table@.entries.len(),
                )
                &&& final(table).wf()
            },
        forall|
            request: &PendingRequest,
            timeout_millis: u64,
            table: &mut PendingResponses,
            metrics: &mut TransportCounters,
            completion: Option<Completion>,
        | #[trigger]
            call_ensures(
                PendingRequest::timeout,
                (request, timeout_millis, table, metrics),
                completion,
            ) ==> {
                &&& times_its_waiter_out(
                    table@.entries,
                    request@.identity,
                    completion,
                    timeout_millis,
                )
                &&& crate::promises::removed(table@, final(table)@, request@.identity)
                &&& crate::promises::gauge_follows(
                    metrics@,
                    final(metrics)@,
                    final(table)@.entries.len() - table@.entries.len(),
                )
                &&& final(table).wf()
            },
{
    crate::promises::lemma_gauges();
}

/// Failing a connection removes everything on it and nothing else, and tells
/// every waiter on it, and nobody else, that the connection failed, and why.
pub proof fn law_fail_connection()
    ensures
        forall|
            table: &mut PendingResponses,
            connection_id: &str,
            message: &str,
            metrics: &mut TransportCounters,
            completions: Vec<Completion>,
        | #[trigger]
            call_ensures(
                PendingResponses::fail_connection,
                (table, connection_id, message, metrics),
                completions,
            ) ==> {
                &&& crate::promises::all_told(
                    completions@,
                    table@.entries,
                    connection_id@,
                    message@,
                )
                &&& crate::promises::cleared_of(
                    table@.entries,
                    final(table)@.entries,
                    connection_id@,
                )
                &&& final(table)@.next_token == table@.next_token
                &&& crate::promises::gauge_follows(
                    metrics@,
                    final(metrics)@,
                    final(table)@.entries.len() - table@.entries.len(),
                )
                &&& final(table).wf()
            },
{
    crate::promises::lemma_gauges();
    crate::promises::lemma_tellings();
}

/// A registration, its identity, and handles to it and their copies refer to
/// the same request.
pub proof fn law_handles(
    registration: &PendingRegistration,
    identity: &PendingIdentity,
    request: PendingRequest,
    any: &PendingRequest,
    timeout_millis: u64,
    copy: PendingRequest,
    named: &PendingIdentity,
    named_copy: PendingIdentity,
)
    ensures
        call_ensures(PendingRegistration::identity, (registration,), identity) ==> {
            &&& identity@.key == registration@.identity.key
            &&& identity@.token == registration@.identity.token
        },
        call_ensures(PendingRegistration::request, (registration,), request) ==> {
            &&& request@.identity == registration@.identity
            &&& request@.timeout_millis == registration@.timeout_millis
        },
        call_ensures(PendingRequest::timeout_millis, (any,), timeout_millis) ==> timeout_millis
            == any@.timeout_millis,
        call_ensures(PendingRequest::clone, (any,), copy) ==> copy@ == any@,
        call_ensures(PendingIdentity::clone, (named,), named_copy) ==> named_copy@ == named@,
{
}

/// A waiter holds what it was made with, is completed where it waits, and with
/// the given outcome, and that outcome is what is sent there.
pub proof fn law_waiters(
    opaque: i32,
    timeout_millis: u64,
    send_request_ok: bool,
    tx: Sender<RocketMQResult<RemotingCommand>>,
    made: ResponseFuture,
    future: ResponseFuture,
    outcome: RocketMQResult<RemotingCommand>,
    completion: Completion,
    delivered: Result<(), RocketMQResult<RemotingCommand>>,
)
    ensures
        call_ensures(ResponseFuture::new, (opaque, timeout_millis, send_request_ok, tx), made)
            ==> {
            &&& made.opaque == opaque
            &&& made.timeout_millis == timeout_millis
            &&& made.send_request_ok == send_request_ok
            &&& made.tx == tx
        },
        call_ensures(ResponseFuture::complete, (future, outcome), completion) ==> {
            &&& completion.tx == future.tx
            &&& completion.outcome == outcome
        },
        call_ensures(Completion::deliver, (completion,), delivered) ==> {
            &&& call_ensures(
                Sender::<RocketMQResult<RemotingCommand>>::send,
                (completion.tx, completion.outcome),
                delivered,
            )
            &&& delivered matches Err(unsent) ==> unsent == completion.outcome
        },
{
}

} // verus!
