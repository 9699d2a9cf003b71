//! The table of requests that wait for a response.

use vstd::prelude::*;

use crate::base::response_future::{Completion, ResponseFuture};
use crate::error::{ErrorView, RocketMQError};
use crate::metrics::{pending_registered, pending_removed, TransportCounters};

verus! {

/// What a pending request is found by: its connection and its number there.
pub struct PendingKey {
    connection_id: String,
    opaque: i32,
}

impl View for PendingKey {
    type V = (Seq<char>, i32);

    closed spec fn view(&self) -> (Seq<char>, i32) {
        (self.connection_id@, self.opaque)
    }
}

impl Clone for PendingKey {
    fn clone(&self) -> (key: Self)
        ensures
            key@ == self@,
    {
        PendingKey { connection_id: self.connection_id.clone(), opaque: self.opaque }
    }
}

impl PendingKey {
    fn new(connection_id: &str, opaque: i32) -> (key: Self)
        ensures
            key@ == (connection_id@, opaque),
    {
        PendingKey { connection_id: connection_id.to_owned(), opaque }
    }

    fn same(&self, other: &PendingKey) -> (same: bool)
        ensures
            same == (self@ == other@),
    {
        self.opaque == other.opaque && self.connection_id == other.connection_id
    }
}

/// A pending request: its waiter, and the token that tells it from every
/// other registration under the same key.
pub struct PendingEntry {
    pub token: u64,
    pub future: ResponseFuture,
}

/// Identity of one pending request. It is local bookkeeping and is never sent on the wire.
pub struct PendingIdentity {
    key: PendingKey,
    token: u64,
}

/// What a [`PendingIdentity`] names.
pub struct IdentityView {
    pub key: (Seq<char>, i32),
    pub token: u64,
}

impl View for PendingIdentity {
    type V = IdentityView;

    closed spec fn view(&self) -> IdentityView {
        IdentityView { key: self.key@, token: self.token }
    }
}

impl Clone for PendingIdentity {
    fn clone(&self) -> (identity: Self)
        ensures
            identity@ == self@,
    {
        PendingIdentity { key: self.key.clone(), token: self.token }
    }
}

/// The token that follows `token`. Tokens wrap around after the last machine word.
pub open spec fn token_after(token: u64) -> u64 {
    if token == u64::MAX {
        0
    } else {
        (token + 1) as u64
    }
}

/// The requests that wait for a response, and the token of the next registration.
#[verifier::ext_equal]
pub struct PendingTable {
    pub entries: Map<(Seq<char>, i32), PendingEntry>,
    pub next_token: u64,
}

impl PendingTable {
    /// Whether a request is pending under `key`.
    pub open spec fn is_pending(self, key: (Seq<char>, i32)) -> bool {
        self.entries.contains_key(key)
    }

    /// Whether the very request that `identity` names is pending.
    pub open spec fn holds(self, identity: IdentityView) -> bool {
        self.is_pending(identity.key) && self.entries[identity.key].token == identity.token
    }

    /// The table after an attempt to register `future` under `key`.
    /// A key that is taken keeps its request. The token is used up either way.
    pub open spec fn registered(self, key: (Seq<char>, i32), future: ResponseFuture) -> Self {
        PendingTable {
            entries: if self.is_pending(key) {
                self.entries
            } else {
                self.entries.insert(key, PendingEntry { token: self.next_token, future })
            },
            next_token: token_after(self.next_token),
        }
    }

    /// The table without what is pending under `key`.
    pub open spec fn without(self, key: (Seq<char>, i32)) -> Self {
        PendingTable { entries: self.entries.remove(key), next_token: self.next_token }
    }

    /// The table after the request that `identity` names was withdrawn.
    pub open spec fn withdrawn(self, identity: IdentityView) -> Self {
        if self.holds(identity) {
            self.without(identity.key)
        } else {
            self
        }
    }

    /// The waiter of the request that `identity` names, while it is pending.
    pub open spec fn waiter(self, identity: IdentityView) -> Option<ResponseFuture> {
        if self.holds(identity) {
            Some(self.entries[identity.key].future)
        } else {
            None
        }
    }

    /// What is pending on the connection `connection_id`.
    pub open spec fn of_connection(self, connection_id: Seq<char>) -> Map<
        (Seq<char>, i32),
        PendingEntry,
    > {
        self.entries.restrict(Set::new(|key: (Seq<char>, i32)| key.0 == connection_id))
    }

    /// The table without what is pending on the connection `connection_id`.
    pub open spec fn without_connection(self, connection_id: Seq<char>) -> Self {
        PendingTable {
            entries: self.entries.remove_keys(
                Set::new(|key: (Seq<char>, i32)| key.0 == connection_id),
            ),
            next_token: self.next_token,
        }
    }
}

/// Whether `completions[i]` tells the waiter of `requests[keys[i]]`, for every
/// `i`, that its request failed with `error`.
pub open spec fn fail_in_order(
    completions: Seq<Completion>,
    requests: Map<(Seq<char>, i32), PendingEntry>,
    error: ErrorView,
    keys: Seq<(Seq<char>, i32)>,
) -> bool {
    &&& keys.len() == completions.len()
    &&& forall|i: int|
        0 <= i < completions.len() ==> (#[trigger] completions[i]).fails(
            requests[keys[i]].future.tx,
            error,
        )
}

/// Whether `completions` tells the waiter of each of `requests`, each exactly
/// once and in some order, that its request failed with `error`.
pub open spec fn fail_each(
    completions: Seq<Completion>,
    requests: Map<(Seq<char>, i32), PendingEntry>,
    error: ErrorView,
) -> bool {
    exists|keys: Seq<(Seq<char>, i32)>|
        #![trigger fail_in_order(completions, requests, error, keys)]
        keys.no_duplicates() && keys.to_set() == requests.dom() && fail_in_order(
            completions,
            requests,
            error,
            keys,
        )
}

/// What the waiter of a withdrawn request is told when its connection failed.
pub open spec fn remoting_failure(message: Seq<char>) -> ErrorView {
    ErrorView::Network { addr: "remoting"@, reason: message }
}

/// What the waiter of a withdrawn request is told when its time is over. The
/// name of the operation is this library's own.
pub open spec fn remoting_timeout(timeout_millis: u64) -> ErrorView {
    ErrorView::Timeout { operation: "remoting"@, timeout_ms: timeout_millis }
}

/// Whether `completion` tells `waiter`, if there is one, that its request
/// failed with `error`, and is absent otherwise.
pub open spec fn fail_waiter(
    completion: Option<Completion>,
    waiter: Option<ResponseFuture>,
    error: ErrorView,
) -> bool {
    match waiter {
        Some(future) => completion is Some && completion->0.fails(future.tx, error),
        None => completion is None,
    }
}

/// A key with what is pending under it.
struct PendingSlot {
    key: PendingKey,
    entry: PendingEntry,
}

/// The owner of the response waiters that the tasks of a transport share.
pub struct PendingResponses {
    slots: Vec<PendingSlot>,
    next_token: u64,
}

/// The keys of `slots`, in order.
spec fn slot_keys(slots: Seq<PendingSlot>) -> Seq<(Seq<char>, i32)> {
    slots.map_values(|slot: PendingSlot| slot.key@)
}

/// What is pending in `slots`.
spec fn slot_entries(slots: Seq<PendingSlot>) -> Map<(Seq<char>, i32), PendingEntry> {
    Map::new(
        |key: (Seq<char>, i32)| slot_keys(slots).contains(key),
        |key: (Seq<char>, i32)| slots[slot_keys(slots).index_of(key)].entry,
    )
}

proof fn lemma_slot_lookup(slots: Seq<PendingSlot>, i: int)
    requires
        slot_keys(slots).no_duplicates(),
        0 <= i < slots.len(),
    ensures
        slot_entries(slots).contains_key(slots[i].key@),
        slot_entries(slots)[slots[i].key@] == slots[i].entry,
{
    let keys = slot_keys(slots);
    assert(keys[i] == slots[i].key@);
    assert(keys.contains(slots[i].key@));
    let found = keys.index_of(slots[i].key@);
    assert(keys[found] == keys[i]);
    assert(found == i);
}

proof fn lemma_slot_push(slots: Seq<PendingSlot>, slot: PendingSlot)
    requires
        slot_keys(slots).no_duplicates(),
        !slot_keys(slots).contains(slot.key@),
    ensures
        slot_keys(slots.push(slot)).no_duplicates(),
        slot_entries(slots.push(slot)) == slot_entries(slots).insert(slot.key@, slot.entry),
{
    let more = slots.push(slot);
    assert(slot_keys(more) == slot_keys(slots).push(slot.key@));
    assert(slot_keys(more).no_duplicates());
    let expected = slot_entries(slots).insert(slot.key@, slot.entry);
    assert forall|key: (Seq<char>, i32)|
        #![trigger slot_entries(more).dom().contains(key)]
        #![trigger expected.dom().contains(key)]
        slot_entries(more).dom().contains(key) == expected.dom().contains(key) && (
        expected.dom().contains(key) ==> slot_entries(more)[key] == expected[key]) by {
        if slot_keys(slots).contains(key) {
            let i = slot_keys(slots).index_of(key);
            lemma_slot_lookup(slots, i);
            lemma_slot_lookup(more, i);
            assert(more[i] == slots[i]);
        } else if key == slot.key@ {
            lemma_slot_lookup(more, slots.len() as int);
        } else {
            assert(!slot_keys(more).contains(key));
        }
    }
    assert(slot_entries(more) =~= expected);
}

proof fn lemma_slot_swap_remove(slots: Seq<PendingSlot>, i: int)
    requires
        slot_keys(slots).no_duplicates(),
        0 <= i < slots.len(),
    ensures
        slot_keys(slots.update(i, slots.last()).drop_last()).no_duplicates(),
        slot_entries(slots.update(i, slots.last()).drop_last()) == slot_entries(slots).remove(
            slots[i].key@,
        ),
{
    let fewer = slots.update(i, slots.last()).drop_last();
    let last = slots.len() - 1;
    let keys = slot_keys(slots);
    let kept = slot_keys(fewer);
    assert forall|j: int| 0 <= j < fewer.len() implies kept[j] == (if j == i {
        keys[last]
    } else {
        keys[j]
    }) by {}
    assert(kept.no_duplicates());
    let expected = slot_entries(slots).remove(slots[i].key@);
    assert(keys[i] == slots[i].key@);
    assert forall|key: (Seq<char>, i32)|
        #![trigger slot_entries(fewer).dom().contains(key)]
        #![trigger expected.dom().contains(key)]
        slot_entries(fewer).dom().contains(key) == expected.dom().contains(key) && (
        expected.dom().contains(key) ==> slot_entries(fewer)[key] == expected[key]) by {
        if keys.contains(key) {
            let j = keys.index_of(key);
            lemma_slot_lookup(slots, j);
            if j == i {
                assert(key == slots[i].key@);
                if kept.contains(key) {
                    let m = kept.index_of(key);
                    assert(kept[m] == keys[i]);
                    assert(false);
                }
            } else if j == last {
                lemma_slot_lookup(fewer, i);
            } else {
                lemma_slot_lookup(fewer, j);
            }
        } else if kept.contains(key) {
            let m = kept.index_of(key);
            assert(keys.contains(kept[m]));
        }
    }
    assert(slot_entries(fewer) =~= expected);
}

proof fn lemma_slot_count(slots: Seq<PendingSlot>)
    requires
        slot_keys(slots).no_duplicates(),
    ensures
        slot_entries(slots).dom().finite(),
        slot_entries(slots).len() == slots.len(),
{
    assert(slot_entries(slots).dom() =~= slot_keys(slots).to_set());
    slot_keys(slots).unique_seq_to_set();
    vstd::seq_lib::seq_to_set_is_finite(slot_keys(slots));
}

impl View for PendingResponses {
    type V = PendingTable;

    closed spec fn view(&self) -> PendingTable {
        PendingTable { entries: slot_entries(self.slots@), next_token: self.next_token }
    }
}

impl PendingResponses {
    /// Nothing is pending twice under one key, and what is pending under a key
    /// waits for the number of that key.
    pub closed spec fn wf(&self) -> bool {
        &&& slot_keys(self.slots@).no_duplicates()
        &&& forall|i: int|
            0 <= i < self.slots@.len() ==> (#[trigger] self.slots@[i]).key.opaque
                == self.slots@[i].entry.future.opaque
    }

    /// An empty table. Room for `capacity` requests is set aside as far as
    /// memory allows, which shows in no result.
    pub fn with_capacity(capacity: usize) -> (table: Self)
        ensures
            table.wf(),
            table@ == (PendingTable { entries: Map::empty(), next_token: 1 }),
    {
        let mut slots: Vec<PendingSlot> = Vec::new();
        let _ = slots.try_reserve(capacity);
        assert(slot_entries(slots@) =~= Map::empty());
        PendingResponses { slots, next_token: 1 }
    }

    /// The place of `key` in the table.
    fn position(&self, key: &PendingKey) -> (position: Option<usize>)
        requires
            self.wf(),
        ensures
            match position {
                Some(i) => i < self.slots@.len() && self.slots@[i as int].key@ == key@
                    && self@.is_pending(key@) && self@.entries[key@]
                    == self.slots@[i as int].entry,
                None => !self@.is_pending(key@) && !slot_keys(self.slots@).contains(key@),
            },
    {
        let mut i: usize = 0;
        while i < self.slots.len()
            invariant
                self.wf(),
                i <= self.slots@.len(),
                forall|j: int| 0 <= j < i ==> (#[trigger] self.slots@[j]).key@ != key@,
            decreases self.slots@.len() - i,
        {
            if self.slots[i].key.same(key) {
                proof {
                    lemma_slot_lookup(self.slots@, i as int);
                }
                return Some(i);
            }
            i = i + 1;
        }
        assert(!slot_keys(self.slots@).contains(key@)) by {
            if slot_keys(self.slots@).contains(key@) {
                let j = slot_keys(self.slots@).index_of(key@);
                assert(self.slots@[j].key@ == key@);
            }
        }
        None
    }

    /// Takes out the slot at `i`.
    fn remove_at(&mut self, i: usize, metrics: &mut TransportCounters) -> (slot: PendingSlot)
        requires
            old(self).wf(),
            i < old(self).slots@.len(),
        ensures
            final(self).wf(),
            slot == old(self).slots@[i as int],
            final(self).slots@ == old(self).slots@.update(
                i as int,
                old(self).slots@.last(),
            ).drop_last(),
            old(self)@.is_pending(slot.key@),
            old(self)@.entries[slot.key@] == slot.entry,
            final(self)@ == old(self)@.without(slot.key@),
            old(self)@.entries.len() == final(self)@.entries.len() + 1,
            final(metrics)@ == old(metrics)@.pending_moved(-1),
    {
        proof {
            lemma_slot_lookup(self.slots@, i as int);
            lemma_slot_swap_remove(self.slots@, i as int);
            lemma_slot_count(self.slots@);
        }
        let slot = self.slots.swap_remove(i);
        proof {
            lemma_slot_count(self.slots@);
        }
        pending_removed(metrics);
        slot
    }

    /// Makes `future` wait for the response to its request on the connection
    /// `connection_id`. Where a request with its number is pending there
    /// already, the future comes back.
    pub fn register(
        &mut self,
        connection_id: &str,
        future: ResponseFuture,
        metrics: &mut TransportCounters,
    ) -> (registration: Result<PendingRegistration, ResponseFuture>)
        requires
            old(self).wf(),
        ensures
            final(self).wf(),
            final(self)@ == old(self)@.registered((connection_id@, future.opaque), future),
            registration is Ok <==> !old(self)@.is_pending((connection_id@, future.opaque)),
            registration matches Ok(registered) ==> registered@ == (RequestView {
                identity: IdentityView {
                    key: (connection_id@, future.opaque),
                    token: old(self)@.next_token,
                },
                timeout_millis: future.timeout_millis,
            }),
            registration matches Err(refused) ==> refused == future,
            final(metrics)@ == old(metrics)@.pending_moved(
                final(self)@.entries.len() - old(self)@.entries.len(),
            ),
    {
        proof {
            crate::metrics::law_gauge_moves_add_up(metrics@.pending_responses, 0, 0);
            lemma_slot_count(self.slots@);
        }
        let key = PendingKey::new(connection_id, future.opaque);
        let token = self.next_token;
        self.next_token = self.next_token.wrapping_add(1);
        if self.position(&key).is_some() {
            return Err(future);
        }
        let timeout_millis = future.timeout_millis;
        let slot = PendingSlot { key: key.clone(), entry: PendingEntry { token, future } };
        proof {
            lemma_slot_push(self.slots@, slot);
        }
        self.slots.push(slot);
        proof {
            lemma_slot_count(self.slots@);
        }
        pending_registered(metrics);
        Ok(PendingRegistration { identity: PendingIdentity { key, token }, timeout_millis })
    }

    /// Whether the very request that `identity` names is pending.
    pub fn is_registered(&self, identity: &PendingIdentity) -> (registered: bool)
        requires
            self.wf(),
        ensures
            registered == self@.holds(identity@),
    {
        match self.position(&identity.key) {
            Some(i) => self.slots[i].entry.token == identity.token,
            None => false,
        }
    }

    /// Takes the waiter for the response to request number `opaque` on the
    /// connection `connection_id` out of the table.
    pub fn take(
        &mut self,
        connection_id: &str,
        opaque: i32,
        metrics: &mut TransportCounters,
    ) -> (future: Option<ResponseFuture>)
        requires
            old(self).wf(),
        ensures
            final(self).wf(),
            final(self)@ == old(self)@.without((connection_id@, opaque)),
            future is Some <==> old(self)@.is_pending((connection_id@, opaque)),
            future matches Some(waiter) ==> waiter == old(self)@.entries[(
                connection_id@,
                opaque,
            )].future,
            final(metrics)@ == old(metrics)@.pending_moved(
                final(self)@.entries.len() - old(self)@.entries.len(),
            ),
    {
        let key = PendingKey::new(connection_id, opaque);
        match self.position(&key) {
            Some(i) => Some(self.remove_at(i, metrics).entry.future),
            None => {
                proof {
                    crate::metrics::law_gauge_moves_add_up(metrics@.pending_responses, 0, 0);
                    assert(self@.entries.remove(key@) =~= self@.entries);
                }
                None
            },
        }
    }

    /// Takes the waiter of the request that `identity` names out of the table.
    /// A later registration under the same key is left alone.
    pub fn remove_if_token_matches(
        &mut self,
        identity: &PendingIdentity,
        metrics: &mut TransportCounters,
    ) -> (future: Option<ResponseFuture>)
        requires
            old(self).wf(),
        ensures
            final(self).wf(),
            final(self)@ == old(self)@.withdrawn(identity@),
            future == old(self)@.waiter(identity@),
            final(metrics)@ == old(metrics)@.pending_moved(
                final(self)@.entries.len() - old(self)@.entries.len(),
            ),
    {
        proof {
            crate::metrics::law_gauge_moves_add_up(metrics@.pending_responses, 0, 0);
        }
        match self.position(&identity.key) {
            Some(i) => {
                if self.slots[i].entry.token == identity.token {
                    Some(self.remove_at(i, metrics).entry.future)
                } else {
                    None
                }
            },
            None => None,
        }
    }

    /// Withdraws the request that `identity` names, and tells its waiter that
    /// the connection failed.
    pub fn fail_identity(
        &mut self,
        identity: &PendingIdentity,
        message: &str,
        metrics: &mut TransportCounters,
    ) -> (completion: Option<Completion>)
        requires
            old(self).wf(),
        ensures
            final(self).wf(),
            final(self)@ == old(self)@.withdrawn(identity@),
            fail_waiter(completion, old(self)@.waiter(identity@), remoting_failure(message@)),
            final(metrics)@ == old(metrics)@.pending_moved(
                final(self)@.entries.len() - old(self)@.entries.len(),
            ),
    {
        match self.remove_if_token_matches(identity, metrics) {
            Some(future) => Some(
                future.complete(
                    Err(RocketMQError::network_connection_failed("remoting", message)),
                ),
            ),
            None => None,
        }
    }

    /// Withdraws the request that `identity` names, and tells its waiter that
    /// `timeout_millis` have passed.
    pub fn timeout_identity(
        &mut self,
        identity: &PendingIdentity,
        timeout_millis: u64,
        metrics: &mut TransportCounters,
    ) -> (completion: Option<Completion>)
        requires
            old(self).wf(),
        ensures
            final(self).wf(),
            final(self)@ == old(self)@.withdrawn(identity@),
            fail_waiter(completion, old(self)@.waiter(identity@), remoting_timeout(timeout_millis)),
            final(metrics)@ == old(metrics)@.pending_moved(
                final(self)@.entries.len() - old(self)@.entries.len(),
            ),
    {
        match self.remove_if_token_matches(identity, metrics) {
            Some(future) => Some(
                future.complete(
                    Err(
                        RocketMQError::Timeout {
                            operation: "remoting",
                            timeout_ms: timeout_millis,
                        },
                    ),
                ),
            ),
            None => None,
        }
    }

    /// Withdraws every request on the connection `connection_id`, and tells
    /// each waiter that the connection failed.
    pub fn fail_connection(
        &mut self,
        connection_id: &str,
        message: &str,
        metrics: &mut TransportCounters,
    ) -> (completions: Vec<Completion>)
        requires
            old(self).wf(),
        ensures
            final(self).wf(),
            final(self)@ == old(self)@.without_connection(connection_id@),
            fail_each(
                completions@,
                old(self)@.of_connection(connection_id@),
                remoting_failure(message@),
            ),
            final(metrics)@ == old(metrics)@.pending_moved(
                final(self)@.entries.len() - old(self)@.entries.len(),
            ),
    {
        let connection = connection_id.to_owned();
        let mut completions: Vec<Completion> = Vec::new();
        let mut i: usize = 0;
        let ghost mut keys: Seq<(Seq<char>, i32)> = Seq::empty();
        let ghost before = self@;
        let ghost requests = before.of_connection(connection_id@);
        let ghost gauge = metrics@;
        proof {
            crate::metrics::law_gauge_moves_add_up(metrics@.pending_responses, 0, 0);
            assert(before.entries.remove_keys(keys.to_set()) =~= before.entries);
        }
        while i < self.slots.len()
            invariant
                self.wf(),
                before == old(self)@,
                gauge == old(metrics)@,
                connection@ == connection_id@,
                requests == before.of_connection(connection_id@),
                i <= self.slots@.len(),
                forall|j: int|
                    0 <= j < i ==> (#[trigger] self.slots@[j]).key@.0 != connection_id@,
                keys.no_duplicates(),
                forall|j: int|
                    0 <= j < keys.len() ==> #[trigger] requests.contains_key(keys[j])
                        && !self@.is_pending(keys[j]),
                fail_in_order(completions@, requests, remoting_failure(message@), keys),
                self@.entries == before.entries.remove_keys(keys.to_set()),
                self@.next_token == before.next_token,
                metrics@ == gauge.pending_moved(self@.entries.len() - before.entries.len()),
            decreases self.slots@.len() - i,
        {
            if self.slots[i].key.connection_id == connection {
                let ghost previous = self.slots@;
                let ghost table = self@;
                let slot = self.remove_at(i, metrics);
                let ghost key = slot.key@;
                let failure = RocketMQError::network_connection_failed("remoting", message);
                completions.push(slot.entry.future.complete(Err(failure)));
                proof {
                    assert(requests.contains_key(key));
                    assert(requests[key] == slot.entry);
                    let more = keys.push(key);
                    assert(more.no_duplicates());
                    assert(more.to_set() =~= keys.to_set().insert(key)) by {
                        assert(more[keys.len() as int] == key);
                        assert forall|k: (Seq<char>, i32)| keys.contains(k) implies more.contains(
                            k,
                        ) by {
                            let m = keys.index_of(k);
                            assert(more[m] == k);
                        }
                    }
                    assert(self@.entries =~= before.entries.remove_keys(more.to_set()));
                    crate::metrics::law_gauge_moves_add_up(
                        gauge.pending_responses,
                        table.entries.len() - before.entries.len(),
                        -1,
                    );
                    keys = more;
                }
            } else {
                i = i + 1;
            }
        }
        proof {
            assert forall|k: (Seq<char>, i32)| self@.entries.dom().contains(k) implies k.0
                != connection_id@ by {
                let m = slot_keys(self.slots@).index_of(k);
                assert(self.slots@[m].key@ == k);
            }
            assert forall|k: (Seq<char>, i32)| keys.contains(k) implies requests.contains_key(k) by {
                let m = keys.index_of(k);
                assert(requests.contains_key(keys[m]));
            }
            assert forall|k: (Seq<char>, i32)| requests.dom().contains(k) implies keys.contains(
                k,
            ) by {
                if !keys.contains(k) {
                    assert(self@.entries.dom().contains(k));
                }
            }
            assert(self@.entries =~= before.without_connection(connection_id@).entries);
            assert(keys.to_set() =~= requests.dom());
            assert(fail_in_order(completions@, requests, remoting_failure(message@), keys));
        }
        completions
    }

    /// The number of pending requests.
    pub fn len(&self) -> (len: usize)
        requires
            self.wf(),
        ensures
            len == self@.entries.len(),
    {
        proof {
            lemma_slot_count(self.slots@);
        }
        self.slots.len()
    }

    /// Whether no request is pending.
    pub fn is_empty(&self) -> (empty: bool)
        requires
            self.wf(),
        ensures
            empty == (self@.entries.len() == 0),
            empty == (self@.entries == Map::<(Seq<char>, i32), PendingEntry>::empty()),
    {
        proof {
            lemma_slot_count(self.slots@);
            if self.slots@.len() > 0 {
                lemma_slot_lookup(self.slots@, 0);
            } else {
                assert(slot_entries(self.slots@) =~= Map::empty());
            }
        }
        self.slots.len() == 0
    }
}

/// A registration in the table. Its owner ends it with
/// [`PendingRegistration::release`].
pub struct PendingRegistration {
    identity: PendingIdentity,
    timeout_millis: u64,
}

/// A handle by which a task that does not own the registration refers to it.
pub struct PendingRequest {
    identity: PendingIdentity,
    timeout_millis: u64,
}

/// What a [`PendingRegistration`] or a [`PendingRequest`] refers to.
pub struct RequestView {
    pub identity: IdentityView,
    pub timeout_millis: u64,
}

impl View for PendingRegistration {
    type V = RequestView;

    closed spec fn view(&self) -> RequestView {
        RequestView { identity: self.identity@, timeout_millis: self.timeout_millis }
    }
}

impl View for PendingRequest {
    type V = RequestView;

    closed spec fn view(&self) -> RequestView {
        RequestView { identity: self.identity@, timeout_millis: self.timeout_millis }
    }
}

impl Clone for PendingRequest {
    fn clone(&self) -> (request: Self)
        ensures
            request@ == self@,
    {
        PendingRequest {
            identity: self.identity.clone(),
            timeout_millis: self.timeout_millis,
        }
    }
}

impl PendingRegistration {
    /// The identity of the registered request.
    pub fn identity(&self) -> (identity: &PendingIdentity)
        ensures
            identity@ == self@.identity,
    {
        &self.identity
    }

    /// A handle to the registered request.
    pub fn request(&self) -> (request: PendingRequest)
        ensures
            request@ == self@,
    {
        PendingRequest {
            identity: self.identity.clone(),
            timeout_millis: self.timeout_millis,
        }
    }

    /// Withdraws the request, and tells its waiter that `timeout_millis` have passed.
    pub fn timeout(
        &self,
        timeout_millis: u64,
        table: &mut PendingResponses,
        metrics: &mut TransportCounters,
    ) -> (completion: Option<Completion>)
        requires
            old(table).wf(),
        ensures
            final(table).wf(),
            final(table)@ == old(table)@.withdrawn(self@.identity),
            fail_waiter(
                completion,
                old(table)@.waiter(self@.identity),
                remoting_timeout(timeout_millis),
            ),
            final(metrics)@ == old(metrics)@.pending_moved(
                final(table)@.entries.len() - old(table)@.entries.len(),
            ),
    {
        table.timeout_identity(&self.identity, timeout_millis, metrics)
    }

    /// Ends the registration: a request that is still pending is withdrawn.
    /// Its waiter comes back to be dropped.
    pub fn release(
        self,
        table: &mut PendingResponses,
        metrics: &mut TransportCounters,
    ) -> (future: Option<ResponseFuture>)
        requires
            old(table).wf(),
        ensures
            final(table).wf(),
            final(table)@ == old(table)@.withdrawn(self@.identity),
            future == old(table)@.waiter(self@.identity),
            final(metrics)@ == old(metrics)@.pending_moved(
                final(table)@.entries.len() - old(table)@.entries.len(),
            ),
    {
        table.remove_if_token_matches(&self.identity, metrics)
    }
}

impl PendingRequest {
    /// Whether the request is still pending.
    pub fn is_registered(&self, table: &PendingResponses) -> (registered: bool)
        requires
            table.wf(),
        ensures
            registered == table@.holds(self@.identity),
    {
        table.is_registered(&self.identity)
    }

    /// How long the caller of the request is willing to wait, in milliseconds.
    pub fn timeout_millis(&self) -> (timeout_millis: u64)
        ensures
            timeout_millis == self@.timeout_millis,
    {
        self.timeout_millis
    }

    /// Withdraws the request, and tells its waiter that the connection failed.
    pub fn fail(
        &self,
        message: &str,
        table: &mut PendingResponses,
        metrics: &mut TransportCounters,
    ) -> (completion: Option<Completion>)
        requires
            old(table).wf(),
        ensures
            final(table).wf(),
            final(table)@ == old(table)@.withdrawn(self@.identity),
            fail_waiter(
                completion,
                old(table)@.waiter(self@.identity),
                remoting_failure(message@),
            ),
            final(metrics)@ == old(metrics)@.pending_moved(
                final(table)@.entries.len() - old(table)@.entries.len(),
            ),
    {
        table.fail_identity(&self.identity, message, metrics)
    }

    /// Withdraws the request, and tells its waiter that `timeout_millis` have passed.
    pub fn timeout(
        &self,
        timeout_millis: u64,
        table: &mut PendingResponses,
        metrics: &mut TransportCounters,
    ) -> (completion: Option<Completion>)
        requires
            old(table).wf(),
        ensures
            final(table).wf(),
            final(table)@ == old(table)@.withdrawn(self@.identity),
            fail_waiter(
                completion,
                old(table)@.waiter(self@.identity),
                remoting_timeout(timeout_millis),
            ),
            final(metrics)@ == old(metrics)@.pending_moved(
                final(table)@.entries.len() - old(table)@.entries.len(),
            ),
    {
        table.timeout_identity(&self.identity, timeout_millis, metrics)
    }
}

/// The pending requests can be counted, and what is pending under a key waits
/// for the response to the number of that key.
pub proof fn law_table_is_consistent(table: &PendingResponses)
    requires
        table.wf(),
    ensures
        table@.entries.dom().finite(),
        forall|key: (Seq<char>, i32)|
            #[trigger] table@.is_pending(key) ==> table@.entries[key].future.opaque == key.1,
{
    lemma_slot_count(table.slots@);
    assert forall|key: (Seq<char>, i32)| #[trigger] table@.is_pending(key) implies
        table@.entries[key].future.opaque == key.1 by {
        let i = slot_keys(table.slots@).index_of(key);
        assert(table.slots@[i].key@ == key);
        lemma_slot_lookup(table.slots@, i);
    }
}

} // verus!
