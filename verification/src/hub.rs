//! The hub: the shared broadcast registry. It owns the sending half of every
//! subscriber's queue, in registration order, and provides the two serialized
//! operations of the protocol: fanning one message out to every registered
//! endpoint, and registering a brand-new endpoint pair.

use crate::endpoint::MpscReceiver;
use crate::endpoint::MpscSyncSender;
use crate::endpoint::UniqueId;
use vstd::prelude::*;
use vstd::rwlock::RwLock;

verus! {

/// Capacity of each subscriber's queue: a broadcast blocks on an endpoint
/// while this many messages are already pending there.
pub const QUEUE_CAPACITY: usize = 10;

/// The shared state of one hub: its name, the identifier issued last, and
/// the sending half of every queue registered so far, in registration order.
/// Endpoints are never removed: a subscriber being dropped leaves its
/// sending half in place, and later broadcasts simply fail to deliver there.
#[verifier::reject_recursive_types(T)]
pub struct BroadcasterInner<T> {
    name: String,
    last_id: UniqueId,
    senders: Vec<MpscSyncSender<T>>,
}

/// The predicate every value stored in a hub's lock satisfies.
pub open spec fn hub_inv<T>() -> spec_fn(BroadcasterInner<T>) -> bool {
    |hub: BroadcasterInner<T>| hub.wf()
}

/// The mutual-exclusion lock around one hub's shared state. Registration and
/// fan-out both run under its exclusive side, so they never interleave.
pub type HubLock<T> = RwLock<BroadcasterInner<T>, spec_fn(BroadcasterInner<T>) -> bool>;

impl<T> BroadcasterInner<T> {
    /// The hub's name, as given to the factory call.
    pub closed spec fn spec_name(self) -> Seq<char> {
        self.name@
    }

    /// The registered sending endpoints, in registration order.
    pub closed spec fn endpoints(self) -> Seq<MpscSyncSender<T>> {
        self.senders@
    }

    /// How many endpoints have been registered so far.
    pub open spec fn endpoint_count(self) -> nat {
        self.endpoints().len()
    }

    /// The identifier issued last.
    pub closed spec fn spec_last_id(self) -> u128 {
        self.last_id.spec_value()
    }

    /// Well-formedness: the endpoint registered at position `i` carries
    /// identifier `i + 1`, and the identifier issued last is the count of
    /// registered endpoints. Identifiers issued by one hub are therefore
    /// strictly increasing in registration order and unique.
    pub open spec fn wf(self) -> bool {
        &&& self.spec_last_id() == self.endpoint_count()
        &&& forall|i: int|
            0 <= i < self.endpoints().len() ==> #[trigger] self.endpoints()[i].id_value() == i + 1
    }

    /// Builds a hub with exactly one registered endpoint pair and returns it
    /// together with the receiving half of that pair.
    pub(crate) fn new(name: String) -> (r: (Self, MpscReceiver<T>))
        ensures
            r.0.wf(),
            r.0.spec_name() == name@,
            r.0.endpoint_count() == 1,
            r.1.id_value() == 1,
    {
        let (sender, receiver) = std::sync::mpsc::sync_channel(QUEUE_CAPACITY);
        let last_id = UniqueId::new();
        let mut senders: Vec<MpscSyncSender<T>> = Vec::new();
        senders.push(MpscSyncSender { id: last_id, inner: sender });
        let hub = BroadcasterInner { name, last_id, senders };
        let endpoint = MpscReceiver { id: last_id, inner: receiver };
        (hub, endpoint)
    }

    /// Registers a brand-new endpoint pair: issues the next identifier,
    /// creates a bounded queue, appends its sending half to the registry and
    /// returns its receiving half. The registry only grows, and everything
    /// registered before stays where it was.
    pub(crate) fn add_receiver(&mut self) -> (r: MpscReceiver<T>)
        requires
            old(self).wf(),
        ensures
            final(self).wf(),
            final(self).spec_name() == old(self).spec_name(),
            final(self).endpoint_count() == old(self).endpoint_count() + 1,
            final(self).endpoints().drop_last() =~= old(self).endpoints(),
            r.id_value() == old(self).endpoint_count() + 1,
            final(self).endpoints().last().id_value() == r.id_value(),
    {
        proof {
            broadcast use vstd::std_specs::vec::axiom_spec_len;
            // The registry's length fits a machine word, and the identifier
            // issued last equals it, so the next one is far below the
            // 128-bit ceiling of the counter.
            assert(vstd::std_specs::vec::spec_vec_len(&self.senders) == self.senders@.len());
            assert(self.last_id.spec_value() < u128::MAX);
        }
        let (sender, receiver) = std::sync::mpsc::sync_channel(QUEUE_CAPACITY);
        self.last_id = self.last_id.next();
        self.senders.push(MpscSyncSender { id: self.last_id, inner: sender });
        MpscReceiver { id: self.last_id, inner: receiver }
    }
}

/// Law: endpoints registered with one well-formed hub carry identifiers that
/// strictly increase in registration order — an endpoint registered later
/// always carries the larger identifier.
pub proof fn lemma_endpoint_ids_increase<T>(hub: BroadcasterInner<T>, i: int, j: int)
    requires
        hub.wf(),
        0 <= i < j < hub.endpoints().len(),
    ensures
        hub.endpoints()[i].id_value() < hub.endpoints()[j].id_value(),
{
}

/// Law: endpoints registered with one well-formed hub are pairwise
/// independent — two of them never share an identifier, so cloning a
/// subscriber any number of times yields that many distinct endpoints.
pub proof fn lemma_endpoint_ids_unique<T>(hub: BroadcasterInner<T>, i: int, j: int)
    requires
        hub.wf(),
        0 <= i < hub.endpoints().len(),
        0 <= j < hub.endpoints().len(),
        i != j,
    ensures
        hub.endpoints()[i].id_value() != hub.endpoints()[j].id_value(),
{
}

impl<T: Clone> BroadcasterInner<T> {
    /// Fans one message out: attempts to deliver a clone of the message to
    /// every registered endpoint, in registration order. A delivery blocks
    /// while that endpoint's queue is full; one whose receiving half has been
    /// dropped fails, is skipped, and iteration continues. Returns how many
    /// endpoints accepted the message; partial failure is never surfaced.
    pub(crate) fn broadcast(&self, message: &T) -> (delivered: usize)
        ensures
            delivered <= self.endpoint_count(),
    {
        let mut delivered: usize = 0;
        let mut i: usize = 0;
        while i < self.senders.len()
            invariant
                i <= self.senders@.len(),
                delivered <= i,
            decreases self.senders@.len() - i,
        {
            let sender = &self.senders[i];
            let outcome = sender.inner.send(message.clone());
            if outcome.is_ok() {
                delivered = delivered + 1;
            }
            i = i + 1;
        }
        delivered
    }
}

} // verus!
