//! The handles: cloneable publisher and subscriber endpoints of one hub, the
//! factory that creates a hub with its first endpoint pair, and the
//! payload-less cancellation specialization.

use crate::endpoint::try_recv_endpoint;
use crate::endpoint::MpscReceiver;
use crate::error::Error;
use crate::hub::hub_inv;
use crate::hub::BroadcasterInner;
use crate::hub::HubLock;
use std::sync::Arc;
use vstd::prelude::*;
use vstd::string::StringExecFns;

verus! {

/// Duplication under a caller-chosen diagnostic name. Cloning a subscriber
/// is the system's subscribe primitive: it registers a brand-new endpoint
/// with the shared hub. Cloning a publisher only shares the hub.
pub trait CloneAs: Sized {
    /// What the duplicate guarantees; each handle type states its own.
    spec fn clone_as_post(&self, name: Seq<char>, r: &Self) -> bool;

    /// Produces a sibling handle under the given name.
    fn clone_as(&self, name: String) -> (r: Self)
        ensures
            self.clone_as_post(name@, &r),
    ;
}

/// A cloneable, shared-ownership handle used to publish messages into the
/// hub; a broadcast fans the message out to every registered endpoint.
#[verifier::reject_recursive_types(T)]
pub struct Broadcaster<T> {
    name: String,
    inner: Arc<HubLock<T>>,
}

impl<T> Broadcaster<T> {
    /// Every handle's lock carries the hub well-formedness predicate.
    #[verifier::type_invariant]
    spec fn locked_wf(self) -> bool {
        self.inner.pred() == hub_inv::<T>()
    }

    /// The handle's diagnostic name.
    pub closed spec fn name_view(self) -> Seq<char> {
        self.name@
    }

    /// The hub this handle publishes into.
    pub closed spec fn hub(self) -> Arc<HubLock<T>> {
        self.inner
    }
}

impl<T: Clone> Broadcaster<T> {
    /// Publishes one message: under the hub's exclusive section, delivery is
    /// attempted to every endpoint registered at that moment, in registration
    /// order. Delivery to an endpoint whose subscriber is gone fails and is
    /// skipped; partial failure is never surfaced to the caller.
    pub fn broadcast(&self, message: T) {
        let (hub, handle) = (*self.inner).acquire_write();
        let _ = hub.broadcast(&message);
        handle.release_write(hub);
    }
}

impl<T> CloneAs for Broadcaster<T> {
    /// The duplicate carries the given name and publishes into the same hub.
    open spec fn clone_as_post(&self, name: Seq<char>, r: &Self) -> bool {
        &&& r.name_view() == name
        &&& r.hub() == self.hub()
    }

    fn clone_as(&self, name: String) -> (r: Self) {
        proof {
            use_type_invariant(self);
        }
        Broadcaster { name, inner: self.inner.clone() }
    }
}

impl<T: Clone> Clone for Broadcaster<T> {
    /// The default clone: a sibling publisher of the same hub, under a name
    /// that records provenance ("anonymous. cloned from <parent name>").
    fn clone(&self) -> (r: Self)
        ensures
            r.hub() == self.hub(),
            r.name_view() == "anonymous. cloned from "@ + self.name_view(),
    {
        let name = "anonymous. cloned from ".to_owned().concat(self.name.as_str());
        self.clone_as(name)
    }
}

/// A handle owning exactly one inbound queue endpoint, plus shared access to
/// the hub, needed only to create sibling subscribers. Receives every message
/// broadcast after its registration, in broadcast order.
#[verifier::reject_recursive_types(T)]
pub struct Subscriber<T> {
    name: String,
    inner: Arc<HubLock<T>>,
    receiver: MpscReceiver<T>,
}

impl<T> Subscriber<T> {
    /// Every handle's lock carries the hub well-formedness predicate.
    #[verifier::type_invariant]
    spec fn locked_wf(self) -> bool {
        self.inner.pred() == hub_inv::<T>()
    }

    /// The handle's diagnostic name.
    pub closed spec fn name_view(self) -> Seq<char> {
        self.name@
    }

    /// The hub this handle subscribes to.
    pub closed spec fn hub(self) -> Arc<HubLock<T>> {
        self.inner
    }

    /// Non-blocking receive: returns at once, with the next pending message,
    /// an `Empty` condition when nothing is queued, or `Disconnected` when
    /// every publishing peer is gone and nothing remains pending.
    pub fn try_recv(&self) -> (res: Result<T, Error>)
        ensures
            res matches Err(e) ==> (e == Error::Empty || e == Error::Disconnected),
    {
        try_recv_endpoint(&self.receiver.inner)
    }

    /// Blocking receive: suspends the caller until a message is available on
    /// this subscriber's queue, and fails with `Disconnected` exactly when
    /// every publishing peer is gone and nothing remains pending.
    pub fn recv(&self) -> (res: Result<T, Error>)
        ensures
            res matches Err(e) ==> e == Error::Disconnected,
    {
        match self.receiver.inner.recv() {
            Ok(value) => Ok(value),
            Err(_) => Err(Error::Disconnected),
        }
    }
}

impl<T> CloneAs for Subscriber<T> {
    /// The duplicate carries the given name and shares the parent's hub; it
    /// owns a brand-new endpoint registered by this call, so it starts with
    /// an empty queue and sees only messages broadcast after registration.
    open spec fn clone_as_post(&self, name: Seq<char>, r: &Self) -> bool {
        &&& r.name_view() == name
        &&& r.hub() == self.hub()
    }

    fn clone_as(&self, name: String) -> (r: Self) {
        proof {
            use_type_invariant(self);
        }
        let (mut hub, handle) = (*self.inner).acquire_write();
        let receiver = hub.add_receiver();
        handle.release_write(hub);
        Subscriber { name, inner: self.inner.clone(), receiver }
    }
}

impl<T: Clone> Clone for Subscriber<T> {
    /// The default clone: subscribes a brand-new endpoint to the same hub,
    /// under a name that records provenance ("anonymous. cloned from
    /// <parent name>"). The clone starts with an empty queue.
    fn clone(&self) -> (r: Self)
        ensures
            r.hub() == self.hub(),
            r.name_view() == "anonymous. cloned from "@ + self.name_view(),
    {
        let name = "anonymous. cloned from ".to_owned().concat(self.name.as_str());
        self.clone_as(name)
    }
}

/// Builds a new hub under the caller-supplied name, with exactly one
/// registered endpoint pair, and returns one publisher handle and the one
/// subscriber handle owning the sole inbound endpoint. Both handles are
/// named "initial" regardless of the hub's name; the hub keeps the
/// caller's name.
pub fn broadcasting_channel<T: Clone>(name: String) -> (r: (Broadcaster<T>, Subscriber<T>))
    ensures
        r.0.name_view() == "initial"@,
        r.1.name_view() == "initial"@,
        r.0.hub() == r.1.hub(),
{
    let (hub, receiver) = BroadcasterInner::<T>::new(name);
    let lock = HubLock::<T>::new(hub, Ghost(hub_inv::<T>()));
    let inner = Arc::new(lock);
    let broadcaster = Broadcaster { name: "initial".to_owned(), inner: inner.clone() };
    let subscriber = Subscriber { name: "initial".to_owned(), inner, receiver };
    (broadcaster, subscriber)
}

/// Law: every handle derived from the same origin references one hub —
/// however long the chain of named clones, a subscriber obtained from a
/// subscriber of the origin pair still subscribes to the hub that the origin
/// publisher publishes into.
pub proof fn lemma_derived_handles_share_hub<T>(
    origin: (Broadcaster<T>, Subscriber<T>),
    mid: Subscriber<T>,
    leaf: Subscriber<T>,
    mid_name: Seq<char>,
    leaf_name: Seq<char>,
)
    requires
        origin.0.hub() == origin.1.hub(),
        origin.1.clone_as_post(mid_name, &mid),
        mid.clone_as_post(leaf_name, &leaf),
    ensures
        leaf.hub() == origin.0.hub(),
{
}

/// A named specialization of a subscriber carrying no payload: it lets a
/// broadcaster fan a zero-information "happened" event out to many
/// listeners, as a broadcastable stop notification.
pub struct Canceller(pub Subscriber<()>);

impl From<Subscriber<()>> for Canceller {
    fn from(value: Subscriber<()>) -> (r: Self) {
        Canceller(value)
    }
}

impl vstd::std_specs::convert::FromSpecImpl<Subscriber<()>> for Canceller {
    open spec fn obeys_from_spec() -> bool {
        true
    }

    open spec fn from_spec(value: Subscriber<()>) -> Self {
        Canceller(value)
    }
}

impl Clone for Canceller {
    /// The default clone: subscribes a brand-new listener to the same hub,
    /// under the anonymous provenance name.
    fn clone(&self) -> (r: Self)
        ensures
            r.0.hub() == self.0.hub(),
    {
        Canceller(self.0.clone())
    }
}

impl CloneAs for Canceller {
    /// The duplicate wraps a subscriber that meets the subscriber guarantee.
    open spec fn clone_as_post(&self, name: Seq<char>, r: &Self) -> bool {
        self.0.clone_as_post(name, &r.0)
    }

    fn clone_as(&self, name: String) -> (r: Self) {
        Canceller(self.0.clone_as(name))
    }
}

} // verus!
