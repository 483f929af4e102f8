//! Queue endpoints: the bounded single-producer/single-consumer queues that
//! carry messages from the hub to each subscriber, together with the
//! diagnostic identifiers that label them. The queue itself is std's
//! `std::sync::mpsc` bounded channel, trusted through the declarations below;
//! everything built on top of it is verified.

use crate::error::Error;
use std::sync::mpsc::Receiver;
use std::sync::mpsc::RecvError;
use std::sync::mpsc::SendError;
use std::sync::mpsc::SyncSender;
use vstd::prelude::*;

verus! {

/// A diagnostic identifier for a queue endpoint. Identifiers issued by one
/// hub start at 1 and grow by 1 with every registered endpoint; they label
/// endpoints for diagnosis and carry no protocol weight.
#[derive(Clone, Copy)]
pub struct UniqueId(pub(crate) u128);

impl UniqueId {
    /// The identifier value, for use in contracts.
    pub open(crate) spec fn spec_value(self) -> u128 {
        self.0
    }

    /// The identifier issued to the first endpoint of a hub.
    pub fn new() -> (r: Self)
        ensures
            r.spec_value() == 1,
    {
        UniqueId(1)
    }

    /// The identifier following this one.
    pub fn next(self) -> (r: Self)
        requires
            self.spec_value() < u128::MAX,
        ensures
            r.spec_value() == self.spec_value() + 1,
    {
        UniqueId(self.0 + 1)
    }
}

/// std's sending half of a bounded queue, declared so that it can stand in
/// fields and signatures. Its behaviour enters only through the trusted
/// items below.
#[verifier::external_type_specification]
#[verifier::external_body]
#[verifier::reject_recursive_types(T)]
pub struct ExSyncSender<T>(SyncSender<T>);

/// std's receiving half of a bounded queue, declared so that it can stand in
/// fields and signatures.
#[verifier::external_type_specification]
#[verifier::external_body]
#[verifier::reject_recursive_types(T)]
pub struct ExReceiver<T>(Receiver<T>);

/// std's error for a send whose receiving half is gone; it hands the unsent
/// message back. Opaque here: a failed delivery is skipped, never unpacked.
#[verifier::external_type_specification]
#[verifier::external_body]
#[verifier::reject_recursive_types(T)]
pub struct ExSendError<T>(SendError<T>);

/// std's error for a blocking receive whose sending halves are all gone.
#[verifier::external_type_specification]
#[verifier::external_body]
pub struct ExRecvError(RecvError);

/// Relies on std::sync::mpsc::sync_channel: creates a bounded, ordered queue
/// holding at most `bound` pending messages, and returns its sending and
/// receiving halves. What the queue holds is shared, concurrently mutated
/// state, so nothing is assumed of later traffic through it.
pub assume_specification<T>[ std::sync::mpsc::sync_channel::<T> ](bound: usize) -> (
    SyncSender<T>,
    Receiver<T>,
);

/// Relies on std::sync::mpsc::SyncSender::send: queues the message for the
/// receiving half, blocking while the queue is full, and fails exactly when
/// the receiving half has been dropped. Which of the two happens depends on
/// concurrent activity, so nothing is assumed of the outcome.
pub assume_specification<T>[ SyncSender::<T>::send ](s: &SyncSender<T>, t: T) -> Result<
    (),
    SendError<T>,
>;

/// Relies on std::sync::mpsc::Receiver::recv: blocks until a message is
/// available and returns it, and fails exactly when every sending half has
/// been dropped and no message remains pending.
pub assume_specification<T>[ Receiver::<T>::recv ](r: &Receiver<T>) -> Result<T, RecvError>;

/// Relies on std::sync::mpsc::Receiver::try_recv: never blocks; returns the
/// next pending message if one is queued, and otherwise reports either an
/// empty queue or one whose sending halves are all gone. The two error
/// variants of std's TryRecvError are mapped, one arm each, onto this
/// crate's error taxonomy.
#[verifier::external_body]
pub(crate) fn try_recv_endpoint<T>(receiver: &Receiver<T>) -> (res: Result<T, Error>)
    ensures
        res matches Err(e) ==> (e == Error::Empty || e == Error::Disconnected),
{
    match receiver.try_recv() {
        Ok(value) => Ok(value),
        Err(std::sync::mpsc::TryRecvError::Empty) => Err(Error::Empty),
        Err(std::sync::mpsc::TryRecvError::Disconnected) => Err(Error::Disconnected),
    }
}

/// The hub-owned sending half of one subscriber's queue, labelled with the
/// identifier issued at its registration.
#[verifier::reject_recursive_types(T)]
pub struct MpscSyncSender<T> {
    pub(crate) id: UniqueId,
    pub(crate) inner: SyncSender<T>,
}

impl<T> MpscSyncSender<T> {
    /// The identifier this endpoint was registered under.
    pub open(crate) spec fn id_value(self) -> u128 {
        self.id.spec_value()
    }
}

/// The subscriber-owned receiving half of that same queue, labelled with the
/// same identifier. Owned by exactly one subscriber handle, never shared.
#[verifier::reject_recursive_types(T)]
pub struct MpscReceiver<T> {
    pub(crate) id: UniqueId,
    pub(crate) inner: Receiver<T>,
}

impl<T> MpscReceiver<T> {
    /// The identifier this endpoint was registered under.
    pub open(crate) spec fn id_value(self) -> u128 {
        self.id.spec_value()
    }
}

} // verus!
