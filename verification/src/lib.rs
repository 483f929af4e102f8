//! A broadcast-channel primitive: one published message is delivered to every
//! live subscriber, each subscriber owning a private, order-preserving bounded
//! queue. New subscribers are obtained by cloning an existing one, which
//! registers a fresh queue with the shared hub; they see only messages
//! broadcast after their registration.

mod endpoint;
mod error;
mod handles;
mod hub;

pub use endpoint::MpscReceiver;
pub use endpoint::MpscSyncSender;
pub use endpoint::UniqueId;
pub use error::Error;
pub use handles::broadcasting_channel;
pub use handles::Broadcaster;
pub use handles::Canceller;
pub use handles::lemma_derived_handles_share_hub;
pub use handles::CloneAs;
pub use handles::Subscriber;
pub use hub::lemma_endpoint_ids_increase;
pub use hub::lemma_endpoint_ids_unique;
pub use hub::BroadcasterInner;
pub use hub::HubLock;
pub use hub::QUEUE_CAPACITY;
