//! The error taxonomy surfaced by receive calls.

use vstd::prelude::*;

verus! {

/// What a receive call reports when it cannot hand back a message.
#[derive(Clone, Copy, Debug, PartialEq, Eq, Structural)]
pub enum Error {
    /// A configuration without a receiving endpoint. The factory and the
    /// clone paths never produce such a configuration; the variant is kept
    /// in the taxonomy defensively and no call of this crate returns it.
    NoReceiver,
    /// Every sending peer of the queue is gone and no message remains
    /// pending: the terminal, expected end-of-stream signal.
    Disconnected,
    /// No message is currently queued; recoverable, expected when polling.
    Empty,
}

} // verus!
