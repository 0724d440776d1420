//! The engine's error taxonomy.

use vstd::prelude::*;

verus! {

/// Everything that can go wrong along the collection-and-relay path.
/// None of these is fatal: streams reconnect, parse failures discard one
/// frame, and relay failures drop one message.
#[derive(Clone, Copy, Debug, PartialEq, Eq, Structural)]
pub enum EngineError {
    /// Transport or handshake failure while establishing a stream.
    Connect,
    /// Failure sending a subscription request.
    Subscribe,
    /// Malformed or unrecognized payload.
    Parse,
    /// The remote side closed the stream, or a read hit the end.
    LinkClosed,
    /// Failure transmitting on an established link.
    Send,
    /// The outbound pool exhausted its retry budget.
    AllSendersBusy,
}

} // verus!
