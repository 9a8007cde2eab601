//! The typed unit of real-time communication.

use vstd::prelude::*;

verus! {

/// One event as transmitted over a real-time channel: a discriminator such
/// as `"new_comment"` and an event-specific payload that the hub never
/// inspects. An envelope is immutable once constructed and cheap to
/// duplicate, since a single fan-out call may write it into many mailboxes.
#[derive(Debug, PartialEq, Eq)]
pub struct Envelope {
    /// Discriminator, e.g. `"new_comment"` or `"mission_started"`.
    pub event_type: String,
    /// Event-specific structured data, serialized; opaque to the hub.
    pub payload: String,
}

impl Clone for Envelope {
    /// Duplication is exact: the copy carries the same event type and payload.
    fn clone(&self) -> (r: Self)
        ensures
            r == *self,
    {
        Envelope { event_type: self.event_type.clone(), payload: self.payload.clone() }
    }
}

impl Envelope {
    /// Packs an event type and its serialized payload into an envelope.
    pub fn new(event_type: String, payload: String) -> (r: Envelope)
        ensures
            r.event_type == event_type,
            r.payload == payload,
    {
        Envelope { event_type, payload }
    }
}

} // verus!
