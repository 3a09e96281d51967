//! Plain identifiers for actors and messages.
//!
//! The surrounding runtime addresses actors and messages by opaque ids; the
//! coordinator only ever compares them for equality and checks for the
//! reserved zero id, so a single machine word models them faithfully.

use vstd::prelude::*;

verus! {

/// Identity of an actor (a user or a collaborating program).
#[derive(Clone, Copy, PartialEq, Eq, Structural, Debug, Hash)]
pub struct ActorId {
    pub id: u64,
}

impl ActorId {
    pub fn new(id: u64) -> (r: ActorId)
        ensures
            r.id == id,
    {
        ActorId { id }
    }

    /// The reserved null identity; it never names a real actor.
    pub fn zero() -> (r: ActorId)
        ensures
            r.id == 0,
    {
        ActorId { id: 0 }
    }

    pub fn is_zero(&self) -> (r: bool)
        ensures
            r == (self.id == 0),
    {
        self.id == 0
    }
}

impl Default for ActorId {
    fn default() -> (r: Self)
        ensures
            r.id == 0,
    {
        ActorId { id: 0 }
    }
}

/// Identity of one inbound or outbound message, used to correlate an
/// asynchronous reply with the request that caused it.
#[derive(Clone, Copy, PartialEq, Eq, Structural, Debug, Hash)]
pub struct MessageId {
    pub id: u64,
}

impl MessageId {
    pub fn new(id: u64) -> (r: MessageId)
        ensures
            r.id == id,
    {
        MessageId { id }
    }

    pub fn zero() -> (r: MessageId)
        ensures
            r.id == 0,
    {
        MessageId { id: 0 }
    }
}

impl Default for MessageId {
    fn default() -> (r: Self)
        ensures
            r.id == 0,
    {
        MessageId { id: 0 }
    }
}

} // verus!
