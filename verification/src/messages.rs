//! Built-in messages for actor lifecycle, timers, continuation and rejection.

use vstd::prelude::*;

use crate::message::Message;

verus! {

/// Sent to actors when the manager starts them.
#[derive(Debug, Clone)]
pub struct Start;

/// Sent to actors when the manager shuts down.
#[derive(Debug, Clone)]
pub struct Shutdown;

/// Sent by a timer when it fires; `id` tells the timers of one actor apart.
#[derive(Debug, Clone)]
pub struct Timeout {
    /// User-defined timer identifier
    pub id: u64,
}

/// Sent by an actor to itself to continue a long piece of work later.
#[derive(Debug, Clone)]
pub struct Continue {
    /// User-defined continuation state
    pub state: u64,
}

/// Sent back to the sender when a remote message cannot be processed:
/// the message type is not registered, the target actor is not found, or the
/// message fields cannot be decoded.
#[derive(Debug, Clone, Default)]
pub struct Reject {
    /// The name of the message type that was rejected
    pub message_type: String,
    /// The reason for rejection
    pub reason: String,
    /// The name of the actor that rejected the message
    pub rejected_by: String,
}

impl Timeout {
    pub fn new(id: u64) -> (t: Self)
        ensures
            t.id == id,
    {
        Timeout { id }
    }

    /// What a timer with id `id` sends when its delay or interval has
    /// elapsed: a `Timeout` carrying `id` while the timer is still running,
    /// nothing once it was cancelled.
    pub fn on_tick(running: bool, id: u64) -> (t: Option<Self>)
        ensures
            running <==> t is Some,
            t matches Some(x) ==> x.id == id,
    {
        if running {
            Some(Timeout::new(id))
        } else {
            None
        }
    }
}

impl Continue {
    pub fn new(state: u64) -> (c: Self)
        ensures
            c.state == state,
    {
        Continue { state }
    }
}

impl Reject {
    pub fn new(message_type: &str, reason: &str, rejected_by: &str) -> (r: Self)
        ensures
            r.message_type@ == message_type@,
            r.reason@ == reason@,
            r.rejected_by@ == rejected_by@,
    {
        Reject {
            message_type: message_type.to_string(),
            reason: reason.to_string(),
            rejected_by: rejected_by.to_string(),
        }
    }
}

impl Message for Start {
}

impl Message for Shutdown {
    fn is_shutdown(&self) -> (s: bool)
        ensures
            s,
    {
        true
    }
}

impl Message for Timeout {
}

impl Message for Continue {
}

impl Message for Reject {
}

} // verus!
