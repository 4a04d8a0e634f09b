//! The wire protocol between processes.
//!
//! A message that travels to another process is framed as a JSON object with
//! five keys:
//!
//! ```json
//! {"sender_actor": "ping", "sender_endpoint": "tcp://localhost:5002",
//!  "receiver": "pong", "message_type": "Ping", "message": {"count": 1}}
//! ```
//!
//! `WireEnvelope` holds these five values; the `message` value is kept as the
//! JSON text of the message fields. Turning a `WireEnvelope` into bytes and
//! back is serde's work at the socket.

use vstd::prelude::*;

verus! {

/// The type name and JSON field text of one message.
#[derive(Debug, Clone)]
pub struct WirePayload {
    /// The registered type name, e.g. `Ping`
    pub message_type: String,
    /// The JSON text of the message fields, e.g. `{"count":1}`
    pub message: String,
}

/// The five values of the JSON object that travels between processes.
#[derive(Debug, Clone)]
pub struct WireEnvelope {
    /// Name of the sending actor (for replies)
    pub sender_actor: Option<String>,
    /// Endpoint of the sending process (for replies)
    pub sender_endpoint: Option<String>,
    /// Name of the target actor
    pub receiver: String,
    /// Registered type name of the message
    pub message_type: String,
    /// JSON text of the message fields
    pub message: String,
}

/// The text of an optional decoded field: empty when the field is missing.
pub open spec fn text_or_empty(s: Option<String>) -> Seq<char> {
    match s {
        Some(t) => t@,
        None => Seq::empty(),
    }
}

/// The text of `s`, or an empty string when there is none.
fn or_empty(s: Option<String>) -> (r: String)
    ensures
        r@ == text_or_empty(s),
{
    match s {
        Some(t) => t,
        None => String::new(),
    }
}

impl WireEnvelope {
    /// The envelope made of the fields decoded from the wire: a missing
    /// sender stays unknown, a missing receiver or message type reads as
    /// empty.
    pub fn from_fields(
        sender_actor: Option<String>,
        sender_endpoint: Option<String>,
        receiver: Option<String>,
        message_type: Option<String>,
        message: String,
    ) -> (e: Self)
        ensures
            e.sender_actor == sender_actor,
            e.sender_endpoint == sender_endpoint,
            e.receiver@ == text_or_empty(receiver),
            e.message_type@ == text_or_empty(message_type),
            e.message == message,
    {
        WireEnvelope {
            sender_actor,
            sender_endpoint,
            receiver: or_empty(receiver),
            message_type: or_empty(message_type),
            message,
        }
    }
}

/// A framed message waiting to be pushed to the process at `endpoint`.
#[derive(Debug, Clone)]
pub struct SendRequest {
    /// Endpoint of the process the envelope goes to
    pub endpoint: String,
    /// The framed message
    pub envelope: WireEnvelope,
}

} // verus!
