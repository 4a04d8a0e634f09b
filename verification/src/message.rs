//! The `Message` trait that every payload type of the framework implements.

use vstd::prelude::*;

use crate::wire::WirePayload;

verus! {

/// Trait for all messages in the actor system.
///
/// Messages must be `Send + 'static` to be passed between threads. A message
/// that may travel to another process also says under which type name and
/// with which JSON field text it goes on the wire.
pub trait Message: Send + 'static {
    /// The message id used for cross-language dispatch; 0 for a message
    /// that has none.
    fn message_id(&self) -> (id: i32)
        default_ensures
            id == 0,
    {
        0
    }

    /// Whether this message asks the actor that receives it to shut down:
    /// once the actor has processed it, its runtime stops taking new work
    /// and drains what is already queued. By default a message does not.
    fn is_shutdown(&self) -> (s: bool)
        default_ensures
            !s,
    {
        false
    }

    /// The registered type name and the JSON text of the fields under which
    /// this message travels to another process, or `None` when the type is
    /// not registered for remote use.
    fn wire_payload(&self) -> (p: Option<WirePayload>)
        default_ensures
            p is None,
    {
        None
    }
}

} // verus!
