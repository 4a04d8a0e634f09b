//! The registry of message types that may travel between processes.
//!
//! Each registered type name maps to an entry (for instance the decoder that
//! turns JSON fields into a message); looking a name up gives that entry or
//! the reason the incoming message is refused.

use vstd::prelude::*;

use crate::names::NameMap;

verus! {

/// Registered message types, by type name.
pub struct MessageRegistry<E> {
    entries: NameMap<E>,
}

impl<E> View for MessageRegistry<E> {
    type V = Map<Seq<char>, E>;

    closed spec fn view(&self) -> Map<Seq<char>, E> {
        self.entries@
    }
}

/// The reason given when no message type is registered at all.
pub open spec fn none_registered_reason() -> Seq<char> {
    seq![
        'N',
        'o',
        ' ',
        'm',
        'e',
        's',
        's',
        'a',
        'g',
        'e',
        's',
        ' ',
        'r',
        'e',
        'g',
        'i',
        's',
        't',
        'e',
        'r',
        'e',
        'd',
    ]
}

/// The reason given when `message_type` is not registered.
pub open spec fn unknown_type_reason(message_type: Seq<char>) -> Seq<char> {
    seq![
        'U',
        'n',
        'k',
        'n',
        'o',
        'w',
        'n',
        ' ',
        'm',
        'e',
        's',
        's',
        'a',
        'g',
        'e',
        ' ',
        't',
        'y',
        'p',
        'e',
        ':',
        ' ',
    ] + message_type
}

impl<E> MessageRegistry<E> {
    /// A registry with no message type.
    pub fn new() -> (r: Self)
        ensures
            r@ == Map::<Seq<char>, E>::empty(),
    {
        MessageRegistry { entries: NameMap::new() }
    }

    /// Register a message type under `message_type`, replacing the entry
    /// registered under that name before.
    pub fn register_remote_message(&mut self, message_type: &str, entry: E)
        ensures
            final(self)@ == old(self)@.insert(message_type@, entry),
    {
        self.entries.insert(message_type.to_string(), entry);
    }

    /// Check if a message type is registered.
    pub fn is_message_registered(&self, message_type: &str) -> (b: bool)
        ensures
            b == self@.contains_key(message_type@),
    {
        self.entries.contains_key(message_type)
    }

    /// The entry of `message_type`, or the reason a message of that type is
    /// refused: "No messages registered" when no type is registered at all,
    /// "Unknown message type: <message_type>" when that one is not.
    pub fn lookup(&self, message_type: &str) -> (r: Result<&E, String>)
        ensures
            match r {
                Ok(e) => self@.contains_key(message_type@) && *e == self@[message_type@],
                Err(reason) => !self@.contains_key(message_type@) && reason@ == (if self@.dom()
                    == Set::<Seq<char>>::empty() {
                    none_registered_reason()
                } else {
                    unknown_type_reason(message_type@)
                }),
            },
    {
        if self.entries.is_empty() {
            proof {
                reveal_strlit("No messages registered");
                assert(!self@.dom().contains(message_type@));
            }
            return Err(String::from_str("No messages registered"));
        }
        match self.entries.get(message_type) {
            Some(e) => Ok(e),
            None => {
                let mut reason = String::from_str("Unknown message type: ");
                reason.append(message_type);
                proof {
                    reveal_strlit("Unknown message type: ");
                }
                Err(reason)
            },
        }
    }
}

} // verus!
