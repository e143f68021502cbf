//! The kind of a message for the user.

use vstd::prelude::*;

verus! {

/// The kind of a message shown or logged for the user.
#[derive(Debug, Clone, Copy, PartialEq, Eq, Structural)]
pub enum MessageType {
    /// An error message.
    Error,
    /// A warning message.
    Warning,
    /// An information message.
    Info,
    /// A log message.
    Log,
}

/// The number each message type has on the wire.
pub open spec fn message_type_code(t: MessageType) -> u16 {
    match t {
        MessageType::Error => 1,
        MessageType::Warning => 2,
        MessageType::Info => 3,
        MessageType::Log => 4,
    }
}

impl MessageType {
    /// The number this message type has on the wire.
    pub fn code(self) -> (r: u16)
        ensures
            r == message_type_code(self),
    {
        match self {
            MessageType::Error => 1,
            MessageType::Warning => 2,
            MessageType::Info => 3,
            MessageType::Log => 4,
        }
    }
}

/// A message is a log message unless said otherwise.
impl Default for MessageType {
    fn default() -> (r: MessageType)
        ensures
            r == MessageType::Log,
    {
        MessageType::Log
    }
}

} // verus!
