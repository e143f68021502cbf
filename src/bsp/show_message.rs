//! Asking the client to show a message.
use crate::bsp::task_id::BspTaskId;
use crate::message_type::MessageType;
use vstd::prelude::*;

verus! {

/// The server asks the client to show a particular message in its user interface.
#[derive(Debug, Clone)]
pub struct ShowMessage {
    /// The message type.
    pub typ: MessageType,
    /// The task id, if any.
    pub task: Option<BspTaskId>,
    /// The id of the request that led to this message, if the client gave one.
    pub origin_id: Option<String>,
    /// The actual message.
    pub message: String,
}

impl ShowMessage {
    /// A message with all its parts.
    pub fn new(typ: MessageType, task: Option<BspTaskId>, origin_id: Option<String>, message: String) -> (r: ShowMessage)
        ensures
            r.typ == typ,
            r.task == task,
            r.origin_id == origin_id,
            r.message == message,
    {
        ShowMessage { typ: typ, task: task, origin_id: origin_id, message: message }
    }

    /// A message without task and origin.
    pub fn new_simple(typ: MessageType, message: String) -> (r: ShowMessage)
        ensures
            r.typ == typ,
            r.task is None,
            r.origin_id is None,
            r.message == message,
    {
        ShowMessage { typ: typ, task: None, origin_id: None, message: message }
    }
}

} // verus!
