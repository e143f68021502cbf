//! Asking the client to show a message.
use crate::message_type::MessageType;
use crate::task::TaskId;
use vstd::prelude::*;

verus! {

/// The server asks the client to show a particular message in its user interface.
#[derive(Debug, Clone)]
pub struct ShowMessage {
    /// The message type.
    pub typ: MessageType,
    /// The actual message.
    pub message: String,
    /// The task id, if any.
    pub task: Option<TaskId>,
    /// The id of the request that led to this message, if the client gave one.
    pub origin_id: Option<String>,
}

impl ShowMessage {
    /// A message of the given type.
    pub fn new(typ: MessageType, msg: String, task: Option<TaskId>, orid: Option<String>) -> (r: ShowMessage)
        ensures
            r.typ == typ,
            r.task == task,
            r.origin_id == orid,
            r.message == msg,
    {
        ShowMessage { typ: typ, task: task, origin_id: orid, message: msg }
    }

    /// An information message.
    pub fn info(msg: String, task: Option<TaskId>, orid: Option<String>) -> (r: ShowMessage)
        ensures
            r.typ == MessageType::Info,
            r.message == msg,
            r.task == task,
            r.origin_id == orid,
    {
        Self::new(MessageType::Info, msg, task, orid)
    }

    /// A log message.
    pub fn log(msg: String, task: Option<TaskId>, orid: Option<String>) -> (r: ShowMessage)
        ensures
            r.typ == MessageType::Log,
            r.message == msg,
            r.task == task,
            r.origin_id == orid,
    {
        Self::new(MessageType::Log, msg, task, orid)
    }

    /// A warning message.
    pub fn warn(msg: String, task: Option<TaskId>, orid: Option<String>) -> (r: ShowMessage)
        ensures
            r.typ == MessageType::Warning,
            r.message == msg,
            r.task == task,
            r.origin_id == orid,
    {
        Self::new(MessageType::Warning, msg, task, orid)
    }

    /// An error message.
    pub fn error(msg: String, task: Option<TaskId>, orid: Option<String>) -> (r: ShowMessage)
        ensures
            r.typ == MessageType::Error,
            r.message == msg,
            r.task == task,
            r.origin_id == orid,
    {
        Self::new(MessageType::Error, msg, task, orid)
    }
}

} // verus!
