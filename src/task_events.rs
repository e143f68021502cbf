//! Notifications of the progress of tasks.
use crate::json::Json;
use crate::task::{TaskDataKind, TaskId, TaskStatus};
use vstd::prelude::*;

verus! {

/// A task has started.
#[derive(Debug, Clone)]
pub struct TaskStart {
    /// The task.
    pub task_id: TaskId,
    /// When it happened, in milliseconds, if known.
    pub event_time: Option<u32>,
    /// A message for the user.
    pub message: String,
    /// The kind of the data.
    pub data_kind: TaskDataKind,
    /// Data of that kind.
    pub data: Json,
}

impl TaskStart {
    /// An event of the given task, with nothing else said.
    pub fn new(task_id: TaskId) -> (r: TaskStart)
        ensures
            r.task_id == task_id,
            r.event_time is None,
            r.message@.len() == 0,
            r.data_kind == TaskDataKind::NoData,
            r.data is Null,
    {
        TaskStart { task_id: task_id, event_time: None, message: String::new(), data_kind: TaskDataKind::NoData, data: Json::Null }
    }
}

/// A task has finished.
#[derive(Debug, Clone)]
pub struct TaskFinish {
    /// The task.
    pub task_id: TaskId,
    /// When it happened, in milliseconds, if known.
    pub event_time: Option<u32>,
    /// A message for the user.
    pub message: String,
    /// How the task ended.
    pub status: TaskStatus,
    /// The kind of the data.
    pub data_kind: TaskDataKind,
    /// Data of that kind.
    pub data: Json,
}

impl TaskFinish {
    /// An event of the given task, with nothing else said.
    pub fn new(task_id: TaskId) -> (r: TaskFinish)
        ensures
            r.task_id == task_id,
            r.event_time is None,
            r.message@.len() == 0,
            r.status == TaskStatus::Succeeded,
            r.data_kind == TaskDataKind::NoData,
            r.data is Null,
    {
        TaskFinish { task_id: task_id, event_time: None, message: String::new(), status: TaskStatus::Succeeded, data_kind: TaskDataKind::NoData, data: Json::Null }
    }
}

/// A task makes progress.
#[derive(Debug, Clone)]
pub struct TaskProgress {
    /// The task.
    pub task_id: TaskId,
    /// When it happened, in milliseconds, if known.
    pub event_time: Option<u32>,
    /// A message for the user.
    pub message: String,
    /// The total amount of work, if known.
    pub total: Option<u32>,
    /// The work done so far, if known.
    pub progress: Option<u32>,
    /// The unit of `total` and `progress`.
    pub unit: String,
    /// The kind of the data.
    pub data_kind: TaskDataKind,
    /// Data of that kind.
    pub data: Json,
}

} // verus!
