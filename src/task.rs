//! Tasks: their ids, the kind of data they report, and how they end.
use vstd::string::*;
use vstd::prelude::*;

verus! {

/// Identifies a task, and the tasks it is a sub-task of.
#[derive(Debug, Clone, PartialEq, Eq)]
pub struct TaskId {
    /// A unique identifier.
    pub id: String,
    /// The ids of the parent tasks, if any.
    pub parents: Vec<String>,
}

impl TaskId {
    /// A task without parents.
    pub fn new_simple(id: String) -> (r: TaskId)
        ensures
            r.id == id,
            r.parents@.len() == 0,
    {
        TaskId { id: id, parents: Vec::new() }
    }

    /// A task with the given parents.
    pub fn new(id: String, parents: Vec<String>) -> (r: TaskId)
        ensures
            r.id == id,
            r.parents == parents,
    {
        TaskId { id: id, parents: parents }
    }

    /// Adds a parent to the ones already known.
    pub fn add_parent(&mut self, value: String)
        ensures
            final(self).id == old(self).id,
            final(self).parents@ == old(self).parents@.push(value),
    {
        self.parents.push(value)
    }
}

/// The kind of data that a task notification carries.
#[derive(Debug, Clone, PartialEq, Eq)]
pub enum TaskDataKind {
    CompileTask,
    CompileReport,
    TestTask,
    TestReport,
    TestStart,
    TestFinish,
    /// A kind of data the protocol does not name.
    Custom(String),
    /// No data.
    NoData,
}

/// The name of a kind of task data on the wire; `None` for no data.
pub open spec fn task_data_kind_name(k: TaskDataKind) -> Option<Seq<char>> {
    match k {
        TaskDataKind::CompileTask => Some("compile-task"@),
        TaskDataKind::CompileReport => Some("compile-report"@),
        TaskDataKind::TestTask => Some("test-task"@),
        TaskDataKind::TestReport => Some("test-report"@),
        TaskDataKind::TestStart => Some("test-start"@),
        TaskDataKind::TestFinish => Some("test-finish"@),
        TaskDataKind::Custom(x) => Some(x@),
        TaskDataKind::NoData => None,
    }
}

/// The kind of task data a name on the wire stands for; no name means no data.
pub open spec fn task_data_kind_of(name: Option<String>) -> TaskDataKind {
    match name {
        None => TaskDataKind::NoData,
        Some(s) => 
            if s@ == "compile-task"@ {
                TaskDataKind::CompileTask
            } else if s@ == "compile-report"@ {
                TaskDataKind::CompileReport
            } else if s@ == "test-task"@ {
                TaskDataKind::TestTask
            } else if s@ == "test-report"@ {
                TaskDataKind::TestReport
            } else if s@ == "test-start"@ {
                TaskDataKind::TestStart
            } else if s@ == "test-finish"@ {
                TaskDataKind::TestFinish
            } else {
                TaskDataKind::Custom(s)
            },
    }
}

impl TaskDataKind {
    /// Whether there is no data.
    pub fn is_none(&self) -> (r: bool)
        ensures
            r == (*self is NoData),
    {
        match self {
            TaskDataKind::NoData => true,
            _ => false,
        }
    }

    /// The name of this kind on the wire; `None` for no data.
    pub fn name(&self) -> (r: Option<&str>)
        ensures
            r is None <==> task_data_kind_name(*self) is None,
            r matches Some(s) ==> task_data_kind_name(*self) == Some(s@),
    {
        match self {
            TaskDataKind::CompileTask => Some("compile-task"),
            TaskDataKind::CompileReport => Some("compile-report"),
            TaskDataKind::TestTask => Some("test-task"),
            TaskDataKind::TestReport => Some("test-report"),
            TaskDataKind::TestStart => Some("test-start"),
            TaskDataKind::TestFinish => Some("test-finish"),
            TaskDataKind::Custom(x) => Some(x.as_str()),
            TaskDataKind::NoData => None,
        }
    }

    /// The kind a name on the wire stands for: a name the protocol does not
    /// know is kept as `Custom`, and no name means no data.
    pub fn from_name(name: Option<String>) -> (r: TaskDataKind)
        ensures
            r == task_data_kind_of(name),
    {
        match name {
            None => TaskDataKind::NoData,
            Some(s) => 
                if crate::json::text_is(&s, "compile-task") {
                    TaskDataKind::CompileTask
                } else if crate::json::text_is(&s, "compile-report") {
                    TaskDataKind::CompileReport
                } else if crate::json::text_is(&s, "test-task") {
                    TaskDataKind::TestTask
                } else if crate::json::text_is(&s, "test-report") {
                    TaskDataKind::TestReport
                } else if crate::json::text_is(&s, "test-start") {
                    TaskDataKind::TestStart
                } else if crate::json::text_is(&s, "test-finish") {
                    TaskDataKind::TestFinish
                } else {
                    TaskDataKind::Custom(s)
                },
        }
    }
}

/// A task reports no data unless said otherwise.
impl Default for TaskDataKind {
    fn default() -> (r: TaskDataKind)
        ensures
            r == TaskDataKind::NoData,
    {
        TaskDataKind::NoData
    }
}

/// How a task ended.
#[derive(Debug, Clone, Copy, PartialEq, Eq, Structural)]
pub enum TaskStatus {
    /// Execution was successful.
    Succeeded,
    /// Execution failed.
    Error,
    /// Execution was cancelled.
    Cancelled,
}

/// The number each status has on the wire.
pub open spec fn task_status_code(s: TaskStatus) -> u8 {
    match s {
        TaskStatus::Succeeded => 1,
        TaskStatus::Error => 2,
        TaskStatus::Cancelled => 3,
    }
}

impl TaskStatus {
    /// Whether the task succeeded.
    pub fn is_ok(&self) -> (r: bool)
        ensures
            r == (*self is Succeeded),
    {
        match self {
            TaskStatus::Succeeded => true,
            _ => false,
        }
    }

    /// Whether the task failed.
    pub fn is_error(&self) -> (r: bool)
        ensures
            r == (*self is Error),
    {
        match self {
            TaskStatus::Error => true,
            _ => false,
        }
    }

    /// Whether the task was cancelled.
    pub fn is_cancelled(&self) -> (r: bool)
        ensures
            r == (*self is Cancelled),
    {
        match self {
            TaskStatus::Cancelled => true,
            _ => false,
        }
    }

    /// The number this status has on the wire.
    pub fn code(self) -> (r: u8)
        ensures
            r == task_status_code(self),
    {
        match self {
            TaskStatus::Succeeded => 1,
            TaskStatus::Error => 2,
            TaskStatus::Cancelled => 3,
        }
    }

    /// The name of this status: `Ok`, `Error` or `Cancelled`.
    pub fn to_display_string(&self) -> (r: &str)
        ensures
            *self is Succeeded ==> r@ == "Ok"@,
            *self is Error ==> r@ == "Error"@,
            *self is Cancelled ==> r@ == "Cancelled"@,
    {
        match self {
            TaskStatus::Succeeded => "Ok",
            TaskStatus::Error => "Error",
            TaskStatus::Cancelled => "Cancelled",
        }
    }
}

/// A task succeeded unless said otherwise.
impl Default for TaskStatus {
    fn default() -> (r: TaskStatus)
        ensures
            r == TaskStatus::Succeeded,
    {
        TaskStatus::Succeeded
    }
}

} // verus!
