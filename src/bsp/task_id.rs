//! Task ids.

use vstd::prelude::*;

verus! {

/// Identifies a task, and the tasks it is a sub-task of.
#[derive(Debug, Clone, PartialEq, Eq)]
pub struct BspTaskId {
    /// A unique identifier.
    pub id: String,
    /// The ids of the parent tasks, if any.
    pub parents: Option<Vec<String>>,
}

impl BspTaskId {
    /// A task without parents.
    pub fn new_simple(id: String) -> (r: BspTaskId)
        ensures
            r.id == id,
            r.parents is None,
    {
        BspTaskId { id: id, parents: None }
    }

    /// A task with the given parents, if any.
    pub fn new(id: String, parents: Option<Vec<String>>) -> (r: BspTaskId)
        ensures
            r.id == id,
            r.parents == parents,
    {
        BspTaskId { id: id, parents: parents }
    }
}

} // verus!
