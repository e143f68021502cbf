//! Changes of build targets.

use crate::bt_identifier::BuildTargetIdentifier;
use crate::json::Json;
use vstd::prelude::*;

verus! {

/// How a build target changed.
#[derive(Debug, Clone, Copy, PartialEq, Eq, Structural)]
pub enum BuildTargetEventKind {
    /// The build target is new.
    Created,
    /// The build target has changed.
    Changed,
    /// The build target has been deleted.
    Deleted,
}

/// The number each kind of change has on the wire.
pub open spec fn event_kind_code(k: BuildTargetEventKind) -> u16 {
    match k {
        BuildTargetEventKind::Created => 1,
        BuildTargetEventKind::Changed => 2,
        BuildTargetEventKind::Deleted => 3,
    }
}

impl BuildTargetEventKind {
    /// The number this kind of change has on the wire.
    pub fn code(self) -> (r: u16)
        ensures
            r == event_kind_code(self),
    {
        match self {
            BuildTargetEventKind::Created => 1,
            BuildTargetEventKind::Changed => 2,
            BuildTargetEventKind::Deleted => 3,
        }
    }
}

/// A change is a creation unless said otherwise.
impl Default for BuildTargetEventKind {
    fn default() -> (r: BuildTargetEventKind)
        ensures
            r == BuildTargetEventKind::Created,
    {
        BuildTargetEventKind::Created
    }
}

/// Build targets have changed.
#[derive(Debug, Clone)]
pub struct BuildTargetDidChange {
    pub changes: Vec<BuildTargetEvent>,
}

/// A change of one build target.
#[derive(Debug, Clone)]
pub struct BuildTargetEvent {
    /// The build target that changed.
    pub target: BuildTargetIdentifier,
    /// How it changed, if said.
    pub kind: Option<BuildTargetEventKind>,
    /// More about what changed, if anything.
    pub data: Option<Json>,
}

impl BuildTargetEvent {
    /// An event with all its parts.
    pub fn new(target: BuildTargetIdentifier, kind: Option<BuildTargetEventKind>, data: Option<Json>) -> (r: BuildTargetEvent)
        ensures
            r.target == target,
            r.kind == kind,
            r.data == data,
    {
        BuildTargetEvent { target: target, kind: kind, data: data }
    }

    /// An event that says only which target changed.
    pub fn new_simple(target: BuildTargetIdentifier) -> (r: BuildTargetEvent)
        ensures
            r.target == target,
            r.kind is None,
            r.data is None,
    {
        BuildTargetEvent { target: target, kind: None, data: None }
    }
}

} // verus!
