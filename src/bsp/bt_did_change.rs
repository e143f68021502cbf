//! Changes of build targets, as notified to the client.

use vstd::prelude::*;

verus! {

/// How a build target changed.
#[derive(Debug, Clone, Copy, PartialEq, Eq, Structural)]
pub enum BuildTargetEventKind {
    /// The build target is new.
    Created,
    /// The build target has changed.
    Changed,
    /// The build target has been deleted.
    Deleted,
}

/// The number each kind of change has on the wire.
pub open spec fn event_kind_code(k: BuildTargetEventKind) -> u16 {
    match k {
        BuildTargetEventKind::Created => 1,
        BuildTargetEventKind::Changed => 2,
        BuildTargetEventKind::Deleted => 3,
    }
}

impl BuildTargetEventKind {
    /// The number this kind of change has on the wire.
    pub fn code(self) -> (r: u16)
        ensures
            r == event_kind_code(self),
    {
        match self {
            BuildTargetEventKind::Created => 1,
            BuildTargetEventKind::Changed => 2,
            BuildTargetEventKind::Deleted => 3,
        }
    }
}

/// A change is a creation unless said otherwise.
impl Default for BuildTargetEventKind {
    fn default() -> (r: BuildTargetEventKind)
        ensures
            r == BuildTargetEventKind::Created,
    {
        BuildTargetEventKind::Created
    }
}

} // verus!
