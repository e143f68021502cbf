//! The build targets of the workspace.
use crate::bsp::bt_capabilities::BspBuildTargetCapabilities;
use crate::bsp::bt_identifier::BspBuildTargetIdentifier;
use crate::bt_tag::BuildTargetTag;
use vstd::prelude::*;

verus! {

/// A build target of the workspace.
#[derive(Debug, Clone)]
pub struct BuildTarget {
    /// The identifier of the target.
    pub id: BspBuildTargetIdentifier,
    /// A name to show the user, if any.
    pub display_name: Option<String>,
    /// The directory of the target, if any.
    pub base_directory: Option<String>,
    /// The tags of the target.
    pub tags: Vec<BuildTargetTag>,
    /// What the server can do with the target.
    pub capabilities: BspBuildTargetCapabilities,
    /// The languages of the sources of the target.
    pub language_ids: Vec<String>,
    /// The targets this one depends on.
    pub dependencies: Vec<BspBuildTargetIdentifier>,
}

impl BuildTarget {
    /// A build target with all its parts.
    pub fn new(id: BspBuildTargetIdentifier, display_name: Option<String>, base_directory: Option<String>, tags: Vec<BuildTargetTag>, capabilities: BspBuildTargetCapabilities, language_ids: Vec<String>, dependencies: Vec<BspBuildTargetIdentifier>) -> (r: BuildTarget)
        ensures
            r.id == id,
            r.display_name == display_name,
            r.base_directory == base_directory,
            r.tags == tags,
            r.capabilities == capabilities,
            r.language_ids == language_ids,
            r.dependencies == dependencies,
    {
        BuildTarget { id: id, display_name: display_name, base_directory: base_directory, tags: tags, capabilities: capabilities, language_ids: language_ids, dependencies: dependencies }
    }

    /// A build target without display name and base directory.
    pub fn new_simple(id: BspBuildTargetIdentifier, tags: Vec<BuildTargetTag>, capabilities: BspBuildTargetCapabilities, language_ids: Vec<String>, dependencies: Vec<BspBuildTargetIdentifier>) -> (r: BuildTarget)
        ensures
            r.id == id,
            r.display_name is None,
            r.base_directory is None,
            r.tags == tags,
            r.capabilities == capabilities,
            r.language_ids == language_ids,
            r.dependencies == dependencies,
    {
        BuildTarget { id: id, display_name: None, base_directory: None, tags: tags, capabilities: capabilities, language_ids: language_ids, dependencies: dependencies }
    }
}

/// The build targets of the workspace.
#[derive(Debug, Clone)]
pub struct WorkspaceBuildTargetsResult {
    pub targets: Vec<BuildTarget>,
}

impl WorkspaceBuildTargetsResult {
    /// A result with the given targets.
    pub fn new(targets: Vec<BuildTarget>) -> (r: WorkspaceBuildTargetsResult)
        ensures
            r.targets == targets,
    {
        WorkspaceBuildTargetsResult { targets: targets }
    }
}

/// No target.
impl Default for WorkspaceBuildTargetsResult {
    fn default() -> (r: WorkspaceBuildTargetsResult)
        ensures
            r.targets@.len() == 0,
    {
        WorkspaceBuildTargetsResult { targets: Vec::new() }
    }
}

} // verus!
