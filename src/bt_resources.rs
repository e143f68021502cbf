//! The resources of build targets.
use crate::bt_identifier::BuildTargetIdentifier;
use vstd::prelude::*;

verus! {

/// The build targets whose resources are asked for.
#[derive(Debug, Clone, PartialEq, Eq)]
pub struct BuildTargetResources {
    pub targets: Vec<BuildTargetIdentifier>,
}

impl BuildTargetResources {
    /// Params for the given targets.
    pub fn new(targets: Vec<BuildTargetIdentifier>) -> (r: BuildTargetResources)
        ensures
            r.targets == targets,
    {
        BuildTargetResources { targets: targets }
    }

    /// The build targets.
    pub fn targets(&self) -> (r: &[BuildTargetIdentifier])
        ensures
            r@ == self.targets@,
    {
        self.targets.as_slice()
    }

    /// Sets the build targets.
    pub fn set_targets(&mut self, targets: Vec<BuildTargetIdentifier>)
        ensures
            final(self).targets == targets,
    {
        self.targets = targets;
    }

    /// The build targets, to change in place.
    pub fn targets_mut(&mut self) -> (r: &mut Vec<BuildTargetIdentifier>)
        ensures
            *r == old(self).targets,
            final(self).targets == *final(r),
    {
        &mut self.targets
    }
}

/// The resources of build targets.
#[derive(Debug, Clone, PartialEq, Eq)]
pub struct BuildTargetResourcesResult {
    pub items: Vec<Resources>,
}

impl BuildTargetResourcesResult {
    /// A result with the given items.
    pub fn new(items: Vec<Resources>) -> (r: BuildTargetResourcesResult)
        ensures
            r.items == items,
    {
        BuildTargetResourcesResult { items: items }
    }

    /// The items, one per build target.
    pub fn items(&self) -> (r: &[Resources])
        ensures
            r@ == self.items@,
    {
        self.items.as_slice()
    }

    /// The items, to change in place.
    pub fn items_mut(&mut self) -> (r: &mut Vec<Resources>)
        ensures
            *r == old(self).items,
            final(self).items == *final(r),
    {
        &mut self.items
    }
}

/// A result without items.
impl Default for BuildTargetResourcesResult {
    fn default() -> (r: BuildTargetResourcesResult)
        ensures
            r.items@.len() == 0,
    {
        BuildTargetResourcesResult { items: Vec::new() }
    }
}

/// The resources of one build target.
#[derive(Debug, Clone, PartialEq, Eq)]
pub struct Resources {
    pub target: BuildTargetIdentifier,
    /// The resource files.
    pub resources: Vec<String>,
}

impl Resources {
    /// The resources of `target`.
    pub fn new(target: BuildTargetIdentifier, resources: Vec<String>) -> (r: Resources)
        ensures
            r.target == target,
            r.resources == resources,
    {
        Resources { target: target, resources: resources }
    }

    /// Sets the build target.
    pub fn set_target(&mut self, target: BuildTargetIdentifier)
        ensures
            final(self).target == target,
            final(self).resources == old(self).resources,
    {
        self.target = target;
    }

    /// The build target.
    pub fn target(&self) -> (r: &BuildTargetIdentifier)
        ensures
            *r == self.target,
    {
        &self.target
    }

    /// Sets the resource files.
    pub fn set_resources(&mut self, resources: Vec<String>)
        ensures
            final(self).resources == resources,
            final(self).target == old(self).target,
    {
        self.resources = resources;
    }

    /// The resource files.
    pub fn resources(&self) -> (r: &[String])
        ensures
            r@ == self.resources@,
    {
        self.resources.as_slice()
    }
}

} // verus!
