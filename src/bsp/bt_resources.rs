//! The resources of build targets.
use crate::bsp::bt_identifier::BspBuildTargetIdentifier;
use vstd::prelude::*;

verus! {

/// The build targets whose resources are asked for.
#[derive(Debug, Clone, PartialEq, Eq)]
pub struct BspResourcesParams {
    pub targets: Vec<BspBuildTargetIdentifier>,
}

impl BspResourcesParams {
    /// Params for the given targets.
    pub fn new(targets: Vec<BspBuildTargetIdentifier>) -> (r: BspResourcesParams)
        ensures
            r.targets == targets,
    {
        BspResourcesParams { targets: targets }
    }

    /// The build targets.
    pub fn targets(&self) -> (r: &[BspBuildTargetIdentifier])
        ensures
            r@ == self.targets@,
    {
        self.targets.as_slice()
    }

    /// Sets the build targets.
    pub fn set_targets(&mut self, targets: Vec<BspBuildTargetIdentifier>)
        ensures
            final(self).targets == targets,
    {
        self.targets = targets;
    }

    /// The build targets, to change in place.
    pub fn targets_mut(&mut self) -> (r: &mut Vec<BspBuildTargetIdentifier>)
        ensures
            *r == old(self).targets,
            final(self).targets == *final(r),
    {
        &mut self.targets
    }
}

/// The resources of build targets.
#[derive(Debug, Clone, PartialEq, Eq)]
pub struct BspResourcesResult {
    pub items: Vec<BspResourcesItem>,
}

impl BspResourcesResult {
    /// A result with the given items.
    pub fn new(items: Vec<BspResourcesItem>) -> (r: BspResourcesResult)
        ensures
            r.items == items,
    {
        BspResourcesResult { items: items }
    }

    /// The items, one per build target.
    pub fn items(&self) -> (r: &[BspResourcesItem])
        ensures
            r@ == self.items@,
    {
        self.items.as_slice()
    }

    /// The items, to change in place.
    pub fn items_mut(&mut self) -> (r: &mut Vec<BspResourcesItem>)
        ensures
            *r == old(self).items,
            final(self).items == *final(r),
    {
        &mut self.items
    }
}

/// A result without items.
impl Default for BspResourcesResult {
    fn default() -> (r: BspResourcesResult)
        ensures
            r.items@.len() == 0,
    {
        BspResourcesResult { items: Vec::new() }
    }
}

/// The resources of one build target.
#[derive(Debug, Clone, PartialEq, Eq)]
pub struct BspResourcesItem {
    pub target: BspBuildTargetIdentifier,
    /// The resource files.
    pub resources: Vec<String>,
}

impl BspResourcesItem {
    /// The resources of `target`.
    pub fn new(target: BspBuildTargetIdentifier, resources: Vec<String>) -> (r: BspResourcesItem)
        ensures
            r.target == target,
            r.resources == resources,
    {
        BspResourcesItem { target: target, resources: resources }
    }

    /// Sets the build target.
    pub fn set_target(&mut self, target: BspBuildTargetIdentifier)
        ensures
            final(self).target == target,
            final(self).resources == old(self).resources,
    {
        self.target = target;
    }

    /// The build target.
    pub fn target(&self) -> (r: &BspBuildTargetIdentifier)
        ensures
            *r == self.target,
    {
        &self.target
    }

    /// Sets the resource files.
    pub fn set_resources(&mut self, resources: Vec<String>)
        ensures
            final(self).resources == resources,
            final(self).target == old(self).target,
    {
        self.resources = resources;
    }

    /// The resource files.
    pub fn resources(&self) -> (r: &[String])
        ensures
            r@ == self.resources@,
    {
        self.resources.as_slice()
    }
}

} // verus!
