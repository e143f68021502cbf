//! The libraries that build targets depend on.
use crate::bt_identifier::BuildTargetIdentifier;
use vstd::prelude::*;

verus! {

/// The build targets whose dependency modules are asked for.
#[derive(Debug, Clone, PartialEq, Eq)]
pub struct BuildTargetDependencyModules {
    pub targets: Vec<BuildTargetIdentifier>,
}

impl BuildTargetDependencyModules {
    /// The build targets.
    pub fn targets(&self) -> (r: &[BuildTargetIdentifier])
        ensures
            r@ == self.targets@,
    {
        self.targets.as_slice()
    }

    /// The build targets, to change in place.
    pub fn targets_mut(&mut self) -> (r: &mut Vec<BuildTargetIdentifier>)
        ensures
            *r == old(self).targets,
            final(self).targets == *final(r),
    {
        &mut self.targets
    }

    /// Whether there is no build target.
    pub fn is_empty(&self) -> (r: bool)
        ensures
            r == (self.targets@.len() == 0),
    {
        self.targets.len() == 0
    }

    /// Sets the build targets.
    pub fn set_targets(&mut self, targets: Vec<BuildTargetIdentifier>)
        ensures
            final(self).targets == targets,
    {
        self.targets = targets;
    }
}

/// The dependency modules of build targets.
#[derive(Debug, Clone)]
pub struct BuildTargetDependencyModulesResult {
    pub items: Vec<DependencyModulesItem>,
}

impl BuildTargetDependencyModulesResult {
    /// A result with the given items.
    pub fn new(items: Vec<DependencyModulesItem>) -> (r: BuildTargetDependencyModulesResult)
        ensures
            r.items == items,
    {
        BuildTargetDependencyModulesResult { items: items }
    }

    /// The items, one per build target.
    pub fn items(&self) -> (r: &[DependencyModulesItem])
        ensures
            r@ == self.items@,
    {
        self.items.as_slice()
    }

    /// The items, to change in place.
    pub fn items_mut(&mut self) -> (r: &mut Vec<DependencyModulesItem>)
        ensures
            *r == old(self).items,
            final(self).items == *final(r),
    {
        &mut self.items
    }
}

/// The dependency modules of one build target.
#[derive(Debug, Clone)]
pub struct DependencyModulesItem {
    pub target: BuildTargetIdentifier,
    pub modules: Vec<DependencyModule>,
}

impl DependencyModulesItem {
    /// The modules of `target`.
    pub fn new(target: BuildTargetIdentifier, modules: Vec<DependencyModule>) -> (r: DependencyModulesItem)
        ensures
            r.target == target,
            r.modules == modules,
    {
        DependencyModulesItem { target: target, modules: modules }
    }

    /// The build target.
    pub fn target(&self) -> (r: &BuildTargetIdentifier)
        ensures
            *r == self.target,
    {
        &self.target
    }

    /// Sets the modules.
    pub fn set_modules(&mut self, modules: Vec<DependencyModule>)
        ensures
            final(self).modules == modules,
            final(self).target == old(self).target,
    {
        self.modules = modules;
    }

    /// The modules.
    pub fn modules(&self) -> (r: &[DependencyModule])
        ensures
            r@ == self.modules@,
    {
        self.modules.as_slice()
    }
}

/// A library that a build target depends on.
#[derive(Debug, Clone)]
pub struct DependencyModule {
    /// The name of the module.
    pub name: String,
    /// The version of the module.
    pub version: String,
    /// The kind of the data, if any.
    pub data_kind: Option<String>,
    /// Language-specific data, if any.
    pub data: Option<serde_json::Value>,
}

impl DependencyModule {
    /// A module with all its parts.
    pub fn new(name: String, version: String, data_kind: Option<String>, data: Option<serde_json::Value>) -> (r: DependencyModule)
        ensures
            r.name == name,
            r.version == version,
            r.data_kind == data_kind,
            r.data == data,
    {
        DependencyModule { name: name, version: version, data_kind: data_kind, data: data }
    }

    /// A module without data.
    pub fn new_simple(name: String, version: String) -> (r: DependencyModule)
        ensures
            r.name == name,
            r.version == version,
            r.data_kind is None,
            r.data is None,
    {
        DependencyModule { name: name, version: version, data_kind: None, data: None }
    }

    /// The name of the module.
    pub fn name(&self) -> (r: &str)
        ensures
            r@ == self.name@,
    {
        self.name.as_str()
    }

    /// Sets the name of the module.
    pub fn set_name(&mut self, name: String)
        ensures
            final(self).name == name,
            final(self).version == old(self).version,
            final(self).data_kind == old(self).data_kind,
            final(self).data == old(self).data,
    {
        self.name = name;
    }

    /// The version of the module.
    pub fn version(&self) -> (r: &str)
        ensures
            r@ == self.version@,
    {
        self.version.as_str()
    }

    /// Sets the version of the module.
    pub fn set_version(&mut self, version: String)
        ensures
            final(self).version == version,
            final(self).name == old(self).name,
            final(self).data_kind == old(self).data_kind,
            final(self).data == old(self).data,
    {
        self.version = version;
    }

    /// The kind of the data, if any.
    pub fn data_kind(&self) -> (r: Option<&String>)
        ensures
            r is None <==> self.data_kind is None,
            r matches Some(x) ==> self.data_kind == Some(*x),
    {
        match &self.data_kind {
            Some(x) => Some(x),
            None => None,
        }
    }

    /// Sets the kind of the data.
    pub fn set_data_kind(&mut self, data_kind: Option<String>)
        ensures
            final(self).data_kind == data_kind,
            final(self).name == old(self).name,
            final(self).version == old(self).version,
            final(self).data == old(self).data,
    {
        self.data_kind = data_kind;
    }
}

} // verus!
