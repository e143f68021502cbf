//! Starting a debug session.
use crate::bt_identifier::BuildTargetIdentifier;
use crate::json::Json;
use vstd::prelude::*;

verus! {

/// The params of a request to debug build targets.
#[derive(Debug, Clone)]
pub struct DebugSessionStart {
    /// The build targets to debug.
    pub targets: Vec<BuildTargetIdentifier>,
    /// The kind of the data.
    pub data_kind: String,
    /// Language-specific data.
    pub data: Json,
}

impl DebugSessionStart {
    /// Params with all their parts.
    pub fn new(targets: Vec<BuildTargetIdentifier>, data_kind: String, data: Json) -> (r: DebugSessionStart)
        ensures
            r.targets == targets,
            r.data_kind == data_kind,
            r.data == data,
    {
        DebugSessionStart { targets: targets, data_kind: data_kind, data: data }
    }

    /// The build targets to debug.
    pub fn targets(&self) -> (r: &[BuildTargetIdentifier])
        ensures
            r@ == self.targets@,
    {
        self.targets.as_slice()
    }

    /// The kind of the data.
    pub fn data_kind(&self) -> (r: &str)
        ensures
            r@ == self.data_kind@,
    {
        self.data_kind.as_str()
    }

    /// The data.
    pub fn data(&self) -> (r: &Json)
        ensures
            *r == self.data,
    {
        &self.data
    }

    /// Sets the build targets to debug.
    pub fn set_targets(&mut self, targets: Vec<BuildTargetIdentifier>)
        ensures
            final(self).targets == targets,
            final(self).data_kind == old(self).data_kind,
            final(self).data == old(self).data,
    {
        self.targets = targets;
    }

    /// Sets the kind of the data.
    pub fn set_data_kind(&mut self, data_kind: String)
        ensures
            final(self).data_kind == data_kind,
            final(self).targets == old(self).targets,
            final(self).data == old(self).data,
    {
        self.data_kind = data_kind;
    }

    /// Sets the data.
    pub fn set_data(&mut self, data: Json)
        ensures
            final(self).data == data,
            final(self).targets == old(self).targets,
            final(self).data_kind == old(self).data_kind,
    {
        self.data = data;
    }
}

/// Where the debug adapter of a started debug session listens.
#[derive(Debug, Clone, PartialEq, Eq)]
pub struct DebugSessionStartResult {
    /// The URI of the debug adapter's server.
    pub uri: String,
}

} // verus!
