//! Resetting what is kept for build targets.
use crate::bsp::bt_identifier::BspBuildTargetIdentifier;
use vstd::prelude::*;

verus! {

/// The build targets whose state is to be reset.
#[derive(Debug, Clone, PartialEq, Eq)]
pub struct BTCleanCacheParams {
    /// The build targets to clean.
    pub targets: Vec<BspBuildTargetIdentifier>,
}

impl BTCleanCacheParams {
    /// The build targets.
    pub fn targets(&self) -> (r: &[BspBuildTargetIdentifier])
        ensures
            r@ == self.targets@,
    {
        self.targets.as_slice()
    }

    /// The build targets, to change in place.
    pub fn targets_mut(&mut self) -> (r: &mut Vec<BspBuildTargetIdentifier>)
        ensures
            *r == old(self).targets,
            final(self).targets == *final(r),
    {
        &mut self.targets
    }

    /// Whether there is no build target.
    pub fn is_empty(&self) -> (r: bool)
        ensures
            r == (self.targets@.len() == 0),
    {
        self.targets.len() == 0
    }

    /// Sets the build targets.
    pub fn set_targets(&mut self, targets: Vec<BspBuildTargetIdentifier>)
        ensures
            final(self).targets == targets,
    {
        self.targets = targets;
    }
}

/// The outcome of a clean cache request.
#[derive(Debug, Clone, PartialEq, Eq)]
pub struct BTCleanCacheResult {
    /// A message to show the user, if any.
    pub message: Option<String>,
    /// Whether the clean cache request was carried out.
    pub cleaned: bool,
}

impl BTCleanCacheResult {
    /// An outcome with an optional message.
    pub fn new(message: Option<String>, cleaned: bool) -> (r: BTCleanCacheResult)
        ensures
            r.message == message,
            r.cleaned == cleaned,
    {
        BTCleanCacheResult { message: message, cleaned: cleaned }
    }

    /// An outcome without a message.
    pub fn new_simple(cleaned: bool) -> (r: BTCleanCacheResult)
        ensures
            r.message is None,
            r.cleaned == cleaned,
    {
        BTCleanCacheResult { message: None, cleaned: cleaned }
    }

    /// The message to show the user, if any.
    pub fn message(&self) -> (r: Option<&String>)
        ensures
            r is None <==> self.message is None,
            r matches Some(x) ==> self.message == Some(*x),
    {
        match &self.message {
            Some(x) => Some(x),
            None => None,
        }
    }

    /// Whether the cache was cleaned.
    pub fn cleaned(&self) -> (r: bool)
        ensures
            r == self.cleaned,
    {
        self.cleaned
    }

    /// Sets whether the cache was cleaned.
    pub fn set_cleaned(&mut self, cleaned: bool)
        ensures
            final(self).cleaned == cleaned,
            final(self).message == old(self).message,
    {
        self.cleaned = cleaned;
    }

    /// Sets the message to show the user.
    pub fn set_message(&mut self, message: Option<String>)
        ensures
            final(self).message == message,
            final(self).cleaned == old(self).cleaned,
    {
        self.message = message;
    }
}

} // verus!
