//! Identifiers of build targets.

use vstd::prelude::*;

verus! {

/// Identifies a build target by its URI.
#[derive(Debug, Clone, PartialEq, Eq)]
pub struct BspBuildTargetIdentifier {
    pub uri: String,
}

impl BspBuildTargetIdentifier {
    /// The build target at `uri`.
    pub fn new(uri: String) -> (r: BspBuildTargetIdentifier)
        ensures
            r.uri == uri,
    {
        BspBuildTargetIdentifier { uri: uri }
    }

    /// The URI of the build target.
    pub fn uri(&self) -> (r: &str)
        ensures
            r@ == self.uri@,
    {
        self.uri.as_str()
    }

    /// Sets the URI of the build target.
    pub fn set_uri(&mut self, uri: String)
        ensures
            final(self).uri == uri,
    {
        self.uri = uri;
    }

    /// Whether the URI is empty.
    pub fn is_empty(&self) -> (r: bool)
        ensures
            r == (self.uri@.len() == 0),
    {
        self.uri.as_str().is_empty()
    }
}

/// The identifier with an empty URI.
impl Default for BspBuildTargetIdentifier {
    fn default() -> (r: BspBuildTargetIdentifier)
        ensures
            r.uri@.len() == 0,
    {
        BspBuildTargetIdentifier { uri: String::new() }
    }
}

} // verus!
