//! Identifiers of build targets and documents, by URI.

use vstd::prelude::*;

verus! {

/// Identifies a build target by its URI.
#[derive(Debug, Clone, PartialEq, Eq)]
pub struct BuildTargetIdentifier {
    pub uri: String,
}

impl BuildTargetIdentifier {
    /// The build target at `uri`.
    pub fn new(uri: String) -> (r: BuildTargetIdentifier)
        ensures
            r.uri == uri,
    {
        BuildTargetIdentifier { uri: uri }
    }

    /// The URI of the build target.
    pub fn uri(&self) -> (r: &str)
        ensures
            r@ == self.uri@,
    {
        self.uri.as_str()
    }

    /// Sets the URI of the build target.
    pub fn set_uri(&mut self, uri: String)
        ensures
            final(self).uri == uri,
    {
        self.uri = uri;
    }
}

/// Identifies a text document by its URI.
#[derive(Debug, Clone, PartialEq, Eq)]
pub struct TextDocumentIdentifier {
    pub uri: String,
}

impl TextDocumentIdentifier {
    /// The document at `uri`.
    pub fn new(uri: String) -> (r: TextDocumentIdentifier)
        ensures
            r.uri == uri,
    {
        TextDocumentIdentifier { uri: uri }
    }
}

} // verus!
