//! The sources of the dependencies of build targets.
use crate::bt_identifier::{BuildTargetIdentifier, TextDocumentIdentifier};
use vstd::prelude::*;

verus! {

/// The document whose dependency sources are asked for.
#[derive(Debug, Clone, PartialEq, Eq)]
pub struct BuildTargetDependencySources {
    pub text_document: TextDocumentIdentifier,
}

impl BuildTargetDependencySources {
    /// Params for the given document.
    pub fn new(text_document: TextDocumentIdentifier) -> (r: BuildTargetDependencySources)
        ensures
            r.text_document == text_document,
    {
        BuildTargetDependencySources { text_document: text_document }
    }

    /// The document.
    pub fn text_document(&self) -> (r: &TextDocumentIdentifier)
        ensures
            *r == self.text_document,
    {
        &self.text_document
    }

    /// Sets the document.
    pub fn set_text_document(&mut self, text_document: TextDocumentIdentifier)
        ensures
            final(self).text_document == text_document,
    {
        self.text_document = text_document;
    }
}

/// The dependency sources of build targets.
#[derive(Debug, Clone, PartialEq, Eq)]
pub struct BuildTargetDependencySourcesResult {
    pub items: Vec<DependencySourcesItem>,
}

/// The dependency sources of one build target.
#[derive(Debug, Clone, PartialEq, Eq)]
pub struct DependencySourcesItem {
    pub target: BuildTargetIdentifier,
    /// The source files.
    pub sources: Vec<String>,
}

impl DependencySourcesItem {
    /// The source files.
    pub fn sources(&self) -> (r: &[String])
        ensures
            r@ == self.sources@,
    {
        self.sources.as_slice()
    }

    /// The build target.
    pub fn target(&self) -> (r: &BuildTargetIdentifier)
        ensures
            *r == self.target,
    {
        &self.target
    }

    /// Sets the build target.
    pub fn set_target(&mut self, target: BuildTargetIdentifier)
        ensures
            final(self).target == target,
            final(self).sources == old(self).sources,
    {
        self.target = target;
    }

    /// Sets the source files.
    pub fn set_sources(&mut self, sources: Vec<String>)
        ensures
            final(self).sources == sources,
            final(self).target == old(self).target,
    {
        self.sources = sources;
    }
}

} // verus!
