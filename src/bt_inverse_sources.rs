//! The build targets that contain a document.
use crate::bt_identifier::{BuildTargetIdentifier, TextDocumentIdentifier};
use vstd::prelude::*;

verus! {

/// The document whose build targets are asked for.
#[derive(Debug, Clone, PartialEq, Eq)]
pub struct TextDocumentInverseSources {
    pub text_document: TextDocumentIdentifier,
}

impl TextDocumentInverseSources {
    /// Params for the given document.
    pub fn new(text_document: TextDocumentIdentifier) -> (r: TextDocumentInverseSources)
        ensures
            r.text_document == text_document,
    {
        TextDocumentInverseSources { text_document: text_document }
    }

    /// The document.
    pub fn text_document(&self) -> (r: &TextDocumentIdentifier)
        ensures
            *r == self.text_document,
    {
        &self.text_document
    }

    /// Sets the document.
    pub fn set_text_document(&mut self, text_document: TextDocumentIdentifier)
        ensures
            final(self).text_document == text_document,
    {
        self.text_document = text_document;
    }
}

/// The build targets that contain a document.
#[derive(Debug, Clone, PartialEq, Eq)]
pub struct BuildTargetInverseSourcesResult {
    pub targets: Vec<BuildTargetIdentifier>,
}

} // verus!
