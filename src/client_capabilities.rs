//! What the client supports.

use vstd::prelude::*;

verus! {

/// What the client supports.
#[derive(Debug, Clone, PartialEq, Eq)]
pub struct ClientCapabilities {
    /// The languages the client supports; the server never answers with build targets for others.
    pub language_ids: Vec<String>,
}

impl ClientCapabilities {
    /// Capabilities for the given languages.
    pub fn new(language_ids: Vec<String>) -> (r: ClientCapabilities)
        ensures
            r.language_ids == language_ids,
    {
        ClientCapabilities { language_ids: language_ids }
    }

    /// Sets the languages the client supports.
    pub fn set_language_ids(&mut self, language_ids: Vec<String>)
        ensures
            final(self).language_ids == language_ids,
    {
        self.language_ids = language_ids;
    }

    /// The languages the client supports.
    pub fn language_ids(&self) -> (r: &[String])
        ensures
            r@ == self.language_ids@,
    {
        self.language_ids.as_slice()
    }

    /// The languages the client supports, to change in place.
    pub fn language_ids_mut(&mut self) -> (r: &mut Vec<String>)
        ensures
            *r == old(self).language_ids,
            final(self).language_ids == *final(r),
    {
        &mut self.language_ids
    }
}

/// Capabilities for no language.
impl Default for ClientCapabilities {
    fn default() -> (r: ClientCapabilities)
        ensures
            r.language_ids@.len() == 0,
    {
        ClientCapabilities { language_ids: Vec::new() }
    }
}

} // verus!
