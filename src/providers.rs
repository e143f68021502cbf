//! The languages for which the server offers each service.

use vstd::prelude::*;

verus! {

/// The languages for which the server can compile build targets.
#[derive(Debug, Clone, PartialEq, Eq)]
pub struct CompileProvider {
    pub language_ids: Vec<String>,
}

/// No language.
impl Default for CompileProvider {
    fn default() -> (r: CompileProvider)
        ensures
            r.language_ids@.len() == 0,
    {
        CompileProvider { language_ids: Vec::new() }
    }
}

/// The languages for which the server can test build targets.
#[derive(Debug, Clone, PartialEq, Eq)]
pub struct TestProvider {
    pub language_ids: Vec<String>,
}

/// No language.
impl Default for TestProvider {
    fn default() -> (r: TestProvider)
        ensures
            r.language_ids@.len() == 0,
    {
        TestProvider { language_ids: Vec::new() }
    }
}

/// The languages for which the server can run build targets.
#[derive(Debug, Clone, PartialEq, Eq)]
pub struct RunProvider {
    pub language_ids: Vec<String>,
}

/// No language.
impl Default for RunProvider {
    fn default() -> (r: RunProvider)
        ensures
            r.language_ids@.len() == 0,
    {
        RunProvider { language_ids: Vec::new() }
    }
}

/// The languages for which the server can debug build targets.
#[derive(Debug, Clone, PartialEq, Eq)]
pub struct DebugProvider {
    pub language_ids: Vec<String>,
}

/// No language.
impl Default for DebugProvider {
    fn default() -> (r: DebugProvider)
        ensures
            r.language_ids@.len() == 0,
    {
        DebugProvider { language_ids: Vec::new() }
    }
}

} // verus!
