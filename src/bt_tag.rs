//! Tags of build targets.

use vstd::prelude::*;

verus! {

/// A tag that categorizes a build target.
#[derive(Debug, Clone, PartialEq, Eq)]
pub enum BuildTargetTag {
    /// Reusable functionality for other targets.
    Libary,
    /// Source code of an application.
    Application,
    /// Source code for testing.
    Test,
    /// Source code for integration testing, which runs slower and needs more.
    IntegrationTest,
    /// Source code to measure performance.
    Benchmark,
    /// A target that IDEs should ignore.
    NoIDE,
    /// Actions on the target are only run when asked for explicitly.
    Manual,
    /// A tag the protocol does not name.
    Custom(String),
}

impl BuildTargetTag {
    /// A tag of the client's or server's own.
    pub fn custom(value: String) -> (r: BuildTargetTag)
        ensures
            r == BuildTargetTag::Custom(value),
    {
        BuildTargetTag::Custom(value)
    }
}

/// A target is ignored by IDEs unless tagged otherwise.
impl Default for BuildTargetTag {
    fn default() -> (r: BuildTargetTag)
        ensures
            r == BuildTargetTag::NoIDE,
    {
        BuildTargetTag::NoIDE
    }
}

} // verus!
