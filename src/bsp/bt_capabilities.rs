//! Capabilities of build targets.

use vstd::prelude::*;

verus! {

/// What the server can do with a build target.
#[derive(Debug, Clone, Copy, PartialEq, Eq)]
pub struct BspBuildTargetCapabilities {
    /// The server can compile this target.
    pub can_compile: bool,
    /// The server can test this target.
    pub can_test: bool,
    /// The server can run this target.
    pub can_run: bool,
    /// The server can debug this target.
    pub can_debug: bool,
}

impl BspBuildTargetCapabilities {
    /// Capabilities as given.
    pub fn new(can_compile: bool, can_test: bool, can_run: bool, can_debug: bool) -> (r: BspBuildTargetCapabilities)
        ensures
            r.can_compile == can_compile,
            r.can_test == can_test,
            r.can_run == can_run,
            r.can_debug == can_debug,
    {
        BspBuildTargetCapabilities { can_compile: can_compile, can_test: can_test, can_run: can_run, can_debug: can_debug }
    }

    /// Sets whether the target can be compiled.
    pub fn set_can_compile(&mut self, can_compile: bool)
        ensures
            final(self).can_compile == can_compile,
            final(self).can_test == old(self).can_test,
            final(self).can_run == old(self).can_run,
            final(self).can_debug == old(self).can_debug,
    {
        self.can_compile = can_compile;
    }

    /// Whether the target can be compiled.
    pub fn can_compile(&self) -> (r: bool)
        ensures
            r == self.can_compile,
    {
        self.can_compile
    }

    /// Sets whether the target can be tested.
    pub fn set_can_test(&mut self, can_test: bool)
        ensures
            final(self).can_test == can_test,
            final(self).can_compile == old(self).can_compile,
            final(self).can_run == old(self).can_run,
            final(self).can_debug == old(self).can_debug,
    {
        self.can_test = can_test;
    }

    /// Whether the target can be tested.
    pub fn can_test(&self) -> (r: bool)
        ensures
            r == self.can_test,
    {
        self.can_test
    }

    /// Sets whether the target can be run.
    pub fn set_can_run(&mut self, can_run: bool)
        ensures
            final(self).can_run == can_run,
            final(self).can_compile == old(self).can_compile,
            final(self).can_test == old(self).can_test,
            final(self).can_debug == old(self).can_debug,
    {
        self.can_run = can_run;
    }

    /// Whether the target can be run.
    pub fn can_run(&self) -> (r: bool)
        ensures
            r == self.can_run,
    {
        self.can_run
    }

    /// Sets whether the target can be debugged.
    pub fn set_can_debug(&mut self, can_debug: bool)
        ensures
            final(self).can_debug == can_debug,
            final(self).can_compile == old(self).can_compile,
            final(self).can_test == old(self).can_test,
            final(self).can_run == old(self).can_run,
    {
        self.can_debug = can_debug;
    }

    /// Whether the target can be debugged.
    pub fn can_debug(&self) -> (r: bool)
        ensures
            r == self.can_debug,
    {
        self.can_debug
    }
}

/// No capability.
impl Default for BspBuildTargetCapabilities {
    fn default() -> (r: BspBuildTargetCapabilities)
        ensures
            r.can_compile == false,
            r.can_test == false,
            r.can_run == false,
            r.can_debug == false,
    {
        BspBuildTargetCapabilities { can_compile: false, can_test: false, can_run: false, can_debug: false }
    }
}

} // verus!
