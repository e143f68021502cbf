//! What the server offers.
use crate::providers::{CompileProvider, DebugProvider, RunProvider, TestProvider};
use vstd::prelude::*;

verus! {

/// What the server offers.
#[derive(Debug, Clone, PartialEq, Eq)]
pub struct ServerCapabilities {
    /// The languages for which the server compiles build targets.
    pub compile_provider: Option<CompileProvider>,
    /// The languages for which the server tests build targets.
    pub test_provider: Option<TestProvider>,
    /// The languages for which the server runs build targets.
    pub run_provider: Option<RunProvider>,
    /// The languages for which the server debugs build targets.
    pub debug_provider: Option<DebugProvider>,
    /// Whether the server finds the build targets that contain a document.
    pub inverse_sources_provider: Option<bool>,
    /// Whether the server gives the sources of dependencies.
    pub dependency_sources_provider: Option<bool>,
    /// Whether the server gives the dependency modules of build targets.
    pub dependency_modules_provider: Option<bool>,
    /// Whether the server gives the resources of build targets.
    pub resources_provider: Option<bool>,
    /// Whether the server reloads the build state on request.
    pub can_reload: Option<bool>,
    /// Whether the server notifies the client of changed build targets.
    pub build_target_changed_provider: Option<bool>,
}

impl ServerCapabilities {
    /// Sets the languages for which the server compiles build targets.
    pub fn set_compile_provider(&mut self, compile_provider: Option<CompileProvider>)
        ensures
            final(self).compile_provider == compile_provider,
            final(self).test_provider == old(self).test_provider,
            final(self).run_provider == old(self).run_provider,
            final(self).debug_provider == old(self).debug_provider,
            final(self).inverse_sources_provider == old(self).inverse_sources_provider,
            final(self).dependency_sources_provider == old(self).dependency_sources_provider,
            final(self).dependency_modules_provider == old(self).dependency_modules_provider,
            final(self).resources_provider == old(self).resources_provider,
            final(self).can_reload == old(self).can_reload,
            final(self).build_target_changed_provider == old(self).build_target_changed_provider,
    {
        self.compile_provider = compile_provider;
    }

    /// The languages for which the server compiles build targets.
    pub fn compile_provider(&self) -> (r: Option<&CompileProvider>)
        ensures
            r is None <==> self.compile_provider is None,
            r matches Some(x) ==> self.compile_provider == Some(*x),
    {
        match &self.compile_provider {
            Some(x) => Some(x),
            None => None,
        }
    }

    /// Sets the languages for which the server tests build targets.
    pub fn set_test_provider(&mut self, test_provider: Option<TestProvider>)
        ensures
            final(self).test_provider == test_provider,
            final(self).compile_provider == old(self).compile_provider,
            final(self).run_provider == old(self).run_provider,
            final(self).debug_provider == old(self).debug_provider,
            final(self).inverse_sources_provider == old(self).inverse_sources_provider,
            final(self).dependency_sources_provider == old(self).dependency_sources_provider,
            final(self).dependency_modules_provider == old(self).dependency_modules_provider,
            final(self).resources_provider == old(self).resources_provider,
            final(self).can_reload == old(self).can_reload,
            final(self).build_target_changed_provider == old(self).build_target_changed_provider,
    {
        self.test_provider = test_provider;
    }

    /// The languages for which the server tests build targets.
    pub fn test_provider(&self) -> (r: Option<&TestProvider>)
        ensures
            r is None <==> self.test_provider is None,
            r matches Some(x) ==> self.test_provider == Some(*x),
    {
        match &self.test_provider {
            Some(x) => Some(x),
            None => None,
        }
    }

    /// Sets the languages for which the server runs build targets.
    pub fn set_run_provider(&mut self, run_provider: Option<RunProvider>)
        ensures
            final(self).run_provider == run_provider,
            final(self).compile_provider == old(self).compile_provider,
            final(self).test_provider == old(self).test_provider,
            final(self).debug_provider == old(self).debug_provider,
            final(self).inverse_sources_provider == old(self).inverse_sources_provider,
            final(self).dependency_sources_provider == old(self).dependency_sources_provider,
            final(self).dependency_modules_provider == old(self).dependency_modules_provider,
            final(self).resources_provider == old(self).resources_provider,
            final(self).can_reload == old(self).can_reload,
            final(self).build_target_changed_provider == old(self).build_target_changed_provider,
    {
        self.run_provider = run_provider;
    }

    /// The languages for which the server runs build targets.
    pub fn run_provider(&self) -> (r: Option<&RunProvider>)
        ensures
            r is None <==> self.run_provider is None,
            r matches Some(x) ==> self.run_provider == Some(*x),
    {
        match &self.run_provider {
            Some(x) => Some(x),
            None => None,
        }
    }

    /// Sets the languages for which the server debugs build targets.
    pub fn set_debug_provider(&mut self, debug_provider: Option<DebugProvider>)
        ensures
            final(self).debug_provider == debug_provider,
            final(self).compile_provider == old(self).compile_provider,
            final(self).test_provider == old(self).test_provider,
            final(self).run_provider == old(self).run_provider,
            final(self).inverse_sources_provider == old(self).inverse_sources_provider,
            final(self).dependency_sources_provider == old(self).dependency_sources_provider,
            final(self).dependency_modules_provider == old(self).dependency_modules_provider,
            final(self).resources_provider == old(self).resources_provider,
            final(self).can_reload == old(self).can_reload,
            final(self).build_target_changed_provider == old(self).build_target_changed_provider,
    {
        self.debug_provider = debug_provider;
    }

    /// The languages for which the server debugs build targets.
    pub fn debug_provider(&self) -> (r: Option<&DebugProvider>)
        ensures
            r is None <==> self.debug_provider is None,
            r matches Some(x) ==> self.debug_provider == Some(*x),
    {
        match &self.debug_provider {
            Some(x) => Some(x),
            None => None,
        }
    }

    /// Sets whether the server finds the build targets that contain a document.
    pub fn set_inverse_sources_provider(&mut self, inverse_sources_provider: Option<bool>)
        ensures
            final(self).inverse_sources_provider == inverse_sources_provider,
            final(self).compile_provider == old(self).compile_provider,
            final(self).test_provider == old(self).test_provider,
            final(self).run_provider == old(self).run_provider,
            final(self).debug_provider == old(self).debug_provider,
            final(self).dependency_sources_provider == old(self).dependency_sources_provider,
            final(self).dependency_modules_provider == old(self).dependency_modules_provider,
            final(self).resources_provider == old(self).resources_provider,
            final(self).can_reload == old(self).can_reload,
            final(self).build_target_changed_provider == old(self).build_target_changed_provider,
    {
        self.inverse_sources_provider = inverse_sources_provider;
    }

    /// Whether the server finds the build targets that contain a document.
    pub fn inverse_sources_provider(&self) -> (r: Option<bool>)
        ensures
            r == self.inverse_sources_provider,
    {
        self.inverse_sources_provider
    }

    /// Sets whether the server gives the sources of dependencies.
    pub fn set_dependency_sources_provider(&mut self, dependency_sources_provider: Option<bool>)
        ensures
            final(self).dependency_sources_provider == dependency_sources_provider,
            final(self).compile_provider == old(self).compile_provider,
            final(self).test_provider == old(self).test_provider,
            final(self).run_provider == old(self).run_provider,
            final(self).debug_provider == old(self).debug_provider,
            final(self).inverse_sources_provider == old(self).inverse_sources_provider,
            final(self).dependency_modules_provider == old(self).dependency_modules_provider,
            final(self).resources_provider == old(self).resources_provider,
            final(self).can_reload == old(self).can_reload,
            final(self).build_target_changed_provider == old(self).build_target_changed_provider,
    {
        self.dependency_sources_provider = dependency_sources_provider;
    }

    /// Whether the server gives the sources of dependencies.
    pub fn dependency_sources_provider(&self) -> (r: Option<bool>)
        ensures
            r == self.dependency_sources_provider,
    {
        self.dependency_sources_provider
    }

    /// Sets whether the server gives the dependency modules of build targets.
    pub fn set_dependency_modules_provider(&mut self, dependency_modules_provider: Option<bool>)
        ensures
            final(self).dependency_modules_provider == dependency_modules_provider,
            final(self).compile_provider == old(self).compile_provider,
            final(self).test_provider == old(self).test_provider,
            final(self).run_provider == old(self).run_provider,
            final(self).debug_provider == old(self).debug_provider,
            final(self).inverse_sources_provider == old(self).inverse_sources_provider,
            final(self).dependency_sources_provider == old(self).dependency_sources_provider,
            final(self).resources_provider == old(self).resources_provider,
            final(self).can_reload == old(self).can_reload,
            final(self).build_target_changed_provider == old(self).build_target_changed_provider,
    {
        self.dependency_modules_provider = dependency_modules_provider;
    }

    /// Whether the server gives the dependency modules of build targets.
    pub fn dependency_modules_provider(&self) -> (r: Option<bool>)
        ensures
            r == self.dependency_modules_provider,
    {
        self.dependency_modules_provider
    }

    /// Sets whether the server gives the resources of build targets.
    pub fn set_resources_provider(&mut self, resources_provider: Option<bool>)
        ensures
            final(self).resources_provider == resources_provider,
            final(self).compile_provider == old(self).compile_provider,
            final(self).test_provider == old(self).test_provider,
            final(self).run_provider == old(self).run_provider,
            final(self).debug_provider == old(self).debug_provider,
            final(self).inverse_sources_provider == old(self).inverse_sources_provider,
            final(self).dependency_sources_provider == old(self).dependency_sources_provider,
            final(self).dependency_modules_provider == old(self).dependency_modules_provider,
            final(self).can_reload == old(self).can_reload,
            final(self).build_target_changed_provider == old(self).build_target_changed_provider,
    {
        self.resources_provider = resources_provider;
    }

    /// Whether the server gives the resources of build targets.
    pub fn resources_provider(&self) -> (r: Option<bool>)
        ensures
            r == self.resources_provider,
    {
        self.resources_provider
    }

    /// Sets whether the server reloads the build state on request.
    pub fn set_can_reload(&mut self, can_reload: Option<bool>)
        ensures
            final(self).can_reload == can_reload,
            final(self).compile_provider == old(self).compile_provider,
            final(self).test_provider == old(self).test_provider,
            final(self).run_provider == old(self).run_provider,
            final(self).debug_provider == old(self).debug_provider,
            final(self).inverse_sources_provider == old(self).inverse_sources_provider,
            final(self).dependency_sources_provider == old(self).dependency_sources_provider,
            final(self).dependency_modules_provider == old(self).dependency_modules_provider,
            final(self).resources_provider == old(self).resources_provider,
            final(self).build_target_changed_provider == old(self).build_target_changed_provider,
    {
        self.can_reload = can_reload;
    }

    /// Whether the server reloads the build state on request.
    pub fn can_reload(&self) -> (r: Option<bool>)
        ensures
            r == self.can_reload,
    {
        self.can_reload
    }

    /// Sets whether the server notifies the client of changed build targets.
    pub fn set_build_target_changed_provider(&mut self, build_target_changed_provider: Option<bool>)
        ensures
            final(self).build_target_changed_provider == build_target_changed_provider,
            final(self).compile_provider == old(self).compile_provider,
            final(self).test_provider == old(self).test_provider,
            final(self).run_provider == old(self).run_provider,
            final(self).debug_provider == old(self).debug_provider,
            final(self).inverse_sources_provider == old(self).inverse_sources_provider,
            final(self).dependency_sources_provider == old(self).dependency_sources_provider,
            final(self).dependency_modules_provider == old(self).dependency_modules_provider,
            final(self).resources_provider == old(self).resources_provider,
            final(self).can_reload == old(self).can_reload,
    {
        self.build_target_changed_provider = build_target_changed_provider;
    }

    /// Whether the server notifies the client of changed build targets.
    pub fn build_target_changed_provider(&self) -> (r: Option<bool>)
        ensures
            r == self.build_target_changed_provider,
    {
        self.build_target_changed_provider
    }
}

/// A server that offers nothing.
impl Default for ServerCapabilities {
    fn default() -> (r: ServerCapabilities)
        ensures
            r.compile_provider is None,
            r.test_provider is None,
            r.run_provider is None,
            r.debug_provider is None,
            r.inverse_sources_provider is None,
            r.dependency_sources_provider is None,
            r.dependency_modules_provider is None,
            r.resources_provider is None,
            r.can_reload is None,
            r.build_target_changed_provider is None,
    {
        ServerCapabilities { compile_provider: None, test_provider: None, run_provider: None, debug_provider: None, inverse_sources_provider: None, dependency_sources_provider: None, dependency_modules_provider: None, resources_provider: None, can_reload: None, build_target_changed_provider: None }
    }
}

} // verus!
