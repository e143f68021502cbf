//! Requests: a closed set of methods the layer knows, and `Custom` for the rest.
use crate::error::DecodeError;
use crate::id::RequestId;
use crate::json::{text_is, Json};
use vstd::prelude::*;
use vstd::string::*;

verus! {

/// A request, tagged by its method. Payloads are carried as JSON values.
#[derive(Debug, Clone)]
pub enum Request {
    /// Client to server: start the session.
    InitializeBuild(RequestId, Json),
    /// Client to server: shut the server down.
    Shutdown(RequestId),
    /// Client to server: list the workspace's build targets.
    WorkspaceBuildTargets(RequestId),
    /// Client to server: reload the build configuration.
    WorkspaceReload(RequestId),
    /// Client to server: the libraries that build targets depend on.
    BuildTargetDependencyModules(RequestId, Json),
    /// Client to server: debug build targets.
    DebugSessionStart(RequestId, Json),
    /// Client to server: the sources of build targets.
    BuildTargetSources(RequestId, Json),
    /// Client to server: the build targets that contain a document.
    TextDocumentInverseSources(RequestId, Json),
    /// Client to server: the sources of build targets' dependencies.
    BuildTargetDependencySources(RequestId, Json),
    /// Client to server: the resources of build targets.
    BuildTargetResources(RequestId, Json),
    /// Client to server: run a build target.
    BuildTargetRun(RequestId, Json),
    /// Client to server: compile build targets.
    BuildTargetCompile(RequestId, Json),
    /// Client to server: test build targets.
    BuildTargetTest(RequestId, Json),
    /// Client to server: reset what is kept for build targets.
    BuildTargetCleanCache(RequestId, Json),
    /// Server to client: show a message.
    ShowMessage(RequestId, Json),
    /// Server to client: log a message.
    LogMessage(RequestId, Json),
    /// Any other method, with its params as they came.
    Custom(RequestId, String, Json),
}

/// Whether `m` is the method of one of the closed variants of `Request`.
pub open spec fn is_known_request_method(m: Seq<char>) -> bool {
    m == "build/initialize"@
        || m == "build/shutdown"@
        || m == "workspace/buildTargets"@
        || m == "workspace/reload"@
        || m == "buildTarget/dependencyModules"@
        || m == "debugSession/start"@
        || m == "buildTarget/sources"@
        || m == "textDocument/inverseSources"@
        || m == "buildTarget/dependencySources"@
        || m == "buildTarget/resources"@
        || m == "buildTarget/run"@
        || m == "buildTarget/compile"@
        || m == "buildTarget/test"@
        || m == "buildTarget/cleanCache"@
        || m == "build/showMessage"@
        || m == "build/logMessage"@
}

/// The wire method of a request.
pub open spec fn request_method(r: Request) -> Seq<char> {
    match r {
        Request::InitializeBuild(_, _) => "build/initialize"@,
        Request::Shutdown(_) => "build/shutdown"@,
        Request::WorkspaceBuildTargets(_) => "workspace/buildTargets"@,
        Request::WorkspaceReload(_) => "workspace/reload"@,
        Request::BuildTargetDependencyModules(_, _) => "buildTarget/dependencyModules"@,
        Request::DebugSessionStart(_, _) => "debugSession/start"@,
        Request::BuildTargetSources(_, _) => "buildTarget/sources"@,
        Request::TextDocumentInverseSources(_, _) => "textDocument/inverseSources"@,
        Request::BuildTargetDependencySources(_, _) => "buildTarget/dependencySources"@,
        Request::BuildTargetResources(_, _) => "buildTarget/resources"@,
        Request::BuildTargetRun(_, _) => "buildTarget/run"@,
        Request::BuildTargetCompile(_, _) => "buildTarget/compile"@,
        Request::BuildTargetTest(_, _) => "buildTarget/test"@,
        Request::BuildTargetCleanCache(_, _) => "buildTarget/cleanCache"@,
        Request::ShowMessage(_, _) => "build/showMessage"@,
        Request::LogMessage(_, _) => "build/logMessage"@,
        Request::Custom(_, m, _) => m@,
    }
}

/// The id of a request.
pub open spec fn request_id(r: Request) -> RequestId {
    match r {
        Request::InitializeBuild(id, _) => id,
        Request::Shutdown(id) => id,
        Request::WorkspaceBuildTargets(id) => id,
        Request::WorkspaceReload(id) => id,
        Request::BuildTargetDependencyModules(id, _) => id,
        Request::DebugSessionStart(id, _) => id,
        Request::BuildTargetSources(id, _) => id,
        Request::TextDocumentInverseSources(id, _) => id,
        Request::BuildTargetDependencySources(id, _) => id,
        Request::BuildTargetResources(id, _) => id,
        Request::BuildTargetRun(id, _) => id,
        Request::BuildTargetCompile(id, _) => id,
        Request::BuildTargetTest(id, _) => id,
        Request::BuildTargetCleanCache(id, _) => id,
        Request::ShowMessage(id, _) => id,
        Request::LogMessage(id, _) => id,
        Request::Custom(id, _, _) => id,
    }
}

/// The `params` member that a request carries on the wire; `None` where it is
/// left out: for methods without payload, and for a `Custom` one holding `null`.
pub open spec fn request_params(r: Request) -> Option<Json> {
    match r {
        Request::InitializeBuild(_, p) => Some(p),
        Request::Shutdown(_) => None,
        Request::WorkspaceBuildTargets(_) => None,
        Request::WorkspaceReload(_) => None,
        Request::BuildTargetDependencyModules(_, p) => Some(p),
        Request::DebugSessionStart(_, p) => Some(p),
        Request::BuildTargetSources(_, p) => Some(p),
        Request::TextDocumentInverseSources(_, p) => Some(p),
        Request::BuildTargetDependencySources(_, p) => Some(p),
        Request::BuildTargetResources(_, p) => Some(p),
        Request::BuildTargetRun(_, p) => Some(p),
        Request::BuildTargetCompile(_, p) => Some(p),
        Request::BuildTargetTest(_, p) => Some(p),
        Request::BuildTargetCleanCache(_, p) => Some(p),
        Request::ShowMessage(_, p) => Some(p),
        Request::LogMessage(_, p) => Some(p),
        Request::Custom(_, _, p) => if p is Null {
            None
        } else {
            Some(p)
        },
    }
}

/// A request that encodes and decodes to itself: the payload of a known method
/// is a JSON object, and a `Custom` method is none of the known ones.
pub open spec fn request_wf(r: Request) -> bool {
    match r {
        Request::InitializeBuild(_, p) => p is Object,
        Request::BuildTargetDependencyModules(_, p) => p is Object,
        Request::DebugSessionStart(_, p) => p is Object,
        Request::BuildTargetSources(_, p) => p is Object,
        Request::TextDocumentInverseSources(_, p) => p is Object,
        Request::BuildTargetDependencySources(_, p) => p is Object,
        Request::BuildTargetResources(_, p) => p is Object,
        Request::BuildTargetRun(_, p) => p is Object,
        Request::BuildTargetCompile(_, p) => p is Object,
        Request::BuildTargetTest(_, p) => p is Object,
        Request::BuildTargetCleanCache(_, p) => p is Object,
        Request::ShowMessage(_, p) => p is Object,
        Request::LogMessage(_, p) => p is Object,
        Request::Custom(_, m, _) => !is_known_request_method(m@),
        _ => true,
    }
}

/// The request that an `id`, a `method` and an optional `params` member decode
/// to. Missing params count as `null`; a known method with payload asks for an
/// object, else decoding fails with that method's name.
pub open spec fn decode_request(id: RequestId, method: String, params: Option<Json>) -> Result<Request, DecodeError> {
    let p = match params {
        Some(p) => p,
        None => Json::Null,
    };
    if method@ == "build/initialize"@ {
        if p is Object {
            Ok(Request::InitializeBuild(id, p))
        } else {
            Err(DecodeError::PayloadMismatch { method })
        }
    } else if method@ == "build/shutdown"@ {
        Ok(Request::Shutdown(id))
    } else if method@ == "workspace/buildTargets"@ {
        Ok(Request::WorkspaceBuildTargets(id))
    } else if method@ == "workspace/reload"@ {
        Ok(Request::WorkspaceReload(id))
    } else if method@ == "buildTarget/dependencyModules"@ {
        if p is Object {
            Ok(Request::BuildTargetDependencyModules(id, p))
        } else {
            Err(DecodeError::PayloadMismatch { method })
        }
    } else if method@ == "debugSession/start"@ {
        if p is Object {
            Ok(Request::DebugSessionStart(id, p))
        } else {
            Err(DecodeError::PayloadMismatch { method })
        }
    } else if method@ == "buildTarget/sources"@ {
        if p is Object {
            Ok(Request::BuildTargetSources(id, p))
        } else {
            Err(DecodeError::PayloadMismatch { method })
        }
    } else if method@ == "textDocument/inverseSources"@ {
        if p is Object {
            Ok(Request::TextDocumentInverseSources(id, p))
        } else {
            Err(DecodeError::PayloadMismatch { method })
        }
    } else if method@ == "buildTarget/dependencySources"@ {
        if p is Object {
            Ok(Request::BuildTargetDependencySources(id, p))
        } else {
            Err(DecodeError::PayloadMismatch { method })
        }
    } else if method@ == "buildTarget/resources"@ {
        if p is Object {
            Ok(Request::BuildTargetResources(id, p))
        } else {
            Err(DecodeError::PayloadMismatch { method })
        }
    } else if method@ == "buildTarget/run"@ {
        if p is Object {
            Ok(Request::BuildTargetRun(id, p))
        } else {
            Err(DecodeError::PayloadMismatch { method })
        }
    } else if method@ == "buildTarget/compile"@ {
        if p is Object {
            Ok(Request::BuildTargetCompile(id, p))
        } else {
            Err(DecodeError::PayloadMismatch { method })
        }
    } else if method@ == "buildTarget/test"@ {
        if p is Object {
            Ok(Request::BuildTargetTest(id, p))
        } else {
            Err(DecodeError::PayloadMismatch { method })
        }
    } else if method@ == "buildTarget/cleanCache"@ {
        if p is Object {
            Ok(Request::BuildTargetCleanCache(id, p))
        } else {
            Err(DecodeError::PayloadMismatch { method })
        }
    } else if method@ == "build/showMessage"@ {
        if p is Object {
            Ok(Request::ShowMessage(id, p))
        } else {
            Err(DecodeError::PayloadMismatch { method })
        }
    } else if method@ == "build/logMessage"@ {
        if p is Object {
            Ok(Request::LogMessage(id, p))
        } else {
            Err(DecodeError::PayloadMismatch { method })
        }
    } else {
        Ok(Request::Custom(id, method, p))
    }
}

impl Request {
    /// The wire method of this request.
    pub fn method(&self) -> (r: &str)
        ensures
            r@ == request_method(*self),
    {
        match self {
            Request::InitializeBuild(_, _) => "build/initialize",
            Request::Shutdown(_) => "build/shutdown",
            Request::WorkspaceBuildTargets(_) => "workspace/buildTargets",
            Request::WorkspaceReload(_) => "workspace/reload",
            Request::BuildTargetDependencyModules(_, _) => "buildTarget/dependencyModules",
            Request::DebugSessionStart(_, _) => "debugSession/start",
            Request::BuildTargetSources(_, _) => "buildTarget/sources",
            Request::TextDocumentInverseSources(_, _) => "textDocument/inverseSources",
            Request::BuildTargetDependencySources(_, _) => "buildTarget/dependencySources",
            Request::BuildTargetResources(_, _) => "buildTarget/resources",
            Request::BuildTargetRun(_, _) => "buildTarget/run",
            Request::BuildTargetCompile(_, _) => "buildTarget/compile",
            Request::BuildTargetTest(_, _) => "buildTarget/test",
            Request::BuildTargetCleanCache(_, _) => "buildTarget/cleanCache",
            Request::ShowMessage(_, _) => "build/showMessage",
            Request::LogMessage(_, _) => "build/logMessage",
            Request::Custom(_, m, _) => m.as_str(),
        }
    }

    /// The id of this request.
    pub fn id(&self) -> (r: &RequestId)
        ensures
            *r == request_id(*self),
    {
        match self {
            Request::InitializeBuild(id, _) => id,
            Request::Shutdown(id) => id,
            Request::WorkspaceBuildTargets(id) => id,
            Request::WorkspaceReload(id) => id,
            Request::BuildTargetDependencyModules(id, _) => id,
            Request::DebugSessionStart(id, _) => id,
            Request::BuildTargetSources(id, _) => id,
            Request::TextDocumentInverseSources(id, _) => id,
            Request::BuildTargetDependencySources(id, _) => id,
            Request::BuildTargetResources(id, _) => id,
            Request::BuildTargetRun(id, _) => id,
            Request::BuildTargetCompile(id, _) => id,
            Request::BuildTargetTest(id, _) => id,
            Request::BuildTargetCleanCache(id, _) => id,
            Request::ShowMessage(id, _) => id,
            Request::LogMessage(id, _) => id,
            Request::Custom(id, _, _) => id,
        }
    }

    /// Splits a request into its id, its method and the params it carries on
    /// the wire.
    pub fn into_parts(self) -> (r: (RequestId, String, Option<Json>))
        ensures
            r.0 == request_id(self),
            r.1@ == request_method(self),
            r.2 == request_params(self),
            self matches Request::Custom(_, m, _) ==> r.1 == m,
    {
        match self {
            Request::InitializeBuild(id, p) => (id, String::from_str("build/initialize"), Some(p)),
            Request::Shutdown(id) => (id, String::from_str("build/shutdown"), None),
            Request::WorkspaceBuildTargets(id) => (id, String::from_str("workspace/buildTargets"), None),
            Request::WorkspaceReload(id) => (id, String::from_str("workspace/reload"), None),
            Request::BuildTargetDependencyModules(id, p) => (id, String::from_str("buildTarget/dependencyModules"), Some(p)),
            Request::DebugSessionStart(id, p) => (id, String::from_str("debugSession/start"), Some(p)),
            Request::BuildTargetSources(id, p) => (id, String::from_str("buildTarget/sources"), Some(p)),
            Request::TextDocumentInverseSources(id, p) => (id, String::from_str("textDocument/inverseSources"), Some(p)),
            Request::BuildTargetDependencySources(id, p) => (id, String::from_str("buildTarget/dependencySources"), Some(p)),
            Request::BuildTargetResources(id, p) => (id, String::from_str("buildTarget/resources"), Some(p)),
            Request::BuildTargetRun(id, p) => (id, String::from_str("buildTarget/run"), Some(p)),
            Request::BuildTargetCompile(id, p) => (id, String::from_str("buildTarget/compile"), Some(p)),
            Request::BuildTargetTest(id, p) => (id, String::from_str("buildTarget/test"), Some(p)),
            Request::BuildTargetCleanCache(id, p) => (id, String::from_str("buildTarget/cleanCache"), Some(p)),
            Request::ShowMessage(id, p) => (id, String::from_str("build/showMessage"), Some(p)),
            Request::LogMessage(id, p) => (id, String::from_str("build/logMessage"), Some(p)),
            Request::Custom(id, m, p) => {
                if p.is_null() {
                    (id, m, None)
                } else {
                    (id, m, Some(p))
                }
            },
        }
    }

    /// Builds the request that an `id`, a `method` and an optional `params`
    /// member stand for.
    pub fn from_parts(id: RequestId, method: String, params: Option<Json>) -> (r: Result<Request, DecodeError>)
        ensures
            r == decode_request(id, method, params),
    {
        let p = match params {
            Some(p) => p,
            None => Json::Null,
        };
        if text_is(&method, "build/initialize") {
            match p {
                Json::Object(_) => Ok(Request::InitializeBuild(id, p)),
                _ => Err(DecodeError::PayloadMismatch { method }),
            }
        } else if text_is(&method, "build/shutdown") {
            Ok(Request::Shutdown(id))
        } else if text_is(&method, "workspace/buildTargets") {
            Ok(Request::WorkspaceBuildTargets(id))
        } else if text_is(&method, "workspace/reload") {
            Ok(Request::WorkspaceReload(id))
        } else if text_is(&method, "buildTarget/dependencyModules") {
            match p {
                Json::Object(_) => Ok(Request::BuildTargetDependencyModules(id, p)),
                _ => Err(DecodeError::PayloadMismatch { method }),
            }
        } else if text_is(&method, "debugSession/start") {
            match p {
                Json::Object(_) => Ok(Request::DebugSessionStart(id, p)),
                _ => Err(DecodeError::PayloadMismatch { method }),
            }
        } else if text_is(&method, "buildTarget/sources") {
            match p {
                Json::Object(_) => Ok(Request::BuildTargetSources(id, p)),
                _ => Err(DecodeError::PayloadMismatch { method }),
            }
        } else if text_is(&method, "textDocument/inverseSources") {
            match p {
                Json::Object(_) => Ok(Request::TextDocumentInverseSources(id, p)),
                _ => Err(DecodeError::PayloadMismatch { method }),
            }
        } else if text_is(&method, "buildTarget/dependencySources") {
            match p {
                Json::Object(_) => Ok(Request::BuildTargetDependencySources(id, p)),
                _ => Err(DecodeError::PayloadMismatch { method }),
            }
        } else if text_is(&method, "buildTarget/resources") {
            match p {
                Json::Object(_) => Ok(Request::BuildTargetResources(id, p)),
                _ => Err(DecodeError::PayloadMismatch { method }),
            }
        } else if text_is(&method, "buildTarget/run") {
            match p {
                Json::Object(_) => Ok(Request::BuildTargetRun(id, p)),
                _ => Err(DecodeError::PayloadMismatch { method }),
            }
        } else if text_is(&method, "buildTarget/compile") {
            match p {
                Json::Object(_) => Ok(Request::BuildTargetCompile(id, p)),
                _ => Err(DecodeError::PayloadMismatch { method }),
            }
        } else if text_is(&method, "buildTarget/test") {
            match p {
                Json::Object(_) => Ok(Request::BuildTargetTest(id, p)),
                _ => Err(DecodeError::PayloadMismatch { method }),
            }
        } else if text_is(&method, "buildTarget/cleanCache") {
            match p {
                Json::Object(_) => Ok(Request::BuildTargetCleanCache(id, p)),
                _ => Err(DecodeError::PayloadMismatch { method }),
            }
        } else if text_is(&method, "build/showMessage") {
            match p {
                Json::Object(_) => Ok(Request::ShowMessage(id, p)),
                _ => Err(DecodeError::PayloadMismatch { method }),
            }
        } else if text_is(&method, "build/logMessage") {
            match p {
                Json::Object(_) => Ok(Request::LogMessage(id, p)),
                _ => Err(DecodeError::PayloadMismatch { method }),
            }
        } else {
            Ok(Request::Custom(id, method, p))
        }
    }
}

/// Each known method is told apart from every other.
pub proof fn lemma_request_methods_distinct()
    ensures
        "build/shutdown"@ != "build/initialize"@,
        "workspace/buildTargets"@ != "build/initialize"@,
        "workspace/buildTargets"@ != "build/shutdown"@,
        "workspace/reload"@ != "build/initialize"@,
        "workspace/reload"@ != "build/shutdown"@,
        "workspace/reload"@ != "workspace/buildTargets"@,
        "buildTarget/dependencyModules"@ != "build/initialize"@,
        "buildTarget/dependencyModules"@ != "build/shutdown"@,
        "buildTarget/dependencyModules"@ != "workspace/buildTargets"@,
        "buildTarget/dependencyModules"@ != "workspace/reload"@,
        "debugSession/start"@ != "build/initialize"@,
        "debugSession/start"@ != "build/shutdown"@,
        "debugSession/start"@ != "workspace/buildTargets"@,
        "debugSession/start"@ != "workspace/reload"@,
        "debugSession/start"@ != "buildTarget/dependencyModules"@,
        "buildTarget/sources"@ != "build/initialize"@,
        "buildTarget/sources"@ != "build/shutdown"@,
        "buildTarget/sources"@ != "workspace/buildTargets"@,
        "buildTarget/sources"@ != "workspace/reload"@,
        "buildTarget/sources"@ != "buildTarget/dependencyModules"@,
        "buildTarget/sources"@ != "debugSession/start"@,
        "textDocument/inverseSources"@ != "build/initialize"@,
        "textDocument/inverseSources"@ != "build/shutdown"@,
        "textDocument/inverseSources"@ != "workspace/buildTargets"@,
        "textDocument/inverseSources"@ != "workspace/reload"@,
        "textDocument/inverseSources"@ != "buildTarget/dependencyModules"@,
        "textDocument/inverseSources"@ != "debugSession/start"@,
        "textDocument/inverseSources"@ != "buildTarget/sources"@,
        "buildTarget/dependencySources"@ != "build/initialize"@,
        "buildTarget/dependencySources"@ != "build/shutdown"@,
        "buildTarget/dependencySources"@ != "workspace/buildTargets"@,
        "buildTarget/dependencySources"@ != "workspace/reload"@,
        "buildTarget/dependencySources"@ != "buildTarget/dependencyModules"@,
        "buildTarget/dependencySources"@ != "debugSession/start"@,
        "buildTarget/dependencySources"@ != "buildTarget/sources"@,
        "buildTarget/dependencySources"@ != "textDocument/inverseSources"@,
        "buildTarget/resources"@ != "build/initialize"@,
        "buildTarget/resources"@ != "build/shutdown"@,
        "buildTarget/resources"@ != "workspace/buildTargets"@,
        "buildTarget/resources"@ != "workspace/reload"@,
        "buildTarget/resources"@ != "buildTarget/dependencyModules"@,
        "buildTarget/resources"@ != "debugSession/start"@,
        "buildTarget/resources"@ != "buildTarget/sources"@,
        "buildTarget/resources"@ != "textDocument/inverseSources"@,
        "buildTarget/resources"@ != "buildTarget/dependencySources"@,
        "buildTarget/run"@ != "build/initialize"@,
        "buildTarget/run"@ != "build/shutdown"@,
        "buildTarget/run"@ != "workspace/buildTargets"@,
        "buildTarget/run"@ != "workspace/reload"@,
        "buildTarget/run"@ != "buildTarget/dependencyModules"@,
        "buildTarget/run"@ != "debugSession/start"@,
        "buildTarget/run"@ != "buildTarget/sources"@,
        "buildTarget/run"@ != "textDocument/inverseSources"@,
        "buildTarget/run"@ != "buildTarget/dependencySources"@,
        "buildTarget/run"@ != "buildTarget/resources"@,
        "buildTarget/compile"@ != "build/initialize"@,
        "buildTarget/compile"@ != "build/shutdown"@,
        "buildTarget/compile"@ != "workspace/buildTargets"@,
        "buildTarget/compile"@ != "workspace/reload"@,
        "buildTarget/compile"@ != "buildTarget/dependencyModules"@,
        "buildTarget/compile"@ != "debugSession/start"@,
        "buildTarget/compile"@ != "buildTarget/sources"@,
        "buildTarget/compile"@ != "textDocument/inverseSources"@,
        "buildTarget/compile"@ != "buildTarget/dependencySources"@,
        "buildTarget/compile"@ != "buildTarget/resources"@,
        "buildTarget/compile"@ != "buildTarget/run"@,
        "buildTarget/test"@ != "build/initialize"@,
        "buildTarget/test"@ != "build/shutdown"@,
        "buildTarget/test"@ != "workspace/buildTargets"@,
        "buildTarget/test"@ != "workspace/reload"@,
        "buildTarget/test"@ != "buildTarget/dependencyModules"@,
        "buildTarget/test"@ != "debugSession/start"@,
        "buildTarget/test"@ != "buildTarget/sources"@,
        "buildTarget/test"@ != "textDocument/inverseSources"@,
        "buildTarget/test"@ != "buildTarget/dependencySources"@,
        "buildTarget/test"@ != "buildTarget/resources"@,
        "buildTarget/test"@ != "buildTarget/run"@,
        "buildTarget/test"@ != "buildTarget/compile"@,
        "buildTarget/cleanCache"@ != "build/initialize"@,
        "buildTarget/cleanCache"@ != "build/shutdown"@,
        "buildTarget/cleanCache"@ != "workspace/buildTargets"@,
        "buildTarget/cleanCache"@ != "workspace/reload"@,
        "buildTarget/cleanCache"@ != "buildTarget/dependencyModules"@,
        "buildTarget/cleanCache"@ != "debugSession/start"@,
        "buildTarget/cleanCache"@ != "buildTarget/sources"@,
        "buildTarget/cleanCache"@ != "textDocument/inverseSources"@,
        "buildTarget/cleanCache"@ != "buildTarget/dependencySources"@,
        "buildTarget/cleanCache"@ != "buildTarget/resources"@,
        "buildTarget/cleanCache"@ != "buildTarget/run"@,
        "buildTarget/cleanCache"@ != "buildTarget/compile"@,
        "buildTarget/cleanCache"@ != "buildTarget/test"@,
        "build/showMessage"@ != "build/initialize"@,
        "build/showMessage"@ != "build/shutdown"@,
        "build/showMessage"@ != "workspace/buildTargets"@,
        "build/showMessage"@ != "workspace/reload"@,
        "build/showMessage"@ != "buildTarget/dependencyModules"@,
        "build/showMessage"@ != "debugSession/start"@,
        "build/showMessage"@ != "buildTarget/sources"@,
        "build/showMessage"@ != "textDocument/inverseSources"@,
        "build/showMessage"@ != "buildTarget/dependencySources"@,
        "build/showMessage"@ != "buildTarget/resources"@,
        "build/showMessage"@ != "buildTarget/run"@,
        "build/showMessage"@ != "buildTarget/compile"@,
        "build/showMessage"@ != "buildTarget/test"@,
        "build/showMessage"@ != "buildTarget/cleanCache"@,
        "build/logMessage"@ != "build/initialize"@,
        "build/logMessage"@ != "build/shutdown"@,
        "build/logMessage"@ != "workspace/buildTargets"@,
        "build/logMessage"@ != "workspace/reload"@,
        "build/logMessage"@ != "buildTarget/dependencyModules"@,
        "build/logMessage"@ != "debugSession/start"@,
        "build/logMessage"@ != "buildTarget/sources"@,
        "build/logMessage"@ != "textDocument/inverseSources"@,
        "build/logMessage"@ != "buildTarget/dependencySources"@,
        "build/logMessage"@ != "buildTarget/resources"@,
        "build/logMessage"@ != "buildTarget/run"@,
        "build/logMessage"@ != "buildTarget/compile"@,
        "build/logMessage"@ != "buildTarget/test"@,
        "build/logMessage"@ != "buildTarget/cleanCache"@,
        "build/logMessage"@ != "build/showMessage"@,
{
    reveal_strlit("build/initialize");
    reveal_strlit("build/shutdown");
    reveal_strlit("workspace/buildTargets");
    reveal_strlit("workspace/reload");
    reveal_strlit("buildTarget/dependencyModules");
    reveal_strlit("debugSession/start");
    reveal_strlit("buildTarget/sources");
    reveal_strlit("textDocument/inverseSources");
    reveal_strlit("buildTarget/dependencySources");
    reveal_strlit("buildTarget/resources");
    reveal_strlit("buildTarget/run");
    reveal_strlit("buildTarget/compile");
    reveal_strlit("buildTarget/test");
    reveal_strlit("buildTarget/cleanCache");
    reveal_strlit("build/showMessage");
    reveal_strlit("build/logMessage");
    assert("build/shutdown"@.len() != "build/initialize"@.len());
    assert("workspace/buildTargets"@.len() != "build/initialize"@.len());
    assert("workspace/buildTargets"@.len() != "build/shutdown"@.len());
    assert("workspace/reload"@[0] != "build/initialize"@[0]);
    assert("workspace/reload"@.len() != "build/shutdown"@.len());
    assert("workspace/reload"@.len() != "workspace/buildTargets"@.len());
    assert("buildTarget/dependencyModules"@.len() != "build/initialize"@.len());
    assert("buildTarget/dependencyModules"@.len() != "build/shutdown"@.len());
    assert("buildTarget/dependencyModules"@.len() != "workspace/buildTargets"@.len());
    assert("buildTarget/dependencyModules"@.len() != "workspace/reload"@.len());
    assert("debugSession/start"@.len() != "build/initialize"@.len());
    assert("debugSession/start"@.len() != "build/shutdown"@.len());
    assert("debugSession/start"@.len() != "workspace/buildTargets"@.len());
    assert("debugSession/start"@.len() != "workspace/reload"@.len());
    assert("debugSession/start"@.len() != "buildTarget/dependencyModules"@.len());
    assert("buildTarget/sources"@.len() != "build/initialize"@.len());
    assert("buildTarget/sources"@.len() != "build/shutdown"@.len());
    assert("buildTarget/sources"@.len() != "workspace/buildTargets"@.len());
    assert("buildTarget/sources"@.len() != "workspace/reload"@.len());
    assert("buildTarget/sources"@.len() != "buildTarget/dependencyModules"@.len());
    assert("buildTarget/sources"@.len() != "debugSession/start"@.len());
    assert("textDocument/inverseSources"@.len() != "build/initialize"@.len());
    assert("textDocument/inverseSources"@.len() != "build/shutdown"@.len());
    assert("textDocument/inverseSources"@.len() != "workspace/buildTargets"@.len());
    assert("textDocument/inverseSources"@.len() != "workspace/reload"@.len());
    assert("textDocument/inverseSources"@.len() != "buildTarget/dependencyModules"@.len());
    assert("textDocument/inverseSources"@.len() != "debugSession/start"@.len());
    assert("textDocument/inverseSources"@.len() != "buildTarget/sources"@.len());
    assert("buildTarget/dependencySources"@.len() != "build/initialize"@.len());
    assert("buildTarget/dependencySources"@.len() != "build/shutdown"@.len());
    assert("buildTarget/dependencySources"@.len() != "workspace/buildTargets"@.len());
    assert("buildTarget/dependencySources"@.len() != "workspace/reload"@.len());
    assert("buildTarget/dependencySources"@[22] != "buildTarget/dependencyModules"@[22]);
    assert("buildTarget/dependencySources"@.len() != "debugSession/start"@.len());
    assert("buildTarget/dependencySources"@.len() != "buildTarget/sources"@.len());
    assert("buildTarget/dependencySources"@.len() != "textDocument/inverseSources"@.len());
    assert("buildTarget/resources"@.len() != "build/initialize"@.len());
    assert("buildTarget/resources"@.len() != "build/shutdown"@.len());
    assert("buildTarget/resources"@.len() != "workspace/buildTargets"@.len());
    assert("buildTarget/resources"@.len() != "workspace/reload"@.len());
    assert("buildTarget/resources"@.len() != "buildTarget/dependencyModules"@.len());
    assert("buildTarget/resources"@.len() != "debugSession/start"@.len());
    assert("buildTarget/resources"@.len() != "buildTarget/sources"@.len());
    assert("buildTarget/resources"@.len() != "textDocument/inverseSources"@.len());
    assert("buildTarget/resources"@.len() != "buildTarget/dependencySources"@.len());
    assert("buildTarget/run"@.len() != "build/initialize"@.len());
    assert("buildTarget/run"@.len() != "build/shutdown"@.len());
    assert("buildTarget/run"@.len() != "workspace/buildTargets"@.len());
    assert("buildTarget/run"@.len() != "workspace/reload"@.len());
    assert("buildTarget/run"@.len() != "buildTarget/dependencyModules"@.len());
    assert("buildTarget/run"@.len() != "debugSession/start"@.len());
    assert("buildTarget/run"@.len() != "buildTarget/sources"@.len());
    assert("buildTarget/run"@.len() != "textDocument/inverseSources"@.len());
    assert("buildTarget/run"@.len() != "buildTarget/dependencySources"@.len());
    assert("buildTarget/run"@.len() != "buildTarget/resources"@.len());
    assert("buildTarget/compile"@.len() != "build/initialize"@.len());
    assert("buildTarget/compile"@.len() != "build/shutdown"@.len());
    assert("buildTarget/compile"@.len() != "workspace/buildTargets"@.len());
    assert("buildTarget/compile"@.len() != "workspace/reload"@.len());
    assert("buildTarget/compile"@.len() != "buildTarget/dependencyModules"@.len());
    assert("buildTarget/compile"@.len() != "debugSession/start"@.len());
    assert("buildTarget/compile"@[12] != "buildTarget/sources"@[12]);
    assert("buildTarget/compile"@.len() != "textDocument/inverseSources"@.len());
    assert("buildTarget/compile"@.len() != "buildTarget/dependencySources"@.len());
    assert("buildTarget/compile"@.len() != "buildTarget/resources"@.len());
    assert("buildTarget/compile"@.len() != "buildTarget/run"@.len());
    assert("buildTarget/test"@[5] != "build/initialize"@[5]);
    assert("buildTarget/test"@.len() != "build/shutdown"@.len());
    assert("buildTarget/test"@.len() != "workspace/buildTargets"@.len());
    assert("buildTarget/test"@[0] != "workspace/reload"@[0]);
    assert("buildTarget/test"@.len() != "buildTarget/dependencyModules"@.len());
    assert("buildTarget/test"@.len() != "debugSession/start"@.len());
    assert("buildTarget/test"@.len() != "buildTarget/sources"@.len());
    assert("buildTarget/test"@.len() != "textDocument/inverseSources"@.len());
    assert("buildTarget/test"@.len() != "buildTarget/dependencySources"@.len());
    assert("buildTarget/test"@.len() != "buildTarget/resources"@.len());
    assert("buildTarget/test"@.len() != "buildTarget/run"@.len());
    assert("buildTarget/test"@.len() != "buildTarget/compile"@.len());
    assert("buildTarget/cleanCache"@.len() != "build/initialize"@.len());
    assert("buildTarget/cleanCache"@.len() != "build/shutdown"@.len());
    assert("buildTarget/cleanCache"@[0] != "workspace/buildTargets"@[0]);
    assert("buildTarget/cleanCache"@.len() != "workspace/reload"@.len());
    assert("buildTarget/cleanCache"@.len() != "buildTarget/dependencyModules"@.len());
    assert("buildTarget/cleanCache"@.len() != "debugSession/start"@.len());
    assert("buildTarget/cleanCache"@.len() != "buildTarget/sources"@.len());
    assert("buildTarget/cleanCache"@.len() != "textDocument/inverseSources"@.len());
    assert("buildTarget/cleanCache"@.len() != "buildTarget/dependencySources"@.len());
    assert("buildTarget/cleanCache"@.len() != "buildTarget/resources"@.len());
    assert("buildTarget/cleanCache"@.len() != "buildTarget/run"@.len());
    assert("buildTarget/cleanCache"@.len() != "buildTarget/compile"@.len());
    assert("buildTarget/cleanCache"@.len() != "buildTarget/test"@.len());
    assert("build/showMessage"@.len() != "build/initialize"@.len());
    assert("build/showMessage"@.len() != "build/shutdown"@.len());
    assert("build/showMessage"@.len() != "workspace/buildTargets"@.len());
    assert("build/showMessage"@.len() != "workspace/reload"@.len());
    assert("build/showMessage"@.len() != "buildTarget/dependencyModules"@.len());
    assert("build/showMessage"@.len() != "debugSession/start"@.len());
    assert("build/showMessage"@.len() != "buildTarget/sources"@.len());
    assert("build/showMessage"@.len() != "textDocument/inverseSources"@.len());
    assert("build/showMessage"@.len() != "buildTarget/dependencySources"@.len());
    assert("build/showMessage"@.len() != "buildTarget/resources"@.len());
    assert("build/showMessage"@.len() != "buildTarget/run"@.len());
    assert("build/showMessage"@.len() != "buildTarget/compile"@.len());
    assert("build/showMessage"@.len() != "buildTarget/test"@.len());
    assert("build/showMessage"@.len() != "buildTarget/cleanCache"@.len());
    assert("build/logMessage"@[6] != "build/initialize"@[6]);
    assert("build/logMessage"@.len() != "build/shutdown"@.len());
    assert("build/logMessage"@.len() != "workspace/buildTargets"@.len());
    assert("build/logMessage"@[0] != "workspace/reload"@[0]);
    assert("build/logMessage"@.len() != "buildTarget/dependencyModules"@.len());
    assert("build/logMessage"@.len() != "debugSession/start"@.len());
    assert("build/logMessage"@.len() != "buildTarget/sources"@.len());
    assert("build/logMessage"@.len() != "textDocument/inverseSources"@.len());
    assert("build/logMessage"@.len() != "buildTarget/dependencySources"@.len());
    assert("build/logMessage"@.len() != "buildTarget/resources"@.len());
    assert("build/logMessage"@.len() != "buildTarget/run"@.len());
    assert("build/logMessage"@.len() != "buildTarget/compile"@.len());
    assert("build/logMessage"@[5] != "buildTarget/test"@[5]);
    assert("build/logMessage"@.len() != "buildTarget/cleanCache"@.len());
    assert("build/logMessage"@.len() != "build/showMessage"@.len());
}

/// Whether a known request method carries a payload.
pub open spec fn request_takes_payload(m: Seq<char>) -> bool {
    m == "build/initialize"@
        || m == "buildTarget/dependencyModules"@
        || m == "debugSession/start"@
        || m == "buildTarget/sources"@
        || m == "textDocument/inverseSources"@
        || m == "buildTarget/dependencySources"@
        || m == "buildTarget/resources"@
        || m == "buildTarget/run"@
        || m == "buildTarget/compile"@
        || m == "buildTarget/test"@
        || m == "buildTarget/cleanCache"@
        || m == "build/showMessage"@
        || m == "build/logMessage"@
}

/// What decoding a request comes to: an unknown method gives `Custom`; any
/// other gives a variant of that method with the id given; and decoding fails,
/// naming the method, exactly when a method with payload gets params that are
/// not an object.
pub proof fn lemma_decode_request_shape(id: RequestId, method: String, params: Option<Json>)
    ensures
        (decode_request(id, method, params) matches Ok(Request::Custom(_, _, _)))
            <==> !is_known_request_method(method@),
        decode_request(id, method, params) matches Ok(r) ==> request_id(r) == id
            && request_method(r) == method@,
        decode_request(id, method, params) is Err <==> (is_known_request_method(method@)
            && request_takes_payload(method@) && !(match params {
            Some(p) => p is Object,
            None => false,
        })),
        decode_request(id, method, params) matches Err(e) ==> (e matches DecodeError::PayloadMismatch { method: m } && m == method),
{
    lemma_request_methods_distinct();
}

/// Splitting a well-formed request into its wire parts and building it again
/// gives the same request.
pub proof fn lemma_request_parts_round_trip(r: Request, method: String)
    requires
        request_wf(r),
        method@ == request_method(r),
        r matches Request::Custom(_, m, _) ==> method == m,
    ensures
        decode_request(request_id(r), method, request_params(r)) == Ok::<Request, DecodeError>(r),
{
    lemma_request_methods_distinct();
}

} // verus!
