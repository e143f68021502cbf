//! Notifications: a closed set of methods the layer knows, and `Custom` for the
//! rest.
use crate::error::DecodeError;
use crate::json::{text_is, Json};
use vstd::prelude::*;
use vstd::string::*;

verus! {

/// A notification, tagged by its method. Payloads are carried as JSON values.
#[derive(Debug, Clone)]
pub enum Notification {
    /// The client asks the server to exit.
    Exit,
    /// The client has received the initialize response.
    Initialized,
    /// The server asks the client to show a message.
    ShowMessage(Json),
    /// The server asks the client to log a message.
    LogMessage(Json),
    /// The server reports diagnostics.
    PublishDiagnostics(Json),
    /// A task has started.
    TaskStart(Json),
    /// A task has finished.
    TaskFinish(Json),
    /// A task makes progress.
    TaskProgress(Json),
    /// Build targets have changed.
    BuildTargetDidChange(Json),
    /// Any other method, with its params as they came.
    Custom(String, Json),
}

/// Whether `m` is the method of one of the closed variants of `Notification`.
pub open spec fn is_known_notification_method(m: Seq<char>) -> bool {
    m == "build/exit"@
        || m == "build/initialized"@
        || m == "build/showMessage"@
        || m == "build/logMessage"@
        || m == "build/publishDiagnostics"@
        || m == "build/taskStart"@
        || m == "build/taskFinish"@
        || m == "build/taskProgressing"@
        || m == "buildTarget/didChange"@
}

/// The wire method of a notification.
pub open spec fn notification_method(n: Notification) -> Seq<char> {
    match n {
        Notification::Exit => "build/exit"@,
        Notification::Initialized => "build/initialized"@,
        Notification::ShowMessage(_) => "build/showMessage"@,
        Notification::LogMessage(_) => "build/logMessage"@,
        Notification::PublishDiagnostics(_) => "build/publishDiagnostics"@,
        Notification::TaskStart(_) => "build/taskStart"@,
        Notification::TaskFinish(_) => "build/taskFinish"@,
        Notification::TaskProgress(_) => "build/taskProgressing"@,
        Notification::BuildTargetDidChange(_) => "buildTarget/didChange"@,
        Notification::Custom(m, _) => m@,
    }
}

/// The `params` member that a notification carries on the wire: none for
/// `exit` and `initialized`, else its payload (`null` included, for `Custom`).
pub open spec fn notification_params(n: Notification) -> Option<Json> {
    match n {
        Notification::Exit => None,
        Notification::Initialized => None,
        Notification::ShowMessage(p) => Some(p),
        Notification::LogMessage(p) => Some(p),
        Notification::PublishDiagnostics(p) => Some(p),
        Notification::TaskStart(p) => Some(p),
        Notification::TaskFinish(p) => Some(p),
        Notification::TaskProgress(p) => Some(p),
        Notification::BuildTargetDidChange(p) => Some(p),
        Notification::Custom(_, p) => Some(p),
    }
}

/// A notification that encodes and decodes to itself: the payload of a known
/// method is a JSON object, and a `Custom` method is none of the known ones.
pub open spec fn notification_wf(n: Notification) -> bool {
    match n {
        Notification::ShowMessage(p) => p is Object,
        Notification::LogMessage(p) => p is Object,
        Notification::PublishDiagnostics(p) => p is Object,
        Notification::TaskStart(p) => p is Object,
        Notification::TaskFinish(p) => p is Object,
        Notification::TaskProgress(p) => p is Object,
        Notification::BuildTargetDidChange(p) => p is Object,
        Notification::Custom(m, _) => !is_known_notification_method(m@),
        _ => true,
    }
}

/// The notification that a `method` and an optional `params` member decode to.
/// `exit` and `initialized` take no payload and ignore what is there; missing
/// params count as `null`; a known method with payload asks for an object,
/// else decoding fails with that method's name.
pub open spec fn decode_notification(method: String, params: Option<Json>) -> Result<Notification, DecodeError> {
    let p = match params {
        Some(p) => p,
        None => Json::Null,
    };
    if method@ == "build/exit"@ {
        Ok(Notification::Exit)
    } else if method@ == "build/initialized"@ {
        Ok(Notification::Initialized)
    } else if method@ == "build/showMessage"@ {
        if p is Object {
            Ok(Notification::ShowMessage(p))
        } else {
            Err(DecodeError::PayloadMismatch { method })
        }
    } else if method@ == "build/logMessage"@ {
        if p is Object {
            Ok(Notification::LogMessage(p))
        } else {
            Err(DecodeError::PayloadMismatch { method })
        }
    } else if method@ == "build/publishDiagnostics"@ {
        if p is Object {
            Ok(Notification::PublishDiagnostics(p))
        } else {
            Err(DecodeError::PayloadMismatch { method })
        }
    } else if method@ == "build/taskStart"@ {
        if p is Object {
            Ok(Notification::TaskStart(p))
        } else {
            Err(DecodeError::PayloadMismatch { method })
        }
    } else if method@ == "build/taskFinish"@ {
        if p is Object {
            Ok(Notification::TaskFinish(p))
        } else {
            Err(DecodeError::PayloadMismatch { method })
        }
    } else if method@ == "build/taskProgressing"@ {
        if p is Object {
            Ok(Notification::TaskProgress(p))
        } else {
            Err(DecodeError::PayloadMismatch { method })
        }
    } else if method@ == "buildTarget/didChange"@ {
        if p is Object {
            Ok(Notification::BuildTargetDidChange(p))
        } else {
            Err(DecodeError::PayloadMismatch { method })
        }
    } else {
        Ok(Notification::Custom(method, p))
    }
}

impl Notification {
    /// The wire method of this notification.
    pub fn method(&self) -> (r: &str)
        ensures
            r@ == notification_method(*self),
    {
        match self {
            Notification::Exit => "build/exit",
            Notification::Initialized => "build/initialized",
            Notification::ShowMessage(_) => "build/showMessage",
            Notification::LogMessage(_) => "build/logMessage",
            Notification::PublishDiagnostics(_) => "build/publishDiagnostics",
            Notification::TaskStart(_) => "build/taskStart",
            Notification::TaskFinish(_) => "build/taskFinish",
            Notification::TaskProgress(_) => "build/taskProgressing",
            Notification::BuildTargetDidChange(_) => "buildTarget/didChange",
            Notification::Custom(m, _) => m.as_str(),
        }
    }

    /// One of the two notifications without payload, by its method.
    pub fn from_method(method: &str) -> (r: Notification)
        requires
            method@ == "build/exit"@ || method@ == "build/initialized"@,
        ensures
            method@ == "build/exit"@ ==> r is Exit,
            method@ == "build/initialized"@ ==> r is Initialized,
    {
        proof {
            lemma_notification_methods_distinct();
        }
        if text_is(&String::from_str(method), "build/exit") {
            Notification::Exit
        } else {
            Notification::Initialized
        }
    }

    /// Whether this is the `exit` notification.
    pub fn is_exit(&self) -> (r: bool)
        ensures
            r == (*self is Exit),
    {
        match self {
            Notification::Exit => true,
            _ => false,
        }
    }

    /// Whether this is the `initialized` notification.
    pub fn is_initialized(&self) -> (r: bool)
        ensures
            r == (*self is Initialized),
    {
        match self {
            Notification::Initialized => true,
            _ => false,
        }
    }

    /// Splits a notification into its method and the params it carries on the
    /// wire.
    pub fn into_parts(self) -> (r: (String, Option<Json>))
        ensures
            r.0@ == notification_method(self),
            r.1 == notification_params(self),
            self matches Notification::Custom(m, _) ==> r.0 == m,
    {
        match self {
            Notification::Exit => (String::from_str("build/exit"), None),
            Notification::Initialized => (String::from_str("build/initialized"), None),
            Notification::ShowMessage(p) => (String::from_str("build/showMessage"), Some(p)),
            Notification::LogMessage(p) => (String::from_str("build/logMessage"), Some(p)),
            Notification::PublishDiagnostics(p) => (String::from_str("build/publishDiagnostics"), Some(p)),
            Notification::TaskStart(p) => (String::from_str("build/taskStart"), Some(p)),
            Notification::TaskFinish(p) => (String::from_str("build/taskFinish"), Some(p)),
            Notification::TaskProgress(p) => (String::from_str("build/taskProgressing"), Some(p)),
            Notification::BuildTargetDidChange(p) => (String::from_str("buildTarget/didChange"), Some(p)),
            Notification::Custom(m, p) => (m, Some(p)),
        }
    }

    /// Builds the notification that a `method` and an optional `params` member
    /// stand for.
    pub fn from_parts(method: String, params: Option<Json>) -> (r: Result<Notification, DecodeError>)
        ensures
            r == decode_notification(method, params),
    {
        let p = match params {
            Some(p) => p,
            None => Json::Null,
        };
        if text_is(&method, "build/exit") {
            Ok(Notification::Exit)
        } else if text_is(&method, "build/initialized") {
            Ok(Notification::Initialized)
        } else if text_is(&method, "build/showMessage") {
            match p {
                Json::Object(_) => Ok(Notification::ShowMessage(p)),
                _ => Err(DecodeError::PayloadMismatch { method }),
            }
        } else if text_is(&method, "build/logMessage") {
            match p {
                Json::Object(_) => Ok(Notification::LogMessage(p)),
                _ => Err(DecodeError::PayloadMismatch { method }),
            }
        } else if text_is(&method, "build/publishDiagnostics") {
            match p {
                Json::Object(_) => Ok(Notification::PublishDiagnostics(p)),
                _ => Err(DecodeError::PayloadMismatch { method }),
            }
        } else if text_is(&method, "build/taskStart") {
            match p {
                Json::Object(_) => Ok(Notification::TaskStart(p)),
                _ => Err(DecodeError::PayloadMismatch { method }),
            }
        } else if text_is(&method, "build/taskFinish") {
            match p {
                Json::Object(_) => Ok(Notification::TaskFinish(p)),
                _ => Err(DecodeError::PayloadMismatch { method }),
            }
        } else if text_is(&method, "build/taskProgressing") {
            match p {
                Json::Object(_) => Ok(Notification::TaskProgress(p)),
                _ => Err(DecodeError::PayloadMismatch { method }),
            }
        } else if text_is(&method, "buildTarget/didChange") {
            match p {
                Json::Object(_) => Ok(Notification::BuildTargetDidChange(p)),
                _ => Err(DecodeError::PayloadMismatch { method }),
            }
        } else {
            Ok(Notification::Custom(method, p))
        }
    }
}

/// Each known method is told apart from every other.
pub proof fn lemma_notification_methods_distinct()
    ensures
        "build/initialized"@ != "build/exit"@,
        "build/showMessage"@ != "build/exit"@,
        "build/showMessage"@ != "build/initialized"@,
        "build/logMessage"@ != "build/exit"@,
        "build/logMessage"@ != "build/initialized"@,
        "build/logMessage"@ != "build/showMessage"@,
        "build/publishDiagnostics"@ != "build/exit"@,
        "build/publishDiagnostics"@ != "build/initialized"@,
        "build/publishDiagnostics"@ != "build/showMessage"@,
        "build/publishDiagnostics"@ != "build/logMessage"@,
        "build/taskStart"@ != "build/exit"@,
        "build/taskStart"@ != "build/initialized"@,
        "build/taskStart"@ != "build/showMessage"@,
        "build/taskStart"@ != "build/logMessage"@,
        "build/taskStart"@ != "build/publishDiagnostics"@,
        "build/taskFinish"@ != "build/exit"@,
        "build/taskFinish"@ != "build/initialized"@,
        "build/taskFinish"@ != "build/showMessage"@,
        "build/taskFinish"@ != "build/logMessage"@,
        "build/taskFinish"@ != "build/publishDiagnostics"@,
        "build/taskFinish"@ != "build/taskStart"@,
        "build/taskProgressing"@ != "build/exit"@,
        "build/taskProgressing"@ != "build/initialized"@,
        "build/taskProgressing"@ != "build/showMessage"@,
        "build/taskProgressing"@ != "build/logMessage"@,
        "build/taskProgressing"@ != "build/publishDiagnostics"@,
        "build/taskProgressing"@ != "build/taskStart"@,
        "build/taskProgressing"@ != "build/taskFinish"@,
        "buildTarget/didChange"@ != "build/exit"@,
        "buildTarget/didChange"@ != "build/initialized"@,
        "buildTarget/didChange"@ != "build/showMessage"@,
        "buildTarget/didChange"@ != "build/logMessage"@,
        "buildTarget/didChange"@ != "build/publishDiagnostics"@,
        "buildTarget/didChange"@ != "build/taskStart"@,
        "buildTarget/didChange"@ != "build/taskFinish"@,
        "buildTarget/didChange"@ != "build/taskProgressing"@,
{
    reveal_strlit("build/exit");
    reveal_strlit("build/initialized");
    reveal_strlit("build/showMessage");
    reveal_strlit("build/logMessage");
    reveal_strlit("build/publishDiagnostics");
    reveal_strlit("build/taskStart");
    reveal_strlit("build/taskFinish");
    reveal_strlit("build/taskProgressing");
    reveal_strlit("buildTarget/didChange");
    assert("build/initialized"@.len() != "build/exit"@.len());
    assert("build/showMessage"@.len() != "build/exit"@.len());
    assert("build/showMessage"@[6] != "build/initialized"@[6]);
    assert("build/logMessage"@.len() != "build/exit"@.len());
    assert("build/logMessage"@.len() != "build/initialized"@.len());
    assert("build/logMessage"@.len() != "build/showMessage"@.len());
    assert("build/publishDiagnostics"@.len() != "build/exit"@.len());
    assert("build/publishDiagnostics"@.len() != "build/initialized"@.len());
    assert("build/publishDiagnostics"@.len() != "build/showMessage"@.len());
    assert("build/publishDiagnostics"@.len() != "build/logMessage"@.len());
    assert("build/taskStart"@.len() != "build/exit"@.len());
    assert("build/taskStart"@.len() != "build/initialized"@.len());
    assert("build/taskStart"@.len() != "build/showMessage"@.len());
    assert("build/taskStart"@.len() != "build/logMessage"@.len());
    assert("build/taskStart"@.len() != "build/publishDiagnostics"@.len());
    assert("build/taskFinish"@.len() != "build/exit"@.len());
    assert("build/taskFinish"@.len() != "build/initialized"@.len());
    assert("build/taskFinish"@.len() != "build/showMessage"@.len());
    assert("build/taskFinish"@[6] != "build/logMessage"@[6]);
    assert("build/taskFinish"@.len() != "build/publishDiagnostics"@.len());
    assert("build/taskFinish"@.len() != "build/taskStart"@.len());
    assert("build/taskProgressing"@.len() != "build/exit"@.len());
    assert("build/taskProgressing"@.len() != "build/initialized"@.len());
    assert("build/taskProgressing"@.len() != "build/showMessage"@.len());
    assert("build/taskProgressing"@.len() != "build/logMessage"@.len());
    assert("build/taskProgressing"@.len() != "build/publishDiagnostics"@.len());
    assert("build/taskProgressing"@.len() != "build/taskStart"@.len());
    assert("build/taskProgressing"@.len() != "build/taskFinish"@.len());
    assert("buildTarget/didChange"@.len() != "build/exit"@.len());
    assert("buildTarget/didChange"@.len() != "build/initialized"@.len());
    assert("buildTarget/didChange"@.len() != "build/showMessage"@.len());
    assert("buildTarget/didChange"@.len() != "build/logMessage"@.len());
    assert("buildTarget/didChange"@.len() != "build/publishDiagnostics"@.len());
    assert("buildTarget/didChange"@.len() != "build/taskStart"@.len());
    assert("buildTarget/didChange"@.len() != "build/taskFinish"@.len());
    assert("buildTarget/didChange"@[5] != "build/taskProgressing"@[5]);
}

/// Whether a known notification method carries a payload.
pub open spec fn notification_takes_payload(m: Seq<char>) -> bool {
    m == "build/showMessage"@
        || m == "build/logMessage"@
        || m == "build/publishDiagnostics"@
        || m == "build/taskStart"@
        || m == "build/taskFinish"@
        || m == "build/taskProgressing"@
        || m == "buildTarget/didChange"@
}

/// What decoding a notification comes to: an unknown method gives `Custom`;
/// any other gives a variant of that method; and decoding fails, naming the
/// method, exactly when a method with payload gets params that are not an
/// object.
pub proof fn lemma_decode_notification_shape(method: String, params: Option<Json>)
    ensures
        (decode_notification(method, params) matches Ok(Notification::Custom(_, _)))
            <==> !is_known_notification_method(method@),
        decode_notification(method, params) matches Ok(n) ==> notification_method(n) == method@,
        decode_notification(method, params) is Err <==> (is_known_notification_method(method@)
            && notification_takes_payload(method@) && !(match params {
            Some(p) => p is Object,
            None => false,
        })),
        decode_notification(method, params) matches Err(e) ==> (e matches DecodeError::PayloadMismatch { method: m } && m == method),
{
    lemma_notification_methods_distinct();
}

/// Splitting a well-formed notification into its wire parts and building it
/// again gives the same notification.
pub proof fn lemma_notification_parts_round_trip(n: Notification, method: String)
    requires
        notification_wf(n),
        method@ == notification_method(n),
        n matches Notification::Custom(m, _) ==> method == m,
    ensures
        decode_notification(method, notification_params(n)) == Ok::<Notification, DecodeError>(n),
{
    lemma_notification_methods_distinct();
}

} // verus!
