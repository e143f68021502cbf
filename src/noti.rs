//! A notification in generic form, a method and a JSON payload, from which a
//! typed payload is extracted by whoever knows the method's schema.
use crate::error::ExtractError;
use crate::json::text_is;
use vstd::prelude::*;

verus! {

/// A notification as a method name and its raw params.
#[derive(Debug, Clone)]
pub struct Notification {
    pub method: String,
    pub params: serde_json::Value,
}

impl Notification {
    /// A notification with the given method and params.
    pub fn new(method: String, params: serde_json::Value) -> (r: Notification)
        ensures
            r.method == method,
            r.params == params,
    {
        Notification { method, params }
    }

    /// Extracts the payload of a notification of the given method. On another
    /// method the notification is handed back unchanged, so that the caller can
    /// try the next method. On this method the params are handed to `decode`,
    /// and a decoding error comes back with the method's name.
    pub fn extract<P, F: FnOnce(serde_json::Value) -> Result<P, serde_json::Error>>(
        self,
        method: &str,
        decode: F,
    ) -> (r: Result<P, ExtractError<Notification>>)
        requires
            self.method@ == method@ ==> decode.requires((self.params,)),
        ensures
            self.method@ != method@ ==> r == Err::<P, ExtractError<Notification>>(
                ExtractError::MethodMismatch(self),
            ),
            self.method@ == method@ ==> match r {
                Ok(p) => decode.ensures((self.params,), Ok::<P, serde_json::Error>(p)),
                Err(ExtractError::JsonError { method: m, error }) => m == self.method
                    && decode.ensures((self.params,), Err::<P, serde_json::Error>(error)),
                Err(ExtractError::MethodMismatch(_)) => false,
            },
    {
        if text_is(&self.method, method) {
            match decode(self.params) {
                Ok(p) => Ok(p),
                Err(error) => Err(ExtractError::JsonError { method: self.method, error }),
            }
        } else {
            Err(ExtractError::MethodMismatch(self))
        }
    }

    /// Whether this is the `exit` notification.
    pub fn is_exit(&self) -> (r: bool)
        ensures
            r == (self.method@ == "build/exit"@),
    {
        text_is(&self.method, "build/exit")
    }

    /// Whether this is the `initialized` notification.
    pub fn is_initialized(&self) -> (r: bool)
        ensures
            r == (self.method@ == "build/initialized"@),
    {
        text_is(&self.method, "build/initialized")
    }

    /// Whether this asks the client to show a message.
    pub fn is_show_message(&self) -> (r: bool)
        ensures
            r == (self.method@ == "build/showMessage"@),
    {
        text_is(&self.method, "build/showMessage")
    }

    /// Whether this asks the client to log a message.
    pub fn is_log_message(&self) -> (r: bool)
        ensures
            r == (self.method@ == "build/logMessage"@),
    {
        text_is(&self.method, "build/logMessage")
    }

    /// Whether this reports diagnostics.
    pub fn is_publish_diagnostics(&self) -> (r: bool)
        ensures
            r == (self.method@ == "build/publishDiagnostics"@),
    {
        text_is(&self.method, "build/publishDiagnostics")
    }
}

} // verus!
