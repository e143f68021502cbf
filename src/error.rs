//! Error codes of responses, and the errors of decoding, extraction and the
//! handshakes.
use vstd::prelude::*;

verus! {

/// The codes that classify an error response: those of JSON-RPC and the
/// protocol's own.
#[derive(Debug, Clone, Copy, PartialEq, Eq, Structural)]
pub enum ErrorCode {
    ParseError,
    InvalidRequest,
    MethodNotFound,
    InvalidParams,
    InternalError,
    ServerErrorStart,
    ServerErrorEnd,
    ServerNotInitialized,
    RequestCanceled,
    ContentModified,
    ServerCancelled,
}

/// The number each code stands for on the wire.
pub open spec fn error_code_value(c: ErrorCode) -> int {
    match c {
        ErrorCode::ParseError => -32700,
        ErrorCode::InvalidRequest => -32600,
        ErrorCode::MethodNotFound => -32601,
        ErrorCode::InvalidParams => -32602,
        ErrorCode::InternalError => -32603,
        ErrorCode::ServerErrorStart => -32099,
        ErrorCode::ServerErrorEnd => -32000,
        ErrorCode::ServerNotInitialized => -32002,
        ErrorCode::RequestCanceled => -32800,
        ErrorCode::ContentModified => -32801,
        ErrorCode::ServerCancelled => -32802,
    }
}

impl ErrorCode {
    /// The number this code stands for on the wire.
    pub fn code(self) -> (r: i32)
        ensures
            r == error_code_value(self),
    {
        match self {
            ErrorCode::ParseError => -32700,
            ErrorCode::InvalidRequest => -32600,
            ErrorCode::MethodNotFound => -32601,
            ErrorCode::InvalidParams => -32602,
            ErrorCode::InternalError => -32603,
            ErrorCode::ServerErrorStart => -32099,
            ErrorCode::ServerErrorEnd => -32000,
            ErrorCode::ServerNotInitialized => -32002,
            ErrorCode::RequestCanceled => -32800,
            ErrorCode::ContentModified => -32801,
            ErrorCode::ServerCancelled => -32802,
        }
    }
}

/// A violation of the initialize or shutdown handshake, described in words.
#[derive(Debug, Clone)]
pub struct ProtocolError(pub String);

impl ProtocolError {
    /// The description of what went wrong.
    pub fn message(&self) -> (r: &str)
        ensures
            r@ == self.0@,
    {
        self.0.as_str()
    }
}

/// Why a JSON value is not a message.
#[derive(Debug)]
pub enum DecodeError {
    /// The text is not JSON.
    Syntax(serde_json::Error),
    /// An `id` that is neither a 32-bit integer nor a string.
    InvalidId,
    /// A `method` that is not a string.
    InvalidMethod,
    /// An `error` member that is not an object with an integer `code` and a
    /// string `message`.
    InvalidError,
    /// None of the three shapes: no `method`, and no `id` with a `result` or an
    /// `error`.
    NotAMessage,
    /// A known method whose params are not of the shape its payload needs.
    PayloadMismatch { method: String },
}

/// Why a payload could not be extracted from a message.
#[derive(Debug)]
pub enum ExtractError<T> {
    /// The message has another method than the one asked for; it is handed back.
    MethodMismatch(T),
    /// The method matched but the payload did not decode.
    JsonError { method: String, error: serde_json::Error },
}

} // verus!
