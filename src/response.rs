//! Responses: the reply to a request, carrying a result or an error.
use crate::error::{error_code_value, ErrorCode};
use crate::id::RequestId;
use crate::json::Json;
use vstd::prelude::*;

verus! {

/// The error of a failed request.
#[derive(Debug, Clone)]
pub struct ResponseError {
    pub code: i32,
    pub message: String,
    pub data: Option<Json>,
}

/// The reply to a request. By convention exactly one of `result` and `error`
/// is present, as the constructors below make it.
#[derive(Debug, Clone)]
pub struct Response {
    pub id: RequestId,
    pub result: Option<Json>,
    pub error: Option<ResponseError>,
}

/// An error response for `id` with the given code and message and no data.
pub open spec fn is_error_response(r: Response, id: RequestId, code: int, message: String) -> bool {
    &&& r.id == id
    &&& r.result is None
    &&& r.error matches Some(e) && e.code == code && e.message == message && e.data is None
}

impl Response {
    /// A successful response for `id` carrying `result`.
    pub fn ok(id: RequestId, result: Json) -> (r: Response)
        ensures
            r.id == id,
            r.result == Some(result),
            r.error is None,
    {
        Response { id, result: Some(result), error: None }
    }

    /// An error response for `id` with the given code and message.
    pub fn err(id: RequestId, code: i32, message: String) -> (r: Response)
        ensures
            is_error_response(r, id, code as int, message),
    {
        let error = ResponseError { code, message, data: None };
        Response { id, result: None, error: Some(error) }
    }


    /// An error response for `id` coded `ParseError`.
    pub fn parse_error(id: RequestId, message: String) -> (r: Response)
        ensures
            is_error_response(r, id, error_code_value(ErrorCode::ParseError), message),
    {
        Self::err(id, ErrorCode::ParseError.code(), message)
    }

    /// An error response for `id` coded `ServerNotInitialized`.
    pub fn server_not_initialized(id: RequestId, message: String) -> (r: Response)
        ensures
            is_error_response(r, id, error_code_value(ErrorCode::ServerNotInitialized), message),
    {
        Self::err(id, ErrorCode::ServerNotInitialized.code(), message)
    }

    /// An error response for `id` coded `InvalidRequest`.
    pub fn invalid_request(id: RequestId, message: String) -> (r: Response)
        ensures
            is_error_response(r, id, error_code_value(ErrorCode::InvalidRequest), message),
    {
        Self::err(id, ErrorCode::InvalidRequest.code(), message)
    }

    /// An error response for `id` coded `MethodNotFound`.
    pub fn method_not_found(id: RequestId, message: String) -> (r: Response)
        ensures
            is_error_response(r, id, error_code_value(ErrorCode::MethodNotFound), message),
    {
        Self::err(id, ErrorCode::MethodNotFound.code(), message)
    }

    /// An error response for `id` coded `InvalidParams`.
    pub fn invalid_params(id: RequestId, message: String) -> (r: Response)
        ensures
            is_error_response(r, id, error_code_value(ErrorCode::InvalidParams), message),
    {
        Self::err(id, ErrorCode::InvalidParams.code(), message)
    }

    /// An error response for `id` coded `InternalError`.
    pub fn internal_error(id: RequestId, message: String) -> (r: Response)
        ensures
            is_error_response(r, id, error_code_value(ErrorCode::InternalError), message),
    {
        Self::err(id, ErrorCode::InternalError.code(), message)
    }

    /// An error response for `id` coded `ServerErrorStart`.
    pub fn server_error_start(id: RequestId, message: String) -> (r: Response)
        ensures
            is_error_response(r, id, error_code_value(ErrorCode::ServerErrorStart), message),
    {
        Self::err(id, ErrorCode::ServerErrorStart.code(), message)
    }

    /// An error response for `id` coded `ServerErrorEnd`.
    pub fn server_error_end(id: RequestId, message: String) -> (r: Response)
        ensures
            is_error_response(r, id, error_code_value(ErrorCode::ServerErrorEnd), message),
    {
        Self::err(id, ErrorCode::ServerErrorEnd.code(), message)
    }

    /// An error response for `id` coded `RequestCanceled`.
    pub fn request_canceled(id: RequestId, message: String) -> (r: Response)
        ensures
            is_error_response(r, id, error_code_value(ErrorCode::RequestCanceled), message),
    {
        Self::err(id, ErrorCode::RequestCanceled.code(), message)
    }

    /// An error response for `id` coded `ContentModified`.
    pub fn content_modified(id: RequestId, message: String) -> (r: Response)
        ensures
            is_error_response(r, id, error_code_value(ErrorCode::ContentModified), message),
    {
        Self::err(id, ErrorCode::ContentModified.code(), message)
    }

    /// An error response for `id` coded `ServerCancelled`.
    pub fn server_canceled(id: RequestId, message: String) -> (r: Response)
        ensures
            is_error_response(r, id, error_code_value(ErrorCode::ServerCancelled), message),
    {
        Self::err(id, ErrorCode::ServerCancelled.code(), message)
    }
}

} // verus!
