//! The decisions of the initialize and shutdown handshakes. Whoever owns the
//! connection receives and sends; these functions say, for each message
//! received, what happens next.
use crate::error::{error_code_value, ErrorCode, ProtocolError};
use crate::id::RequestId;
use crate::json::Json;
use crate::message::Message;
use crate::notification::Notification;
use crate::request::{request_id, request_method, Request};
use crate::response::Response;
use vstd::prelude::*;
use vstd::string::*;

verus! {

/// What the server does with a message received while it waits for the
/// initialize request.
#[derive(Debug)]
pub enum InitStart {
    /// The initialize request came: hand its params to the handler, and answer
    /// its id with the handler's result.
    Begin(RequestId, Json),
    /// Another request came: send this error response and keep waiting.
    Reject(Response),
    /// Anything else: the handshake fails.
    Fail(ProtocolError),
}

/// The text of the error that answers a request sent before initialization.
pub open spec fn not_initialized_text(method: Seq<char>) -> Seq<char> {
    "expected initialize request, got "@ + method
}

/// `r` answers `req` with a `ServerNotInitialized` error response for its id,
/// that names the method received, and waits on.
pub open spec fn rejects_as_not_initialized(r: InitStart, req: Request) -> bool {
    match r {
        InitStart::Reject(resp) => match resp.error {
            Some(e) => {
                &&& resp.id == request_id(req)
                &&& resp.result is None
                &&& e.code == error_code_value(ErrorCode::ServerNotInitialized)
                &&& e.message@ == not_initialized_text(request_method(req))
                &&& e.data is None
            },
            None => false,
        },
        _ => false,
    }
}

/// Decides on a message received while waiting for the initialize request.
/// `None` stands for a receive that failed: the peer is gone.
pub fn initialize_start_step(received: Option<Message>) -> (r: InitStart)
    ensures
        match received {
            Some(Message::Request(Request::InitializeBuild(id, params))) => r == InitStart::Begin(
                id,
                params,
            ),
            Some(Message::Request(req)) => rejects_as_not_initialized(r, req),
            _ => r is Fail,
        },
{
    match received {
        Some(Message::Request(Request::InitializeBuild(id, params))) => InitStart::Begin(id, params),
        Some(Message::Request(req)) => {
            let text = String::from_str("expected initialize request, got ").concat(req.method());
            let id = req.id().clone();
            InitStart::Reject(Response::server_not_initialized(id, text))
        },
        Some(Message::Response(_)) => InitStart::Fail(
            ProtocolError(String::from_str("expected initialize request, got a response")),
        ),
        Some(Message::Notification(n)) => InitStart::Fail(
            ProtocolError(
                String::from_str("expected initialize request, got notification ").concat(
                    n.method(),
                ),
            ),
        ),
        None => InitStart::Fail(
            ProtocolError(String::from_str("expected initialize request, got a closed connection")),
        ),
    }
}

/// Decides on the message received after the initialize response was sent:
/// only the `initialized` notification completes the handshake.
pub fn initialize_finish_step(received: Option<Message>) -> (r: Result<(), ProtocolError>)
    ensures
        r is Ok <==> (received matches Some(Message::Notification(Notification::Initialized))),
{
    match received {
        Some(Message::Notification(Notification::Initialized)) => Ok(()),
        Some(Message::Notification(n)) => Err(
            ProtocolError(
                String::from_str("expected initialized notification, got notification ").concat(
                    n.method(),
                ),
            ),
        ),
        Some(Message::Request(req)) => Err(
            ProtocolError(
                String::from_str("expected initialized notification, got request ").concat(
                    req.method(),
                ),
            ),
        ),
        Some(Message::Response(_)) => Err(
            ProtocolError(String::from_str("expected initialized notification, got a response")),
        ),
        None => Err(
            ProtocolError(
                String::from_str("expected initialized notification, got a closed connection"),
            ),
        ),
    }
}

/// The answer to a request handed to the shutdown handshake: an `ok` response
/// with a `null` result for the shutdown request, and nothing for any other
/// request, which the caller then handles as usual.
pub fn shutdown_response(req: &Request) -> (r: Option<Response>)
    ensures
        r is Some <==> *req is Shutdown,
        r matches Some(resp) ==> resp.id == request_id(*req) && resp.result == Some(Json::Null)
            && resp.error is None,
{
    match req {
        Request::Shutdown(id) => Some(Response::ok(id.clone(), Json::Null)),
        _ => None,
    }
}

/// Decides on what followed the shutdown response within the deadline. `None`
/// stands for nothing in time, or a receive that failed. Only the `exit`
/// notification completes the handshake, with `true`: the caller stops.
pub fn shutdown_finish_step(received: Option<Message>) -> (r: Result<bool, ProtocolError>)
    ensures
        r is Ok <==> (received matches Some(Message::Notification(Notification::Exit))),
        r matches Ok(b) ==> b,
{
    match received {
        Some(Message::Notification(Notification::Exit)) => Ok(true),
        Some(Message::Notification(n)) => Err(
            ProtocolError(
                String::from_str("unexpected notification during shutdown: ").concat(n.method()),
            ),
        ),
        Some(Message::Request(req)) => Err(
            ProtocolError(
                String::from_str("unexpected request during shutdown: ").concat(req.method()),
            ),
        ),
        Some(Message::Response(_)) => Err(
            ProtocolError(String::from_str("unexpected response during shutdown")),
        ),
        None => Err(
            ProtocolError(String::from_str("no exit notification within the shutdown deadline")),
        ),
    }
}

} // verus!
