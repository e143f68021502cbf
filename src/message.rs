//! Messages: the unit of transfer, and how one is told apart from the members
//! of a JSON object.
use crate::error::DecodeError;
use crate::framing::{frame_message_text, frame_of};
use crate::id::{IdRepr, IdView, RequestId};
use crate::json::{
    i64_of, int_json, int_value, json_read, json_text, json_text_of, json_value, member,
    member_of, member_views, object_of, object_value, parse_json, parsed_of, str_of, string_json,
    string_value, Json,
};
use crate::notification::{
    decode_notification, lemma_notification_parts_round_trip, notification_method,
    notification_params, notification_wf, Notification,
};
use crate::request::{
    decode_request, lemma_request_parts_round_trip, request_id, request_method, request_params,
    request_wf, Request,
};
use crate::response::{Response, ResponseError};
use vstd::prelude::*;
use vstd::string::*;

verus! {

/// One message: a request, a response or a notification.
#[derive(Debug, Clone)]
pub enum Message {
    Request(Request),
    Response(Response),
    Notification(Notification),
}

/// The members of a JSON-RPC object that tell a message's shape and content,
/// each as it was found, or `None` where it is absent.
#[derive(Debug, Clone)]
pub struct RawMessage {
    pub id: Option<RequestId>,
    pub method: Option<String>,
    pub params: Option<Json>,
    pub result: Option<Json>,
    pub error: Option<ResponseError>,
}

/// The message that the members `raw` stand for. The shape is probed in a
/// fixed order: `id` with `method` is a request; `id` with `result` or `error`
/// is a response; `method` alone is a notification.
pub open spec fn decode_raw(raw: RawMessage) -> Result<Message, DecodeError> {
    match raw.id {
        Some(id) => match raw.method {
            Some(m) => match decode_request(id, m, raw.params) {
                Ok(r) => Ok(Message::Request(r)),
                Err(e) => Err(e),
            },
            None => if raw.result is Some || raw.error is Some {
                Ok(Message::Response(Response { id, result: raw.result, error: raw.error }))
            } else {
                Err(DecodeError::NotAMessage)
            },
        },
        None => match raw.method {
            Some(m) => match decode_notification(m, raw.params) {
                Ok(n) => Ok(Message::Notification(n)),
                Err(e) => Err(e),
            },
            None => Err(DecodeError::NotAMessage),
        },
    }
}

/// `raw` holds the members that `msg` is written with: `{id, method, params?}`
/// for a request, `{id, result?, error?}` for a response, `{method, params?}`
/// for a notification.
pub open spec fn encodes(msg: Message, raw: RawMessage) -> bool {
    match msg {
        Message::Request(r) => {
            &&& raw.id == Some(request_id(r))
            &&& raw.method matches Some(m) && m@ == request_method(r) && (r matches Request::Custom(
                _,
                cm,
                _,
            ) ==> m == cm)
            &&& raw.params == request_params(r)
            &&& raw.result is None
            &&& raw.error is None
        },
        Message::Response(resp) => {
            &&& raw.id == Some(resp.id)
            &&& raw.method is None
            &&& raw.params is None
            &&& raw.result == resp.result
            &&& raw.error == resp.error
        },
        Message::Notification(n) => {
            &&& raw.id is None
            &&& raw.method matches Some(m) && m@ == notification_method(n) && (n matches Notification::Custom(
                cm,
                _,
            ) ==> m == cm)
            &&& raw.params == notification_params(n)
            &&& raw.result is None
            &&& raw.error is None
        },
    }
}

/// A message that survives encoding and decoding: see `request_wf` and
/// `notification_wf`; a response carries a result or an error.
pub open spec fn message_wf(msg: Message) -> bool {
    match msg {
        Message::Request(r) => request_wf(r),
        Message::Response(resp) => resp.result is Some || resp.error is Some,
        Message::Notification(n) => notification_wf(n),
    }
}

/// Decoding the members that a well-formed message is written with gives back
/// that message, for every known request and notification, for `Custom` ones
/// and for responses.
pub proof fn lemma_message_round_trip(msg: Message, raw: RawMessage)
    requires
        message_wf(msg),
        encodes(msg, raw),
    ensures
        decode_raw(raw) == Ok::<Message, DecodeError>(msg),
{
    match msg {
        Message::Request(r) => {
            lemma_request_parts_round_trip(r, raw.method->Some_0);
        },
        Message::Response(resp) => {},
        Message::Notification(n) => {
            lemma_notification_parts_round_trip(n, raw.method->Some_0);
        },
    }
}

/// A missing `params` member and an explicit `"params": null` decode alike,
/// for requests and notifications of every method.
pub proof fn lemma_absent_params_read_as_null(id: RequestId, method: String)
    ensures
        decode_request(id, method, None) == decode_request(id, method, Some(Json::Null)),
        decode_notification(method, None) == decode_notification(method, Some(Json::Null)),
{
}

/// The id that a JSON value stands for, where it is a 32-bit integer or a string.
pub open spec fn id_read(x: serde_json::Value) -> Option<IdView> {
    match i64_of(x) {
        Some(n) => if -2147483648 <= n && n <= 2147483647 {
            Some(IdView::Int(n as int))
        } else {
            None
        },
        None => match str_of(x) {
            Some(t) => Some(IdView::Text(t)),
            None => None,
        },
    }
}

/// An optional member, classified.
pub open spec fn opt_json_read(x: Option<serde_json::Value>) -> Option<Json> {
    match x {
        Some(v) => Some(json_read(v)),
        None => None,
    }
}

/// The code, message and data of an error object, where it has an integer
/// `code` that fits an `i32` and a string `message`.
pub open spec fn error_read(e: serde_json::Value) -> Option<(int, Seq<char>, Option<Json>)> {
    match member_of(e, "code"@) {
        Some(c) => match i64_of(c) {
            Some(n) => if -2147483648 <= n && n <= 2147483647 {
                match member_of(e, "message"@) {
                    Some(m) => match str_of(m) {
                        Some(t) => Some((n as int, t, opt_json_read(member_of(e, "data"@)))),
                        None => None,
                    },
                    None => None,
                }
            } else {
                None
            },
            None => None,
        },
        None => None,
    }
}

/// The error of reading the members of `v`, checked in the order `id`,
/// `method`, `error`; `None` where all three read well.
pub open spec fn read_failure_of(v: serde_json::Value) -> Option<DecodeError> {
    if (match member_of(v, "id"@) {
        Some(x) => id_read(x) is None,
        None => false,
    }) {
        Some(DecodeError::InvalidId)
    } else if (match member_of(v, "method"@) {
        Some(x) => str_of(x) is None,
        None => false,
    }) {
        Some(DecodeError::InvalidMethod)
    } else if (match member_of(v, "error"@) {
        Some(e) => error_read(e) is None,
        None => false,
    }) {
        Some(DecodeError::InvalidError)
    } else {
        None
    }
}

/// `raw` holds what the members of `v` say, each absent where `v` lacks it.
pub open spec fn raw_read(v: serde_json::Value, raw: RawMessage) -> bool {
    &&& match member_of(v, "id"@) {
        None => raw.id is None,
        Some(x) => (raw.id matches Some(id) && id_read(x) == Some(id@)),
    }
    &&& match member_of(v, "method"@) {
        None => raw.method is None,
        Some(x) => (raw.method matches Some(m) && str_of(x) == Some(m@)),
    }
    &&& raw.params == opt_json_read(member_of(v, "params"@))
    &&& raw.result == opt_json_read(member_of(v, "result"@))
    &&& match member_of(v, "error"@) {
        None => raw.error is None,
        Some(e) => (raw.error matches Some(re) && error_read(e) == Some(
            (re.code as int, re.message@, re.data),
        )),
    }
}

/// `r` is what decoding the JSON value `v` gives: the error of reading its
/// members, or else the message those members stand for.
pub open spec fn decodes_value(v: serde_json::Value, r: Result<Message, DecodeError>) -> bool {
    match read_failure_of(v) {
        Some(e) => r == Err::<Message, DecodeError>(e),
        None => exists|raw: RawMessage| raw_read(v, raw) && r == decode_raw(raw),
    }
}

/// A member that is written only where there is a value.
pub open spec fn opt_member(key: Seq<char>, v: Option<serde_json::Value>) -> Seq<(Seq<char>, serde_json::Value)> {
    match v {
        Some(x) => seq![(key, x)],
        None => seq![],
    }
}

pub open spec fn opt_json_value(j: Option<Json>) -> Option<serde_json::Value> {
    match j {
        Some(x) => Some(json_value(x)),
        None => None,
    }
}

/// The JSON value of an id: a number or a string.
pub open spec fn id_json(id: IdView) -> serde_json::Value {
    match id {
        IdView::Int(n) => int_json(n),
        IdView::Text(t) => string_json(t),
    }
}

/// The JSON object of an error: `code`, `message`, and `data` where present.
pub open spec fn error_json(e: ResponseError) -> serde_json::Value {
    object_of(
        seq![("code"@, int_json(e.code as int)), ("message"@, string_json(e.message@))] + opt_member(
            "data"@,
            opt_json_value(e.data),
        ),
    )
}

pub open spec fn opt_error_json(e: Option<ResponseError>) -> Option<serde_json::Value> {
    match e {
        Some(x) => Some(error_json(x)),
        None => None,
    }
}

/// `"jsonrpc": "2.0"` where asked for.
pub open spec fn version_members(with_version: bool) -> Seq<(Seq<char>, serde_json::Value)> {
    if with_version {
        seq![("jsonrpc"@, string_json("2.0"@))]
    } else {
        seq![]
    }
}

/// The members written for `raw`, in this order: `jsonrpc` where asked for,
/// then `id`, `method`, `params`, `result`, `error`, each where present.
pub open spec fn raw_members(raw: RawMessage, with_version: bool) -> Seq<(Seq<char>, serde_json::Value)> {
    version_members(with_version) + opt_member(
        "id"@,
        match raw.id {
            Some(id) => Some(id_json(id@)),
            None => None,
        },
    ) + opt_member(
        "method"@,
        match raw.method {
            Some(m) => Some(string_json(m@)),
            None => None,
        },
    ) + opt_member("params"@, opt_json_value(raw.params)) + opt_member(
        "result"@,
        opt_json_value(raw.result),
    ) + opt_member("error"@, opt_error_json(raw.error))
}

/// The members a message is written with: `{id, method, params?}` for a
/// request, `{id, result?, error?}` for a response, `{method, params?}` for a
/// notification, after `"jsonrpc": "2.0"` where asked for.
pub open spec fn message_members(m: Message, with_version: bool) -> Seq<(Seq<char>, serde_json::Value)> {
    match m {
        Message::Request(r) => version_members(with_version) + seq![
            ("id"@, id_json(request_id(r)@)),
            ("method"@, string_json(request_method(r))),
        ] + opt_member("params"@, opt_json_value(request_params(r))),
        Message::Response(resp) => version_members(with_version) + seq![("id"@, id_json(resp.id@))]
            + opt_member("result"@, opt_json_value(resp.result)) + opt_member(
            "error"@,
            opt_error_json(resp.error),
        ),
        Message::Notification(n) => version_members(with_version) + seq![
            ("method"@, string_json(notification_method(n))),
        ] + opt_member("params"@, opt_json_value(notification_params(n))),
    }
}

/// The members written for a message's raw form are the message's members.
pub proof fn lemma_encoded_members(m: Message, raw: RawMessage, with_version: bool)
    requires
        encodes(m, raw),
    ensures
        raw_members(raw, with_version) == message_members(m, with_version),
{
    assert(raw_members(raw, with_version) =~= message_members(m, with_version));
}

fn read_id(v: &serde_json::Value) -> (r: Result<Option<RequestId>, DecodeError>)
    ensures
        match member_of(*v, "id"@) {
            None => r matches Ok(None),
            Some(x) => match id_read(x) {
                None => (r matches Err(e) && e is InvalidId),
                Some(iv) => (r matches Ok(Some(id)) && id@ == iv),
            },
        },
{
    match member(v, "id") {
        None => Ok(None),
        Some(x) => match x.as_i64() {
            Some(n) => if -2147483648 <= n && n <= 2147483647 {
                Ok(Some(RequestId::from_int(n as i32)))
            } else {
                Err(DecodeError::InvalidId)
            },
            None => match x.as_str() {
                Some(t) => Ok(Some(RequestId::from_string(String::from_str(t)))),
                None => Err(DecodeError::InvalidId),
            },
        },
    }
}

fn read_method(v: &serde_json::Value) -> (r: Result<Option<String>, DecodeError>)
    ensures
        match member_of(*v, "method"@) {
            None => r matches Ok(None),
            Some(x) => match str_of(x) {
                None => (r matches Err(e) && e is InvalidMethod),
                Some(t) => (r matches Ok(Some(m)) && m@ == t),
            },
        },
{
    match member(v, "method") {
        None => Ok(None),
        Some(x) => match x.as_str() {
            Some(t) => Ok(Some(String::from_str(t))),
            None => Err(DecodeError::InvalidMethod),
        },
    }
}

fn read_json(v: &serde_json::Value, key: &str) -> (r: Option<Json>)
    ensures
        r == opt_json_read(member_of(*v, key@)),
{
    match member(v, key) {
        None => None,
        Some(x) => Some(Json::from_value(x)),
    }
}

fn read_error(v: &serde_json::Value) -> (r: Result<Option<ResponseError>, DecodeError>)
    ensures
        match member_of(*v, "error"@) {
            None => r matches Ok(None),
            Some(e) => match error_read(e) {
                None => (r matches Err(d) && d is InvalidError),
                Some(t) => (r matches Ok(Some(re)) && t == (re.code as int, re.message@, re.data)),
            },
        },
{
    match member(v, "error") {
        None => Ok(None),
        Some(e) => {
            let code = match member(&e, "code") {
                Some(c) => match c.as_i64() {
                    Some(n) => if -2147483648 <= n && n <= 2147483647 {
                        n as i32
                    } else {
                        return Err(DecodeError::InvalidError);
                    },
                    None => {
                        return Err(DecodeError::InvalidError);
                    },
                },
                None => {
                    return Err(DecodeError::InvalidError);
                },
            };
            let message = match member(&e, "message") {
                Some(m) => match m.as_str() {
                    Some(t) => String::from_str(t),
                    None => {
                        return Err(DecodeError::InvalidError);
                    },
                },
                None => {
                    return Err(DecodeError::InvalidError);
                },
            };
            let data = read_json(&e, "data");
            Ok(Some(ResponseError { code, message, data }))
        },
    }
}

fn id_value(id: RequestId) -> (r: serde_json::Value)
    ensures
        r == id_json(id@),
{
    match id.repr {
        IdRepr::I32(n) => int_value(n),
        IdRepr::Str(t) => string_value(t),
    }
}

fn error_value(e: ResponseError) -> (r: serde_json::Value)
    ensures
        r == error_json(e),
{
    let ghost g = e;
    let mut members: Vec<(String, serde_json::Value)> = Vec::new();
    members.push((String::from_str("code"), int_value(e.code)));
    members.push((String::from_str("message"), string_value(e.message)));
    match e.data {
        Some(d) => members.push((String::from_str("data"), d.into_value())),
        None => {},
    }
    assert(member_views(members@) =~= seq![("code"@, int_json(g.code as int)), ("message"@, string_json(g.message@))]
        + opt_member("data"@, opt_json_value(g.data)));
    object_value(members)
}

impl RawMessage {
    /// Reads the members of a JSON value that tell a message.
    pub fn from_value(v: &serde_json::Value) -> (r: Result<RawMessage, DecodeError>)
        ensures
            match read_failure_of(*v) {
                Some(e) => r == Err::<RawMessage, DecodeError>(e),
                None => (r matches Ok(raw) && raw_read(*v, raw)),
            },
    {
        let id = match read_id(v) {
            Ok(id) => id,
            Err(e) => {
                return Err(e);
            },
        };
        let method = match read_method(v) {
            Ok(m) => m,
            Err(e) => {
                return Err(e);
            },
        };
        let error = match read_error(v) {
            Ok(e) => e,
            Err(e) => {
                return Err(e);
            },
        };
        let params = read_json(v, "params");
        let result = read_json(v, "result");
        Ok(RawMessage { id, method, params, result, error })
    }

    /// Writes the members as a JSON object, with `"jsonrpc": "2.0"` first when
    /// asked for.
    pub fn into_value(self, with_version: bool) -> (r: serde_json::Value)
        ensures
            r == object_of(raw_members(self, with_version)),
    {
        let ghost g = self;
        let mut members: Vec<(String, serde_json::Value)> = Vec::new();
        if with_version {
            members.push((String::from_str("jsonrpc"), string_value(String::from_str("2.0"))));
        }
        let ghost e1 = version_members(with_version);
        assert(member_views(members@) =~= e1);
        match self.id {
            Some(id) => members.push((String::from_str("id"), id_value(id))),
            None => {},
        }
        let ghost e2 = e1 + opt_member(
            "id"@,
            match g.id {
                Some(id) => Some(id_json(id@)),
                None => None,
            },
        );
        assert(member_views(members@) =~= e2);
        match self.method {
            Some(m) => members.push((String::from_str("method"), string_value(m))),
            None => {},
        }
        let ghost e3 = e2 + opt_member(
            "method"@,
            match g.method {
                Some(m) => Some(string_json(m@)),
                None => None,
            },
        );
        assert(member_views(members@) =~= e3);
        match self.params {
            Some(p) => members.push((String::from_str("params"), p.into_value())),
            None => {},
        }
        let ghost e4 = e3 + opt_member("params"@, opt_json_value(g.params));
        assert(member_views(members@) =~= e4);
        match self.result {
            Some(p) => members.push((String::from_str("result"), p.into_value())),
            None => {},
        }
        let ghost e5 = e4 + opt_member("result"@, opt_json_value(g.result));
        assert(member_views(members@) =~= e5);
        match self.error {
            Some(e) => members.push((String::from_str("error"), error_value(e))),
            None => {},
        }
        assert(member_views(members@) =~= raw_members(g, with_version));
        object_value(members)
    }
}

impl Message {
    /// The members this message is written with.
    pub fn into_raw(self) -> (r: RawMessage)
        ensures
            encodes(self, r),
    {
        match self {
            Message::Request(req) => {
                let (id, method, params) = req.into_parts();
                RawMessage { id: Some(id), method: Some(method), params, result: None, error: None }
            },
            Message::Response(resp) => RawMessage {
                id: Some(resp.id),
                method: None,
                params: None,
                result: resp.result,
                error: resp.error,
            },
            Message::Notification(n) => {
                let (method, params) = n.into_parts();
                RawMessage { id: None, method: Some(method), params, result: None, error: None }
            },
        }
    }

    /// The message that the members `raw` stand for.
    pub fn from_raw(raw: RawMessage) -> (r: Result<Message, DecodeError>)
        ensures
            r == decode_raw(raw),
    {
        match raw.id {
            Some(id) => match raw.method {
                Some(m) => match Request::from_parts(id, m, raw.params) {
                    Ok(r) => Ok(Message::Request(r)),
                    Err(e) => Err(e),
                },
                None => if raw.result.is_some() || raw.error.is_some() {
                    Ok(Message::Response(Response { id, result: raw.result, error: raw.error }))
                } else {
                    Err(DecodeError::NotAMessage)
                },
            },
            None => match raw.method {
                Some(m) => match Notification::from_parts(m, raw.params) {
                    Ok(n) => Ok(Message::Notification(n)),
                    Err(e) => Err(e),
                },
                None => Err(DecodeError::NotAMessage),
            },
        }
    }

    /// Decodes a message from a JSON value: its members are read, then their
    /// shape decides the kind of message.
    pub fn from_value(v: &serde_json::Value) -> (r: Result<Message, DecodeError>)
        ensures
            decodes_value(*v, r),
    {
        match RawMessage::from_value(v) {
            Ok(raw) => {
                let ghost g = raw;
                let r = Message::from_raw(raw);
                assert(raw_read(*v, g) && r == decode_raw(g));
                r
            },
            Err(e) => Err(e),
        }
    }

    /// The JSON value of this message, as its members are written:
    /// `params` left out where the method takes none.
    pub fn into_value(self) -> (r: serde_json::Value)
        ensures
            r == object_of(message_members(self, false)),
    {
        let ghost g = self;
        let raw = self.into_raw();
        proof {
            lemma_encoded_members(g, raw, false);
        }
        raw.into_value(false)
    }

    /// Decodes a message from JSON text: a syntax error where the text is not
    /// JSON, else what decoding its value gives.
    pub fn from_text(text: &str) -> (r: Result<Message, DecodeError>)
        ensures
            match parsed_of(text@) {
                Ok(v) => decodes_value(v, r),
                Err(e) => r == Err::<Message, DecodeError>(DecodeError::Syntax(e)),
            },
    {
        match parse_json(text) {
            Ok(v) => Message::from_value(&v),
            Err(e) => Err(DecodeError::Syntax(e)),
        }
    }

    /// The compact JSON text of this message as it goes on the wire, with
    /// `"jsonrpc": "2.0"` added.
    pub fn into_text(self) -> (r: String)
        ensures
            r@ == json_text_of(object_of(message_members(self, true))),
    {
        let ghost g = self;
        let raw = self.into_raw();
        proof {
            lemma_encoded_members(g, raw, true);
        }
        json_text(&raw.into_value(true))
    }

    /// The frame that carries this message's text on the wire.
    pub fn into_frame(self) -> (r: Vec<u8>)
        ensures
            r@ == frame_of(json_text_of(object_of(message_members(self, true)))),
    {
        let text = self.into_text();
        frame_message_text(text.as_str())
    }

    /// Whether this is the `exit` notification, after which nothing more is
    /// read from the peer.
    pub fn is_exit(&self) -> (r: bool)
        ensures
            r == (*self matches Message::Notification(n) && n is Exit),
    {
        match self {
            Message::Notification(n) => n.is_exit(),
            _ => false,
        }
    }
}

impl From<Request> for Message {
    fn from(v: Request) -> (r: Message) {
        Message::Request(v)
    }
}

impl vstd::std_specs::convert::FromSpecImpl<Request> for Message {
    open spec fn obeys_from_spec() -> bool {
        true
    }

    open spec fn from_spec(v: Request) -> Message {
        Message::Request(v)
    }
}

impl From<Response> for Message {
    fn from(v: Response) -> (r: Message) {
        Message::Response(v)
    }
}

impl vstd::std_specs::convert::FromSpecImpl<Response> for Message {
    open spec fn obeys_from_spec() -> bool {
        true
    }

    open spec fn from_spec(v: Response) -> Message {
        Message::Response(v)
    }
}

impl From<Notification> for Message {
    fn from(v: Notification) -> (r: Message) {
        Message::Notification(v)
    }
}

impl vstd::std_specs::convert::FromSpecImpl<Notification> for Message {
    open spec fn obeys_from_spec() -> bool {
        true
    }

    open spec fn from_spec(v: Notification) -> Message {
        Message::Notification(v)
    }
}

} // verus!
