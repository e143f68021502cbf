use bsp_server::error::ExtractError;
use bsp_server::framing::frame_message_text;
use bsp_server::json::Json;
use bsp_server::noti;
use bsp_server::{
    body_text, initialize_finish_step, initialize_start_step, parse_content_length,
    parse_header_line, read_msg_text, shutdown_finish_step, shutdown_response, ErrorCode,
    FramingError, HeaderStep, InitStart, Message, Notification, ProtocolError, Request, RequestId,
    Response,
};

fn object(text: &str) -> Json {
    Json::from_value(serde_json::from_str(text).unwrap())
}

#[test]
fn int_and_string_ids_differ() {
    let n = RequestId::from_int(92);
    let s = RequestId::from_string("92".to_string());
    assert_ne!(n, s);
    assert_eq!(n.to_display_string(), "92");
    assert_eq!(s.to_display_string(), "\"92\"");
    assert_eq!(RequestId::from_int(-7).to_display_string(), "-7");
    assert_eq!(RequestId::from_string("a\"b".to_string()).to_display_string(), "\"a\\\"b\"");
    assert_eq!(n.clone(), n);
}

#[test]
fn error_codes() {
    assert_eq!(ErrorCode::ParseError.code(), -32700);
    assert_eq!(ErrorCode::InvalidRequest.code(), -32600);
    assert_eq!(ErrorCode::MethodNotFound.code(), -32601);
    assert_eq!(ErrorCode::InvalidParams.code(), -32602);
    assert_eq!(ErrorCode::InternalError.code(), -32603);
    assert_eq!(ErrorCode::ServerErrorStart.code(), -32099);
    assert_eq!(ErrorCode::ServerErrorEnd.code(), -32000);
    assert_eq!(ErrorCode::ServerNotInitialized.code(), -32002);
    assert_eq!(ErrorCode::RequestCanceled.code(), -32800);
    assert_eq!(ErrorCode::ContentModified.code(), -32801);
    assert_eq!(ErrorCode::ServerCancelled.code(), -32802);
}

#[test]
fn response_constructors() {
    let id = RequestId::from_int(1);
    let cases: Vec<(Response, i32)> = vec![
        (Response::parse_error(id.clone(), "m".to_string()), -32700),
        (Response::server_not_initialized(id.clone(), "m".to_string()), -32002),
        (Response::invalid_request(id.clone(), "m".to_string()), -32600),
        (Response::method_not_found(id.clone(), "m".to_string()), -32601),
        (Response::invalid_params(id.clone(), "m".to_string()), -32602),
        (Response::internal_error(id.clone(), "m".to_string()), -32603),
        (Response::server_error_start(id.clone(), "m".to_string()), -32099),
        (Response::server_error_end(id.clone(), "m".to_string()), -32000),
        (Response::request_canceled(id.clone(), "m".to_string()), -32800),
        (Response::content_modified(id.clone(), "m".to_string()), -32801),
        (Response::server_canceled(id.clone(), "m".to_string()), -32802),
    ];
    for (r, code) in cases {
        assert_eq!(r.id, id);
        assert!(r.result.is_none());
        let e = r.error.unwrap();
        assert_eq!(e.code, code);
        assert_eq!(e.message, "m");
        assert!(e.data.is_none());
    }
    let ok = Response::ok(RequestId::from_int(2), Json::Null);
    assert!(matches!(ok.result, Some(Json::Null)));
    assert!(ok.error.is_none());
    let text = Message::Response(ok).into_text();
    assert_eq!(text, "{\"jsonrpc\":\"2.0\",\"id\":2,\"result\":null}");
}

#[test]
fn frame_round_trip() {
    let body = "{\"method\":\"build/exit\"}";
    let mut bytes = frame_message_text(body);
    assert_eq!(bytes, b"Content-Length: 23\r\n\r\n{\"method\":\"build/exit\"}".to_vec());
    let used = bytes.len();
    bytes.extend_from_slice(b"Content-Length: 2\r\n\r\n{}");
    let (text, n) = read_msg_text(&bytes).unwrap().unwrap();
    assert_eq!(text, body);
    assert_eq!(n, used);
    let (text2, n2) = read_msg_text(&bytes[n..]).unwrap().unwrap();
    assert_eq!(text2, "{}");
    assert_eq!(n2, bytes.len() - used);
}

#[test]
fn message_frame_round_trip() {
    let msg = Message::Request(Request::BuildTargetRun(RequestId::from_int(11), object("{\"target\":{\"uri\":\"file:///x\"}}")));
    let expected = format!("{:?}", msg);
    let bytes = msg.into_frame();
    let (text, used) = read_msg_text(&bytes).unwrap().unwrap();
    assert_eq!(used, bytes.len());
    let back = Message::from_text(&text).unwrap();
    assert_eq!(format!("{:?}", back), expected);
}

#[test]
fn frame_with_other_headers_and_multibyte_body() {
    let input = "Content-Type: application/json\r\nContent-Length: 4\r\n\r\n\"é\"".as_bytes();
    let (text, used) = read_msg_text(input).unwrap().unwrap();
    assert_eq!(text, "\"é\"");
    assert_eq!(used, input.len());
}

#[test]
fn end_of_stream_is_not_an_error() {
    assert!(matches!(read_msg_text(b""), Ok(None)));
}

#[test]
fn framing_errors() {
    assert_eq!(read_msg_text(b"Content-Length: 2\n\n{}"), Err(FramingError::MalformedHeader));
    assert_eq!(read_msg_text(b"Content-Length 2\r\n\r\n{}"), Err(FramingError::MalformedHeader));
    assert_eq!(read_msg_text(b"Content-Length: 2"), Err(FramingError::MalformedHeader));
    assert_eq!(read_msg_text(b"Content-Length: x\r\n\r\n{}"), Err(FramingError::InvalidContentLength));
    assert_eq!(read_msg_text(b"Content-Length: -1\r\n\r\n{}"), Err(FramingError::InvalidContentLength));
    assert_eq!(read_msg_text(b"Content-Length: 99999999999999999999999\r\n\r\n{}"), Err(FramingError::InvalidContentLength));
    assert_eq!(read_msg_text(b"X: 1\r\n\r\n{}"), Err(FramingError::MissingContentLength));
    assert_eq!(read_msg_text(b"Content-Length: 5\r\n\r\n{}"), Err(FramingError::TruncatedBody));
    assert_eq!(read_msg_text(b"Content-Length: 2\r\n\r\n\xff\xfe"), Err(FramingError::InvalidUtf8));
}

#[test]
fn header_lines() {
    assert_eq!(parse_header_line(b"\r\n", Some(3)), Ok(HeaderStep::End(Some(3))));
    assert_eq!(parse_header_line(b"Content-Length: 12\r\n", None), Ok(HeaderStep::More(Some(12))));
    assert_eq!(parse_header_line(b"Other: 12\r\n", Some(4)), Ok(HeaderStep::More(Some(4))));
    assert_eq!(parse_header_line(b"Other\r\n", None), Err(FramingError::MalformedHeader));
    assert_eq!(parse_content_length(b"+17"), Some(17));
    assert_eq!(parse_content_length(b"0"), Some(0));
    assert_eq!(parse_content_length(b""), None);
    assert_eq!(parse_content_length(b"+"), None);
    assert_eq!(parse_content_length(b"1 "), None);
    assert_eq!(body_text(b"abc"), Ok("abc".to_string()));
    assert_eq!(body_text(b"\xc3"), Err(FramingError::InvalidUtf8));
}

#[test]
fn handshake_happy_path() {
    let params = object("{\"displayName\":\"client\"}");
    let init = Message::Request(Request::InitializeBuild(RequestId::from_int(1), params));
    let (id, got) = match initialize_start_step(Some(init)) {
        InitStart::Begin(id, p) => (id, p),
        other => panic!("unexpected {:?}", other),
    };
    assert_eq!(id, RequestId::from_int(1));
    let response = Response::ok(id, object("{\"displayName\":\"server\"}"));
    assert!(matches!(response.result, Some(Json::Object(_))));
    assert!(initialize_finish_step(Some(Message::Notification(Notification::Initialized))).is_ok());
    assert_eq!(format!("{:?}", got), format!("{:?}", object("{\"displayName\":\"client\"}")));
}

#[test]
fn handshake_rejects_requests_before_initialize() {
    let early = Message::Request(Request::WorkspaceBuildTargets(RequestId::from_int(5)));
    match initialize_start_step(Some(early)) {
        InitStart::Reject(resp) => {
            assert_eq!(resp.id, RequestId::from_int(5));
            let e = resp.error.unwrap();
            assert_eq!(e.code, -32002);
            assert_eq!(e.message, "expected initialize request, got workspace/buildTargets");
        }
        other => panic!("unexpected {:?}", other),
    }
    let init = Message::Request(Request::InitializeBuild(RequestId::from_int(6), object("{}")));
    assert!(matches!(initialize_start_step(Some(init)), InitStart::Begin(_, _)));
}

#[test]
fn handshake_fails_on_anything_else() {
    assert!(matches!(initialize_start_step(Some(Message::Notification(Notification::Exit))), InitStart::Fail(_)));
    assert!(matches!(initialize_start_step(None), InitStart::Fail(_)));
    let resp = Message::Response(Response::ok(RequestId::from_int(1), Json::Null));
    assert!(matches!(initialize_start_step(Some(resp)), InitStart::Fail(_)));
    let e: ProtocolError = initialize_finish_step(Some(Message::Notification(Notification::Exit))).unwrap_err();
    assert!(e.message().contains("build/exit"));
    assert!(initialize_finish_step(None).is_err());
}

#[test]
fn shutdown_happy_path() {
    let req = Request::Shutdown(RequestId::from_int(8));
    let resp = shutdown_response(&req).unwrap();
    assert_eq!(resp.id, RequestId::from_int(8));
    assert!(matches!(resp.result, Some(Json::Null)));
    assert!(resp.error.is_none());
    assert_eq!(shutdown_finish_step(Some(Message::Notification(Notification::Exit))).unwrap(), true);
}

#[test]
fn shutdown_failures() {
    assert!(shutdown_finish_step(None).is_err());
    assert!(shutdown_finish_step(Some(Message::Notification(Notification::Initialized))).is_err());
    let other = Message::Request(Request::WorkspaceReload(RequestId::from_int(2)));
    assert!(shutdown_finish_step(Some(other)).is_err());
}

#[test]
fn non_shutdown_request_is_left_alone() {
    let req = Request::WorkspaceReload(RequestId::from_int(2));
    assert!(shutdown_response(&req).is_none());
}

#[test]
fn extraction() {
    let n = noti::Notification::new("build/showMessage".to_string(), serde_json::from_str("\"hi\"").unwrap());
    assert!(n.is_show_message());
    let p: String = n.extract("build/showMessage", serde_json::from_value).unwrap();
    assert_eq!(p, "hi");

    let n = noti::Notification::new("build/logMessage".to_string(), serde_json::Value::Null);
    match n.extract::<String, _>("build/showMessage", serde_json::from_value) {
        Err(ExtractError::MethodMismatch(back)) => {
            assert_eq!(back.method, "build/logMessage");
            assert!(back.is_log_message());
        }
        other => panic!("unexpected {:?}", other),
    }

    let n = noti::Notification::new("build/showMessage".to_string(), serde_json::from_str("{\"other\":1}").unwrap());
    match n.extract::<String, _>("build/showMessage", serde_json::from_value) {
        Err(ExtractError::JsonError { method, .. }) => assert_eq!(method, "build/showMessage"),
        other => panic!("unexpected {:?}", other),
    }
}

#[test]
fn generic_notification_kinds() {
    let n = noti::Notification::new("build/exit".to_string(), serde_json::Value::Null);
    assert!(n.is_exit());
    assert!(!n.is_initialized());
    let n = noti::Notification::new("build/publishDiagnostics".to_string(), serde_json::Value::Null);
    assert!(n.is_publish_diagnostics());
    assert!(!n.is_show_message());
}

#[test]
fn ids_from_and_order() {
    let n: RequestId = 92.into();
    let s: RequestId = "92".to_string().into();
    assert_eq!(n, RequestId::from_int(92));
    assert_eq!(s, RequestId::from_string("92".to_string()));
    assert_ne!(n, s);
    assert!(n < s);
    assert_eq!(n.partial_cmp(&s), Some(std::cmp::Ordering::Less));
    assert_eq!(n.cmp(&s), std::cmp::Ordering::Less);
    assert!(RequestId::from_int(-3) < RequestId::from_int(2));
    assert!(RequestId::from_string("ab".to_string()) < RequestId::from_string("b".to_string()));
    assert!(RequestId::from_string("a".to_string()) < RequestId::from_string("ab".to_string()));
    assert_eq!(
        RequestId::from_string("é".to_string()).partial_cmp(&RequestId::from_string("z".to_string())),
        Some("é".cmp("z"))
    );
}

#[test]
fn null_payloads_are_kept_as_null() {
    let msg = Message::from_text("{\"method\":\"x/y\",\"params\":null}").unwrap();
    assert!(matches!(msg, Message::Notification(Notification::Custom(_, Json::Null))));
    let text = msg.into_text();
    assert_eq!(text, "{\"jsonrpc\":\"2.0\",\"method\":\"x/y\",\"params\":null}");
}
