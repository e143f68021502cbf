use bsp_server::json::Json;
use bsp_server::message::RawMessage;
use bsp_server::{DecodeError, Message, Notification, Request, RequestId, Response};

fn to_json_string(msg: Message) -> String {
    serde_json::to_string(&msg.into_value()).unwrap()
}

fn json(text: &str) -> serde_json::Value {
    serde_json::from_str(text).unwrap()
}

fn object(text: &str) -> Json {
    Json::from_value(json(text))
}

#[test]
fn initialized() {
    let result = to_json_string(Message::Notification(Notification::Initialized));
    assert_eq!(result, "{\"method\":\"build/initialized\"}");
}

#[test]
fn exit() {
    let result = to_json_string(Message::Notification(Notification::Exit));
    assert_eq!(result, "{\"method\":\"build/exit\"}");
}

#[test]
fn notification_show_message() {
    let value = Notification::TaskStart(object("{\"taskId\":{\"id\":\"some_id\"}}"));
    let result = to_json_string(Message::Notification(value));
    assert_eq!(
        result,
        "{\"method\":\"build/taskStart\",\"params\":{\"taskId\":{\"id\":\"some_id\"}}}"
    );
}

#[test]
fn notification_custom() {
    let value = Notification::Custom("custom".to_string(), Json::Null);
    let result = to_json_string(Message::Notification(value));
    assert_eq!(result, "{\"method\":\"custom\",\"params\":null}");
}

#[test]
fn initialized_without_params() {
    let value = "{\"method\":\"build/initialized\"}";
    let msg = Message::from_text(value).unwrap();
    assert!(matches!(msg, Message::Notification(Notification::Initialized)));
}

#[test]
fn initialized_with_params() {
    let value = json("{\"jsonrpc\": \"2.0\", \"method\": \"build/initialized\"}");
    let result = Message::from_value(&value).unwrap();
    assert!(matches!(result, Message::Notification(Notification::Initialized)));
}

#[test]
fn notification_show_message_decodes() {
    let value = "{\"method\":\"build/taskStart\",\"params\":{\"taskId\":{\"id\":\"some_id\"}}}";
    let result = Message::from_text(value).unwrap();
    assert!(matches!(result, Message::Notification(Notification::TaskStart(Json::Object(_)))));
}

#[test]
fn shutdown() {
    let value = Request::Shutdown(RequestId::from_int(3));
    let result = to_json_string(Message::Request(value));
    assert_eq!(result, "{\"id\":3,\"method\":\"build/shutdown\"}");
}

#[test]
fn request_initialize_serializes() {
    let params = object("{\"displayName\":\"MyName\",\"capabilities\":{\"languageIds\":[]}}");
    let value = Request::InitializeBuild(RequestId::from_int(3), params);
    let result = to_json_string(Message::Request(value));
    assert_eq!(
        result,
        "{\"id\":3,\"method\":\"build/initialize\",\"params\":{\"displayName\":\"MyName\",\"capabilities\":{\"languageIds\":[]}}}"
    );
}

#[test]
fn debug_session_start() {
    let params = object("{\"targets\":[],\"dataKind\":\"Some\"}");
    let value = Request::DebugSessionStart(RequestId::from_int(3), params);
    let result = to_json_string(Message::Request(value));
    assert_eq!(result, "{\"id\":3,\"method\":\"debugSession/start\",\"params\":{\"targets\":[],\"dataKind\":\"Some\"}}");
}

#[test]
fn request_custom() {
    let value = Request::Custom(RequestId::from_int(3), "some/method".to_string(), Json::Null);
    let result = to_json_string(Message::Request(value));
    assert_eq!(result, "{\"id\":3,\"method\":\"some/method\"}");
}

#[test]
fn request_initialize() {
    let value = "{\"id\":3,\"method\":\"build/initialize\",\"params\":{\"displayName\":\"MyName\",\"capabilities\":{\"languageIds\":[]}}}";
    let msg = Message::from_text(value).unwrap();
    assert!(matches!(msg, Message::Request(Request::InitializeBuild(_, Json::Object(_)))));
}

#[test]
fn shutdown_with_explicit_null() {
    let text = "{\"jsonrpc\": \"2.0\",\"id\": 3,\"method\": \"build/shutdown\", \"params\": null }";
    let msg = Message::from_text(text).unwrap();
    assert!(matches!(msg, Message::Request(Request::Shutdown(id)) if id == RequestId::from_int(3)));
}

#[test]
fn shutdown_with_no_params() {
    let text = "{\"jsonrpc\": \"2.0\",\"id\": 3,\"method\": \"build/shutdown\"}";
    let msg = Message::from_text(text).unwrap();
    assert!(matches!(msg, Message::Request(Request::Shutdown(id)) if id == RequestId::from_int(3)));
}

#[test]
fn serialize_request_with_null_params() {
    let msg = Message::Request(Request::Shutdown(RequestId::from_int(3)));
    let serialized = to_json_string(msg);
    assert_eq!("{\"id\":3,\"method\":\"build/shutdown\"}", serialized);
}

#[test]
fn initialized_with_explicit_null_params() {
    let msg = Message::from_text("{\"method\":\"build/initialized\",\"params\":null}").unwrap();
    assert!(matches!(msg, Message::Notification(Notification::Initialized)));
}

#[test]
fn string_ids_stay_strings() {
    let msg = Message::from_text("{\"id\":\"92\",\"method\":\"build/shutdown\"}").unwrap();
    match msg {
        Message::Request(Request::Shutdown(id)) => {
            assert_eq!(id, RequestId::from_string("92".to_string()));
            assert_ne!(id, RequestId::from_int(92));
        }
        other => panic!("unexpected {:?}", other),
    }
}

#[test]
fn unknown_request_method_becomes_custom() {
    let msg = Message::from_text("{\"id\":1,\"method\":\"x/y\",\"params\":[1,2]}").unwrap();
    match msg {
        Message::Request(Request::Custom(id, method, Json::Other(v))) => {
            assert_eq!(id, RequestId::from_int(1));
            assert_eq!(method, "x/y");
            assert_eq!(v, json("[1,2]"));
        }
        other => panic!("unexpected {:?}", other),
    }
}

#[test]
fn unknown_notification_without_params_holds_null() {
    let msg = Message::from_text("{\"method\":\"x/y\"}").unwrap();
    assert!(matches!(msg, Message::Notification(Notification::Custom(m, Json::Null)) if m == "x/y"));
}

#[test]
fn known_method_with_wrong_payload_names_the_method() {
    let err = Message::from_text("{\"id\":1,\"method\":\"buildTarget/compile\",\"params\":3}").unwrap_err();
    assert!(matches!(err, DecodeError::PayloadMismatch { method } if method == "buildTarget/compile"));
    let err = Message::from_text("{\"method\":\"build/taskStart\"}").unwrap_err();
    assert!(matches!(err, DecodeError::PayloadMismatch { method } if method == "build/taskStart"));
}

#[test]
fn decode_errors() {
    assert!(matches!(Message::from_text("{not json"), Err(DecodeError::Syntax(_))));
    assert!(matches!(Message::from_text("{\"id\":1.5,\"method\":\"m\"}"), Err(DecodeError::InvalidId)));
    assert!(matches!(Message::from_text("{\"id\":4294967296,\"method\":\"m\"}"), Err(DecodeError::InvalidId)));
    assert!(matches!(Message::from_text("{\"method\":7}"), Err(DecodeError::InvalidMethod)));
    assert!(matches!(Message::from_text("{\"id\":1,\"error\":{\"code\":\"x\",\"message\":\"m\"}}"), Err(DecodeError::InvalidError)));
    assert!(matches!(Message::from_text("{\"id\":1}"), Err(DecodeError::NotAMessage)));
    assert!(matches!(Message::from_text("{}"), Err(DecodeError::NotAMessage)));
}

#[test]
fn responses_decode() {
    let msg = Message::from_text("{\"id\":5,\"result\":null}").unwrap();
    match msg {
        Message::Response(r) => {
            assert_eq!(r.id, RequestId::from_int(5));
            assert!(matches!(r.result, Some(Json::Null)));
            assert!(r.error.is_none());
        }
        other => panic!("unexpected {:?}", other),
    }
    let msg = Message::from_text("{\"id\":\"a\",\"error\":{\"code\":-32601,\"message\":\"no\",\"data\":{\"k\":1}}}").unwrap();
    match msg {
        Message::Response(r) => {
            let e = r.error.unwrap();
            assert_eq!(e.code, -32601);
            assert_eq!(e.message, "no");
            assert!(matches!(e.data, Some(Json::Object(_))));
        }
        other => panic!("unexpected {:?}", other),
    }
}

#[test]
fn request_with_id_and_method_wins_over_result() {
    let msg = Message::from_text("{\"id\":1,\"method\":\"workspace/reload\",\"result\":2}").unwrap();
    assert!(matches!(msg, Message::Request(Request::WorkspaceReload(_))));
}

#[test]
fn raw_members_round_trip() {
    let cases = vec![
        Message::Request(Request::Shutdown(RequestId::from_int(3))),
        Message::Request(Request::BuildTargetCompile(RequestId::from_string("c".to_string()), object("{\"targets\":[]}"))),
        Message::Request(Request::Custom(RequestId::from_int(-4), "a/b".to_string(), object("{\"q\":true}"))),
        Message::Notification(Notification::Exit),
        Message::Notification(Notification::Custom("n".to_string(), Json::Null)),
        Message::Response(Response::ok(RequestId::from_int(9), Json::Null)),
        Message::Response(Response::invalid_params(RequestId::from_int(9), "bad".to_string())),
    ];
    for msg in cases {
        let text = format!("{:?}", msg);
        let raw: RawMessage = msg.into_raw();
        let back = Message::from_raw(raw).unwrap();
        assert_eq!(format!("{:?}", back), text);
    }
}

#[test]
fn text_round_trip_adds_version() {
    let msg = Message::Request(Request::DebugSessionStart(RequestId::from_int(7), object("{\"targets\":[],\"dataKind\":\"Some\"}")));
    let text = msg.clone().into_text();
    assert_eq!(
        text,
        "{\"jsonrpc\":\"2.0\",\"id\":7,\"method\":\"debugSession/start\",\"params\":{\"targets\":[],\"dataKind\":\"Some\"}}"
    );
    let back = Message::from_text(&text).unwrap();
    assert_eq!(format!("{:?}", back), format!("{:?}", msg));
}

#[test]
fn exit_is_recognised() {
    assert!(Message::Notification(Notification::Exit).is_exit());
    assert!(!Message::Notification(Notification::Initialized).is_exit());
    assert!(!Message::Request(Request::Shutdown(RequestId::from_int(1))).is_exit());
}

#[test]
fn methods_and_ids() {
    let r = Request::BuildTargetTest(RequestId::from_int(2), Json::Null);
    assert_eq!(r.method(), "buildTarget/test");
    assert_eq!(r.id(), &RequestId::from_int(2));
    let c = Request::Custom(RequestId::from_int(3), "my/method".to_string(), Json::Null);
    assert_eq!(c.method(), "my/method");
    assert_eq!(Notification::TaskProgress(Json::Null).method(), "build/taskProgressing");
    assert_eq!(Notification::Custom("z".to_string(), Json::Null).method(), "z");
}

#[test]
fn notifications_without_payload_by_method() {
    assert!(matches!(Notification::from_method("build/exit"), Notification::Exit));
    assert!(matches!(Notification::from_method("build/initialized"), Notification::Initialized));
    assert!(Notification::Exit.is_exit());
    assert!(Notification::Initialized.is_initialized());
    assert!(!Notification::Exit.is_initialized());
}
