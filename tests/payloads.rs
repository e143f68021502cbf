use bsp_server::bsp::bt_capabilities::BspBuildTargetCapabilities;
use bsp_server::bsp::bt_clean_cache::BTCleanCacheResult;
use bsp_server::bsp::bt_dependency_modules::BspBTDependencyModule;
use bsp_server::bsp::bt_identifier::BspBuildTargetIdentifier;
use bsp_server::bsp::initialize_params::InitializeBuildParams;
use bsp_server::bsp::initialize_result::BspInitializeBuildResult;
use bsp_server::bsp::bt_resources::{BspResourcesItem, BspResourcesParams, BspResourcesResult};
use bsp_server::bsp::server_capabilities::ServerCapabilities;
use bsp_server::bsp::show_message::ShowMessage as BspShowMessage;
use bsp_server::bsp::task_id::BspTaskId;
use bsp_server::bsp::workspace_build_targets::BuildTarget;
use bsp_server::bt_did_change::{BuildTargetEvent, BuildTargetEventKind};
use bsp_server::bt_identifier::BuildTargetIdentifier;
use bsp_server::debug_session_start::DebugSessionStart;
use bsp_server::bt_tag::BuildTargetTag;
use bsp_server::client_capabilities::ClientCapabilities;
use bsp_server::initialize_params::InitializeBuild;
use bsp_server::json::Json;
use bsp_server::initialize_result::InitializeBuildResult;
use bsp_server::log_message::LogMessage;
use bsp_server::message_type::MessageType;
use bsp_server::providers::CompileProvider;
use bsp_server::show_message::ShowMessage;
use bsp_server::task::{TaskDataKind, TaskId, TaskStatus};
use bsp_server::task_events::{TaskFinish, TaskStart};

#[test]
fn message_type_codes() {
    assert_eq!(MessageType::Error.code(), 1);
    assert_eq!(MessageType::Warning.code(), 2);
    assert_eq!(MessageType::Info.code(), 3);
    assert_eq!(MessageType::Log.code(), 4);
    assert_eq!(MessageType::default(), MessageType::Log);
}

#[test]
fn task_ids() {
    let mut t = TaskId::new_simple("a".to_string());
    assert!(t.parents.is_empty());
    t.add_parent("p".to_string());
    t.add_parent("q".to_string());
    assert_eq!(t.parents, vec!["p".to_string(), "q".to_string()]);
    let u = TaskId::new("b".to_string(), vec!["x".to_string()]);
    assert_eq!(u.id, "b");
    let b = BspTaskId::new_simple("c".to_string());
    assert!(b.parents.is_none());
}

#[test]
fn task_data_kinds() {
    assert_eq!(TaskDataKind::from_name(Some("compile-task".to_string())), TaskDataKind::CompileTask);
    assert_eq!(TaskDataKind::from_name(Some("test-finish".to_string())), TaskDataKind::TestFinish);
    assert_eq!(TaskDataKind::from_name(Some("mine".to_string())), TaskDataKind::Custom("mine".to_string()));
    assert_eq!(TaskDataKind::from_name(None), TaskDataKind::NoData);
    assert!(TaskDataKind::default().is_none());
    assert_eq!(TaskDataKind::TestReport.name(), Some("test-report"));
    assert_eq!(TaskDataKind::Custom("z".to_string()).name(), Some("z"));
    assert_eq!(TaskDataKind::NoData.name(), None);
}

#[test]
fn task_statuses() {
    assert!(TaskStatus::Succeeded.is_ok());
    assert!(TaskStatus::Error.is_error());
    assert!(TaskStatus::Cancelled.is_cancelled());
    assert!(!TaskStatus::Cancelled.is_ok());
    assert_eq!(TaskStatus::Error.code(), 2);
    assert_eq!(TaskStatus::Cancelled.to_display_string(), "Cancelled");
    assert_eq!(TaskStatus::default(), TaskStatus::Succeeded);
}

#[test]
fn log_and_show_messages() {
    let l = LogMessage::warn("careful".to_string(), None, Some("r1".to_string()));
    assert_eq!(l.typ, MessageType::Warning);
    assert_eq!(l.message, "careful");
    assert_eq!(l.origin_id.as_deref(), Some("r1"));
    let s = ShowMessage::error("bad".to_string(), Some(TaskId::new_simple("t".to_string())), None);
    assert_eq!(s.typ, MessageType::Error);
    assert_eq!(s.task.unwrap().id, "t");
    assert_eq!(ShowMessage::info("i".to_string(), None, None).typ, MessageType::Info);
    assert_eq!(LogMessage::log("l".to_string(), None, None).typ, MessageType::Log);
    let b = BspShowMessage::new_simple(MessageType::Info, "hello".to_string());
    assert!(b.task.is_none() && b.origin_id.is_none());
    assert_eq!(b.message, "hello");
}

#[test]
fn client_capabilities() {
    let mut c = ClientCapabilities::new(vec!["rust".to_string()]);
    assert_eq!(c.language_ids(), &["rust".to_string()]);
    c.language_ids_mut().push("c".to_string());
    assert_eq!(c.language_ids().len(), 2);
    c.set_language_ids(Vec::new());
    assert!(c.language_ids().is_empty());
    assert!(ClientCapabilities::default().language_ids().is_empty());
}

#[test]
fn tags_and_event_kinds() {
    assert_eq!(BuildTargetTag::custom("x".to_string()), BuildTargetTag::Custom("x".to_string()));
    assert_eq!(BuildTargetTag::default(), BuildTargetTag::NoIDE);
    assert_eq!(BuildTargetEventKind::Deleted.code(), 3);
    assert_eq!(BuildTargetEventKind::default(), BuildTargetEventKind::Created);
}

#[test]
fn target_capabilities() {
    let mut c = BspBuildTargetCapabilities::new(true, false, true, false);
    assert!(c.can_compile() && !c.can_test() && c.can_run() && !c.can_debug());
    c.set_can_test(true);
    c.set_can_debug(true);
    c.set_can_compile(false);
    c.set_can_run(false);
    assert!(!c.can_compile() && c.can_test() && !c.can_run() && c.can_debug());
}

#[test]
fn identifiers_and_resources() {
    let mut id = BspBuildTargetIdentifier::new("file:///a".to_string());
    assert_eq!(id.uri(), "file:///a");
    assert!(!id.is_empty());
    id.set_uri(String::new());
    assert!(id.is_empty());
    let mut item = BspResourcesItem::new(BspBuildTargetIdentifier::new("t".to_string()), vec!["r.txt".to_string()]);
    assert_eq!(item.target().uri(), "t");
    item.set_resources(vec![]);
    assert!(item.resources().is_empty());
    item.set_target(BspBuildTargetIdentifier::new("u".to_string()));
    let mut result = BspResourcesResult::new(vec![]);
    result.items_mut().push(item);
    assert_eq!(result.items()[0].target().uri(), "u");
    let mut params = BspResourcesParams::new(vec![]);
    params.targets_mut().push(BspBuildTargetIdentifier::new("v".to_string()));
    assert_eq!(params.targets().len(), 1);
}

#[test]
fn clean_cache_result() {
    let mut r = BTCleanCacheResult::new_simple(true);
    assert!(r.cleaned());
    assert!(r.message().is_none());
    r.set_message(Some("done".to_string()));
    r.set_cleaned(false);
    assert_eq!(r.message(), Some(&"done".to_string()));
    assert!(!r.cleaned());
}

#[test]
fn server_capabilities() {
    let mut s = ServerCapabilities::default();
    assert!(s.compile_provider().is_none());
    assert_eq!(s.can_reload(), None);
    s.set_compile_provider(Some(CompileProvider { language_ids: vec!["rust".to_string()] }));
    s.set_can_reload(Some(true));
    assert_eq!(s.compile_provider().unwrap().language_ids, vec!["rust".to_string()]);
    assert_eq!(s.can_reload(), Some(true));
    assert_eq!(s.resources_provider(), None);
}

#[test]
fn initialize_params() {
    let mut p = InitializeBuild::default();
    p.set_display_name("MyName".to_string());
    assert_eq!(p.display_name(), "MyName");
    assert_eq!(p.root_path(), None);
    p.set_root_uri("file:///home/me/ws".to_string());
    assert_eq!(p.root_path(), Some("/home/me/ws".to_string()));
    p.set_root_uri("https://x".to_string());
    assert_eq!(p.root_path(), None);
    let q = InitializeBuild::new_simple("c".to_string(), "1".to_string(), "2.0".to_string(), "file://".to_string(), ClientCapabilities::default());
    assert_eq!(q.root_path(), Some(String::new()));
    assert!(q.data().is_none());
    let mut r = InitializeBuildResult::new_simple("s".to_string(), "0.1".to_string(), "2.0".to_string(), ServerCapabilities::default());
    assert_eq!(r.bsp_version(), "2.0");
    *r.data_mut() = Some(serde_json::Value::Bool(true));
    assert_eq!(r.data(), Some(&serde_json::Value::Bool(true)));
}

#[test]
fn build_targets_and_modules() {
    let t = BuildTarget::new_simple(BspBuildTargetIdentifier::new("a".to_string()), vec![BuildTargetTag::Test], BspBuildTargetCapabilities::default(), vec!["rust".to_string()], vec![]);
    assert!(t.display_name.is_none() && t.base_directory.is_none());
    assert_eq!(t.language_ids, vec!["rust".to_string()]);
    let mut m = BspBTDependencyModule::new_simple("serde".to_string(), "1.0".to_string());
    assert_eq!(m.name(), "serde");
    m.set_data_kind(Some("cargo".to_string()));
    assert_eq!(m.data_kind(), Some(&"cargo".to_string()));
}

#[test]
fn task_events_and_sessions() {
    let s = TaskStart::new(TaskId::new_simple("some_id".to_string()));
    assert_eq!(s.task_id.id, "some_id");
    assert!(s.event_time.is_none() && s.message.is_empty());
    assert!(s.data_kind.is_none());
    let f = TaskFinish::new(TaskId::new_simple("t".to_string()));
    assert!(f.status.is_ok());
    let mut d = DebugSessionStart::new(vec![BuildTargetIdentifier::new("file:///t".to_string())], "kind".to_string(), Json::Null);
    assert_eq!(d.targets()[0].uri(), "file:///t");
    d.set_data_kind("other".to_string());
    assert_eq!(d.data_kind(), "other");
}

#[test]
fn target_changes() {
    let e = BuildTargetEvent::new_simple(BuildTargetIdentifier::new("a".to_string()));
    assert!(e.kind.is_none() && e.data.is_none());
    assert_eq!(e.target.uri(), "a");
}

#[test]
fn initialize_params_with_paths() {
    let mut p = InitializeBuildParams::new_simple("c".to_string(), "1".to_string(), "2.0".to_string(), "/ws".to_string(), ClientCapabilities::default());
    assert_eq!(p.root_uri(), "/ws");
    assert!(p.data().is_none());
    p.set_data(Some(serde_json::Value::Null));
    assert!(p.data().is_some());
    let r = BspInitializeBuildResult::new("s".to_string(), "0.1".to_string(), "2.0".to_string(), ServerCapabilities::default(), None);
    assert_eq!(r.display_name(), "s");
    assert!(r.data().is_none());
}
