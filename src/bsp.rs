//! The data of individual requests and results, in the form the server builds
//! them.
pub mod bt_capabilities;
pub mod bt_clean_cache;
pub mod bt_dependency_modules;
pub mod bt_did_change;
pub mod bt_identifier;
pub mod bt_resources;
pub mod initialize_params;
pub mod initialize_result;
pub mod server_capabilities;
pub mod show_message;
pub mod task_id;
pub mod workspace_build_targets;
