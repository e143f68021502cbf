//! A transport and message layer for the Build Server Protocol: framed JSON-RPC
//! messages, method-keyed payload dispatch, and the initialize and shutdown
//! handshakes.
pub mod bsp;
pub mod bt_dependency_modules;
pub mod bt_dependency_sources;
pub mod bt_did_change;
pub mod bt_identifier;
pub mod bt_inverse_sources;
pub mod bt_resources;
pub mod bt_tag;
pub mod client_capabilities;
pub mod debug_session_start;
pub mod error;
pub mod framing;
pub mod handshake;
pub mod id;
pub mod initialize_params;
pub mod initialize_result;
pub mod json;
pub mod log_message;
pub mod message;
pub mod message_type;
pub mod noti;
pub mod notification;
pub mod providers;
pub mod request;
pub mod response;
pub mod show_message;
pub mod task;
pub mod task_events;

pub use error::{DecodeError, ErrorCode, ExtractError, ProtocolError};
pub use framing::{body_text, parse_content_length, parse_header_line, read_msg_text, FramingError, HeaderStep};
pub use handshake::{initialize_finish_step, initialize_start_step, shutdown_finish_step, shutdown_response, InitStart};
pub use id::{IdRepr, IdView, RequestId};
pub use json::Json;
pub use message::{Message, RawMessage};
pub use notification::Notification;
pub use request::Request;
pub use response::{Response, ResponseError};
