//! The Bevy Remote Protocol: the request, response and error objects that a
//! remote client and a Bevy app exchange (JSON-RPC 2.0), and the decisions the
//! app takes while it answers requests.

pub mod dispatch;
pub mod entity;
pub mod error_codes;
pub mod protocol;

pub use entity::Entity;
pub use protocol::{BrpBatch, BrpError, BrpMessage, BrpPayload, BrpRequest, BrpResponse, BrpResult};
