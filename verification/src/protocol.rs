//! The objects of the Bevy Remote Protocol.

use vstd::prelude::*;

use crate::entity::{entity_text, Entity};
use crate::error_codes;

verus! {

/// serde_json's `Value`: arbitrary JSON data, which the protocol carries
/// through without reading it.
#[verifier::external_type_specification]
#[verifier::external_body]
pub struct ExValue(serde_json::Value);

/// async_channel's `Sender`: the channel on which a response goes back to the
/// transport, carried through without being used here.
#[verifier::external_type_specification]
#[verifier::external_body]
#[verifier::reject_recursive_types(T)]
pub struct ExSender<T>(async_channel::Sender<T>);

/// A single request from a Bevy Remote Protocol client to the server,
/// serialized in JSON.
#[derive(Debug)]
pub struct BrpRequest {
    /// This field is mandatory and must be set to `"2.0"` for the request to be accepted.
    pub jsonrpc: String,
    /// The action to be performed.
    pub method: String,
    /// Arbitrary data that will be returned verbatim to the client as part of
    /// the response.
    pub id: Option<serde_json::Value>,
    /// The parameters, specific to each method.
    pub params: Option<serde_json::Value>,
}

/// A response according to BRP.
#[derive(Debug)]
pub struct BrpResponse {
    /// This field is mandatory and must be set to `"2.0"`.
    pub jsonrpc: &'static str,
    /// The id of the original request.
    pub id: Option<serde_json::Value>,
    /// The actual response payload.
    pub payload: BrpPayload,
}

/// A result/error payload present in every response.
#[derive(Debug)]
pub enum BrpPayload {
    /// `Ok` variant
    Result(serde_json::Value),
    /// `Err` variant
    Error(BrpError),
}

/// The result of a request.
pub type BrpResult<T = serde_json::Value> = Result<T, BrpError>;

/// The requests may occur on their own or in batches.
/// Actual parsing is deferred for the sake of proper error reporting.
#[derive(Debug)]
pub enum BrpBatch {
    /// Multiple requests with deferred parsing.
    Batch(Vec<serde_json::Value>),
    /// A single request with deferred parsing.
    Single(serde_json::Value),
}

/// A message from the Bevy Remote Protocol server thread to the main world.
#[derive(Debug)]
pub struct BrpMessage {
    /// The request method.
    pub method: String,
    /// The request params.
    pub params: Option<serde_json::Value>,
    /// The channel on which the response is to be sent.
    ///
    /// The value sent here is serialized and sent back to the client.
    pub sender: async_channel::Sender<BrpResult>,
}

impl BrpResponse {
    /// Generates a [`BrpResponse`] from an id and a `Result`.
    #[must_use]
    pub fn new(id: Option<serde_json::Value>, result: BrpResult) -> (response: Self)
        ensures
            response.jsonrpc@ == "2.0"@,
            response.id == id,
            response.payload == payload_of(result),
            result matches Ok(v) ==> response.payload == BrpPayload::Result(v),
            result matches Err(e) ==> response.payload == BrpPayload::Error(e),
    {
        BrpResponse { jsonrpc: "2.0", id, payload: BrpPayload::from(result) }
    }
}

/// The payload that carries a result: the value of a success, or the error
/// of a failure.
pub open spec fn payload_of(result: BrpResult) -> BrpPayload {
    match result {
        Ok(v) => BrpPayload::Result(v),
        Err(err) => BrpPayload::Error(err),
    }
}

/// A payload determines the result it carries: a response never loses
/// whether its request succeeded, nor the value or the error it answers with.
pub proof fn lemma_payload_keeps_result(a: BrpResult, b: BrpResult)
    requires
        payload_of(a) == payload_of(b),
    ensures
        a == b,
{
}

/// The payload of a success is the success's value, and the payload of a
/// failure is the very error of the failure: code, message and data.
pub proof fn lemma_payload_carries_result(result: BrpResult)
    ensures
        result matches Ok(v) ==> payload_of(result) == BrpPayload::Result(v),
        result matches Err(e) ==> payload_of(result) == BrpPayload::Error(e),
        payload_of(result) is Result <==> result is Ok,
{
}

impl From<BrpResult> for BrpPayload {
    fn from(value: BrpResult) -> (payload: Self)
        ensures
            value matches Ok(v) ==> payload == BrpPayload::Result(v),
            value matches Err(e) ==> payload == BrpPayload::Error(e),
    {
        match value {
            Ok(v) => BrpPayload::Result(v),
            Err(err) => BrpPayload::Error(err),
        }
    }
}

impl vstd::std_specs::convert::FromSpecImpl<BrpResult> for BrpPayload {
    open spec fn obeys_from_spec() -> bool {
        true
    }

    open spec fn from_spec(value: BrpResult) -> BrpPayload {
        payload_of(value)
    }
}

/// An error a request might return.
#[derive(Debug)]
pub struct BrpError {
    /// Defines the general type of the error.
    pub code: i16,
    /// Short, human-readable description of the error.
    pub message: String,
    /// Optional additional error data.
    pub data: Option<serde_json::Value>,
}

impl BrpError {
    /// Entity wasn't found.
    #[must_use]
    pub fn entity_not_found(entity: Entity) -> (error: Self)
        ensures
            error.code == error_codes::ENTITY_NOT_FOUND,
            error.message@ == "Entity "@ + entity_text(entity@) + " not found"@,
            error.data is None,
    {
        let mut message = String::from_str("Entity ");
        message.append(entity.text().as_str());
        message.append(" not found");
        BrpError { code: error_codes::ENTITY_NOT_FOUND, message, data: None }
    }

    /// Component wasn't found in an entity.
    #[must_use]
    pub fn component_not_present(component: &str, entity: Entity) -> (error: Self)
        ensures
            error.code == error_codes::COMPONENT_NOT_PRESENT,
            error.message@ == "Component `"@ + component@ + "` not present in Entity "@
                + entity_text(entity@),
            error.data is None,
    {
        let mut message = String::from_str("Component `");
        message.append(component);
        message.append("` not present in Entity ");
        message.append(entity.text().as_str());
        BrpError { code: error_codes::COMPONENT_NOT_PRESENT, message, data: None }
    }

    /// An arbitrary component error. Possibly related to reflection.
    ///
    /// `error` is the text of the error.
    #[must_use]
    pub fn component_error(error: String) -> (brp_error: Self)
        ensures
            brp_error.code == error_codes::COMPONENT_ERROR,
            brp_error.message == error,
            brp_error.data is None,
    {
        BrpError { code: error_codes::COMPONENT_ERROR, message: error, data: None }
    }

    /// An arbitrary internal error.
    ///
    /// `error` is the text of the error.
    #[must_use]
    pub fn internal(error: String) -> (brp_error: Self)
        ensures
            brp_error.code == error_codes::INTERNAL_ERROR,
            brp_error.message == error,
            brp_error.data is None,
    {
        BrpError { code: error_codes::INTERNAL_ERROR, message: error, data: None }
    }

    /// Attempt to reparent an entity to itself.
    #[must_use]
    pub fn self_reparent(entity: Entity) -> (error: Self)
        ensures
            error.code == error_codes::SELF_REPARENT,
            error.message@ == "Cannot reparent Entity "@ + entity_text(entity@) + " to itself"@,
            error.data is None,
    {
        let mut message = String::from_str("Cannot reparent Entity ");
        message.append(entity.text().as_str());
        message.append(" to itself");
        BrpError { code: error_codes::SELF_REPARENT, message, data: None }
    }
}

} // verus!
