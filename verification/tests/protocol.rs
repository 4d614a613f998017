use bevy_remote::error_codes;
use bevy_remote::{BrpError, BrpPayload, BrpResponse, BrpResult, Entity};
use serde_json::Value;

#[test]
fn error_code_values() {
    assert_eq!(error_codes::PARSE_ERROR, -32700);
    assert_eq!(error_codes::INVALID_REQUEST, -32600);
    assert_eq!(error_codes::METHOD_NOT_FOUND, -32601);
    assert_eq!(error_codes::INVALID_PARAMS, -32602);
    assert_eq!(error_codes::INTERNAL_ERROR, -32603);
    assert_eq!(error_codes::ENTITY_NOT_FOUND, -23401);
    assert_eq!(error_codes::COMPONENT_ERROR, -23402);
    assert_eq!(error_codes::COMPONENT_NOT_PRESENT, -23403);
    assert_eq!(error_codes::SELF_REPARENT, -23404);
}

#[test]
fn error_codes_are_distinct_and_split_by_reserved_range() {
    let jsonrpc = [
        error_codes::PARSE_ERROR,
        error_codes::INVALID_REQUEST,
        error_codes::METHOD_NOT_FOUND,
        error_codes::INVALID_PARAMS,
        error_codes::INTERNAL_ERROR,
    ];
    let bevy = [
        error_codes::ENTITY_NOT_FOUND,
        error_codes::COMPONENT_ERROR,
        error_codes::COMPONENT_NOT_PRESENT,
        error_codes::SELF_REPARENT,
    ];
    for c in jsonrpc {
        assert!((-32768..=-32000).contains(&c));
    }
    for c in bevy {
        assert!(!(-32768..=-32000).contains(&c));
    }
    let all: Vec<i16> = jsonrpc.iter().chain(bevy.iter()).copied().collect();
    for i in 0..all.len() {
        for j in 0..all.len() {
            if i != j {
                assert_ne!(all[i], all[j]);
            }
        }
    }
}

#[test]
fn entity_from_raw_has_generation_one() {
    let e = Entity::from_raw(7);
    assert_eq!(e.to_bits(), (1u64 << 32) | 7);
}

#[test]
fn entity_bits_are_checked() {
    assert!(Entity::try_from_bits(5).is_none());
    assert!(Entity::try_from_bits(0x8000_0000_0000_0000).is_none());
    assert!(Entity::try_from_bits(u64::MAX).is_none());
    let bits = (3u64 << 32) | 9;
    assert_eq!(Entity::try_from_bits(bits).unwrap().to_bits(), bits);
    let top = 0x7FFF_FFFF_FFFF_FFFFu64;
    assert_eq!(Entity::try_from_bits(top).unwrap().to_bits(), top);
}

#[test]
fn entity_not_found_message() {
    let err = BrpError::entity_not_found(Entity::from_raw(5));
    assert_eq!(err.code, error_codes::ENTITY_NOT_FOUND);
    assert_eq!(err.message, "Entity 5v1 not found");
    assert!(err.data.is_none());
}

#[test]
fn entity_not_found_message_with_generation() {
    let e = Entity::try_from_bits((12u64 << 32) | 4294967295).unwrap();
    let err = BrpError::entity_not_found(e);
    assert_eq!(err.message, "Entity 4294967295v12 not found");
}

#[test]
fn entity_not_found_placeholder() {
    let e = Entity::try_from_bits(0x1_FFFF_FFFF).unwrap();
    let err = BrpError::entity_not_found(e);
    assert_eq!(err.message, "Entity PLACEHOLDER not found");
}

#[test]
fn component_not_present_message() {
    let err = BrpError::component_not_present(
        "bevy_transform::components::transform::Transform",
        Entity::try_from_bits(4294967298).unwrap(),
    );
    assert_eq!(err.code, error_codes::COMPONENT_NOT_PRESENT);
    assert_eq!(
        err.message,
        "Component `bevy_transform::components::transform::Transform` not present in Entity 2v1"
    );
    assert!(err.data.is_none());
}

#[test]
fn component_error_keeps_text() {
    let err = BrpError::component_error("cannot reflect".to_string());
    assert_eq!(err.code, error_codes::COMPONENT_ERROR);
    assert_eq!(err.message, "cannot reflect");
    assert!(err.data.is_none());
}

#[test]
fn internal_keeps_text() {
    let err = BrpError::internal("boom".to_string());
    assert_eq!(err.code, error_codes::INTERNAL_ERROR);
    assert_eq!(err.message, "boom");
    assert!(err.data.is_none());
}

#[test]
fn self_reparent_message() {
    let err = BrpError::self_reparent(Entity::from_raw(0));
    assert_eq!(err.code, error_codes::SELF_REPARENT);
    assert_eq!(err.message, "Cannot reparent Entity 0v1 to itself");
    assert!(err.data.is_none());
}

#[test]
fn response_to_success() {
    let result: BrpResult = Ok(Value::from(42));
    let response = BrpResponse::new(Some(Value::from(0)), result);
    assert_eq!(response.jsonrpc, "2.0");
    assert_eq!(response.id, Some(Value::from(0)));
    match response.payload {
        BrpPayload::Result(v) => assert_eq!(v, Value::from(42)),
        BrpPayload::Error(_) => panic!("expected a result"),
    }
}

#[test]
fn response_to_error() {
    let result: BrpResult = Err(BrpError::internal("bad".to_string()));
    let response = BrpResponse::new(None, result);
    assert_eq!(response.jsonrpc, "2.0");
    assert!(response.id.is_none());
    match response.payload {
        BrpPayload::Error(e) => {
            assert_eq!(e.code, error_codes::INTERNAL_ERROR);
            assert_eq!(e.message, "bad");
        }
        BrpPayload::Result(_) => panic!("expected an error"),
    }
}

#[test]
fn payload_from_result() {
    let ok: BrpResult = Ok(Value::Bool(true));
    assert!(matches!(BrpPayload::from(ok), BrpPayload::Result(Value::Bool(true))));
    let err: BrpResult = Err(BrpError::self_reparent(Entity::from_raw(1)));
    match BrpPayload::from(err) {
        BrpPayload::Error(e) => assert_eq!(e.code, error_codes::SELF_REPARENT),
        BrpPayload::Result(_) => panic!("expected an error"),
    }
}
