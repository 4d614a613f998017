use bevy_remote::dispatch::{
    closed_requests, find_handler, finish_request, method_not_found, params_or_error,
    plan_request, plan_requests, requests_with_method, HandlerOutcome, PendingRequest,
    RequestAction,
};
use bevy_remote::error_codes;
use bevy_remote::BrpError;
use serde_json::Value;

fn names(list: &[&str]) -> Vec<String> {
    list.iter().map(|s| s.to_string()).collect()
}

#[test]
fn find_handler_takes_first_match() {
    let handlers = names(&["bevy/get", "bevy/query", "bevy/get"]);
    assert_eq!(find_handler(&handlers, &"bevy/get".to_string()), Some(0));
    assert_eq!(find_handler(&handlers, &"bevy/query".to_string()), Some(1));
    assert_eq!(find_handler(&handlers, &"bevy/spawn".to_string()), None);
    assert_eq!(find_handler(&Vec::new(), &"bevy/get".to_string()), None);
}

#[test]
fn find_handler_is_case_sensitive() {
    let handlers = names(&["bevy/get"]);
    assert_eq!(find_handler(&handlers, &"Bevy/Get".to_string()), None);
}

#[test]
fn method_not_found_error() {
    let e = method_not_found("bevy/nope");
    assert_eq!(e.code, error_codes::METHOD_NOT_FOUND);
    assert_eq!(e.message, "Method `bevy/nope` not found");
    assert!(e.data.is_none());
}

#[test]
fn plan_skips_closed_requests() {
    let handlers = names(&["bevy/get"]);
    assert!(matches!(plan_request(true, &"bevy/get".to_string(), &handlers), RequestAction::Skip));
    assert!(matches!(plan_request(true, &"unknown".to_string(), &handlers), RequestAction::Skip));
}

#[test]
fn plan_rejects_unknown_method() {
    let handlers = names(&["bevy/get"]);
    match plan_request(false, &"bevy/list".to_string(), &handlers) {
        RequestAction::Reject(e) => {
            assert_eq!(e.code, error_codes::METHOD_NOT_FOUND);
            assert_eq!(e.message, "Method `bevy/list` not found");
        }
        _ => panic!("expected a rejection"),
    }
}

#[test]
fn plan_dispatches_known_method() {
    let handlers = names(&["bevy/get", "bevy/list"]);
    assert!(matches!(
        plan_request(false, &"bevy/list".to_string(), &handlers),
        RequestAction::Dispatch(1)
    ));
}

#[test]
fn plan_requests_in_order() {
    let handlers = names(&["bevy/get", "bevy/list"]);
    let requests = vec![
        PendingRequest { method: "bevy/list".to_string(), closed: false },
        PendingRequest { method: "bevy/get".to_string(), closed: true },
        PendingRequest { method: "other".to_string(), closed: false },
        PendingRequest { method: "bevy/get".to_string(), closed: false },
    ];
    let actions = plan_requests(&requests, &handlers);
    assert_eq!(actions.len(), 4);
    assert!(matches!(actions[0], RequestAction::Dispatch(1)));
    assert!(matches!(actions[1], RequestAction::Skip));
    assert!(matches!(&actions[2], RequestAction::Reject(e) if e.message == "Method `other` not found"));
    assert!(matches!(actions[3], RequestAction::Dispatch(0)));
    assert!(plan_requests(&Vec::new(), &handlers).is_empty());
}

#[test]
fn finish_success_not_watching_closes() {
    let (result, close) = finish_request(HandlerOutcome::Succeeded(Value::from(1)), false);
    assert_eq!(result.unwrap(), Value::from(1));
    assert!(close);
}

#[test]
fn finish_success_watching_stays_open() {
    let (result, close) = finish_request(HandlerOutcome::Succeeded(Value::Null), true);
    assert_eq!(result.unwrap(), Value::Null);
    assert!(!close);
}

#[test]
fn finish_failure_closes_even_when_watching() {
    let error = BrpError::entity_not_found(bevy_remote::Entity::from_raw(3));
    let (result, close) = finish_request(HandlerOutcome::Failed(error), true);
    let e = result.unwrap_err();
    assert_eq!(e.code, error_codes::ENTITY_NOT_FOUND);
    assert_eq!(e.message, "Entity 3v1 not found");
    assert!(close);
}

#[test]
fn finish_not_run() {
    let (result, close) =
        finish_request(HandlerOutcome::NotRun("system was removed".to_string()), true);
    let e = result.unwrap_err();
    assert_eq!(e.code, error_codes::INTERNAL_ERROR);
    assert_eq!(e.message, "Failed to run method handler: system was removed");
    assert!(e.data.is_none());
    assert!(close);
}

#[test]
fn finish_unserializable() {
    let (result, close) =
        finish_request(HandlerOutcome::Unserializable("key must be a string".to_string()), false);
    let e = result.unwrap_err();
    assert_eq!(e.code, error_codes::INTERNAL_ERROR);
    assert_eq!(e.message, "key must be a string");
    assert!(close);
}

#[test]
fn params_read() {
    let ok: Result<u64, BrpError> = params_or_error(Ok(7u64));
    assert_eq!(ok.unwrap(), 7);
    let err: Result<u64, BrpError> = params_or_error(Err("missing field `entity`".to_string()));
    let e = err.unwrap_err();
    assert_eq!(e.code, error_codes::INVALID_PARAMS);
    assert_eq!(e.message, "missing field `entity`");
    assert!(e.data.is_none());
}

#[test]
fn requests_with_method_picks_matching_indices() {
    let methods = names(&["bevy/get", "bevy/list", "bevy/get", "x"]);
    assert_eq!(requests_with_method(&methods, &"bevy/get".to_string()), vec![0, 2]);
    assert_eq!(requests_with_method(&methods, &"x".to_string()), vec![3]);
    assert!(requests_with_method(&methods, &"none".to_string()).is_empty());
}

#[test]
fn closed_requests_picks_closed_indices() {
    assert_eq!(closed_requests(&vec![true, false, true, true]), vec![0, 2, 3]);
    assert!(closed_requests(&vec![false, false]).is_empty());
    assert!(closed_requests(&Vec::new()).is_empty());
}

#[test]
fn later_registration_keeps_handler() {
    let early = names(&["bevy/get", "bevy/list"]);
    let later = names(&["bevy/get", "bevy/list", "bevy/get", "bevy/spawn"]);
    assert_eq!(find_handler(&early, &"bevy/list".to_string()), Some(1));
    assert_eq!(find_handler(&later, &"bevy/list".to_string()), Some(1));
    assert_eq!(find_handler(&later, &"bevy/get".to_string()), Some(0));
    assert_eq!(find_handler(&later, &"bevy/spawn".to_string()), Some(3));
}
