//! The decisions the app takes while it answers requests: which handler a
//! request goes to, what a request is answered when it cannot be handled,
//! and whether its channel stays open once it has been answered.

use vstd::prelude::*;

use crate::error_codes;
use crate::protocol::{BrpError, BrpResult};

verus! {

/// Some handler is registered for `method`.
pub open spec fn has_handler(handlers: Seq<String>, method: Seq<char>) -> bool {
    exists|i: int| 0 <= i < handlers.len() && handlers[i]@ == method
}

/// `i` is the first handler registered for `method`.
pub open spec fn is_first_handler(handlers: Seq<String>, method: Seq<char>, i: int) -> bool {
    &&& 0 <= i < handlers.len()
    &&& handlers[i]@ == method
    &&& forall|j: int| 0 <= j < i ==> handlers[j]@ != method
}

/// Finds the handler of a request: the first of `handlers` (the method names
/// of the registered handlers, in order) whose name is `method`.
pub fn find_handler(handlers: &Vec<String>, method: &String) -> (found: Option<usize>)
    ensures
        found is None <==> !has_handler(handlers@, method@),
        found matches Some(i) ==> is_first_handler(handlers@, method@, i as int),
        found matches Some(i) ==> i < handlers.len() && handlers@[i as int]@ == method@ && forall|
            j: int,
        | 0 <= j < i ==> handlers@[j]@ != method@,
        found is None <==> forall|j: int| 0 <= j < handlers.len() ==> handlers@[j]@ != method@,
{
    let mut i: usize = 0;
    while i < handlers.len()
        invariant
            i <= handlers.len(),
            forall|j: int| 0 <= j < i ==> handlers@[j]@ != method@,
        decreases handlers.len() - i,
    {
        if handlers[i] == *method {
            return Some(i);
        }
        i = i + 1;
    }
    None
}

/// A handler serves a method only when its registered name is exactly the
/// method's name (names are case-sensitive and are not matched by prefix),
/// and no handler registered before it has that name.
pub proof fn lemma_first_handler_name_is_method(handlers: Seq<String>, method: Seq<char>, i: int)
    requires
        is_first_handler(handlers, method, i),
    ensures
        0 <= i < handlers.len(),
        handlers[i]@ == method,
        forall|j: int| 0 <= j < i ==> handlers[j]@ != method,
{
}

/// A method has a handler exactly when some registered name equals it.
pub proof fn lemma_has_handler_is_exact_match(handlers: Seq<String>, method: Seq<char>)
    ensures
        has_handler(handlers, method) <==> exists|i: int|
            0 <= i < handlers.len() && #[trigger] handlers[i]@ == method,
        !has_handler(handlers, method) <==> forall|i: int|
            0 <= i < handlers.len() ==> #[trigger] handlers[i]@ != method,
{
}

/// Registering more handlers never takes a method away from the handler that
/// serves it: the first handler of a method stays its first handler when
/// handlers are registered after it.
pub proof fn lemma_later_registration_keeps_handler(
    handlers: Seq<String>,
    more: Seq<String>,
    method: Seq<char>,
    i: int,
)
    requires
        is_first_handler(handlers, method, i),
    ensures
        is_first_handler(handlers + more, method, i),
        has_handler(handlers + more, method),
{
    assert((handlers + more)[i] == handlers[i]);
    assert forall|j: int| 0 <= j < i implies (handlers + more)[j]@ != method by {
        assert((handlers + more)[j] == handlers[j]);
    }
}

/// The message of the error that answers a request for an unknown method.
pub open spec fn method_not_found_message(method: Seq<char>) -> Seq<char> {
    "Method `"@ + method + "` not found"@
}

/// `error` answers a request for the unknown method `method`.
pub open spec fn is_method_not_found(error: BrpError, method: Seq<char>) -> bool {
    &&& error.code == error_codes::METHOD_NOT_FOUND
    &&& error.message@ == method_not_found_message(method)
    &&& error.data is None
}

/// The error that answers a request for a method that no handler serves.
pub fn method_not_found(method: &str) -> (error: BrpError)
    ensures
        is_method_not_found(error, method@),
        error.code == error_codes::METHOD_NOT_FOUND,
        error.message@ == "Method `"@ + method@ + "` not found"@,
        error.data is None,
{
    let mut message = String::from_str("Method `");
    message.append(method);
    message.append("` not found");
    BrpError { code: error_codes::METHOD_NOT_FOUND, message, data: None }
}

/// Every unknown method, whatever its name, is answered with the code
/// METHOD_NOT_FOUND and a message that quotes the method.
pub proof fn lemma_method_not_found_exact(error: BrpError, method: Seq<char>)
    requires
        is_method_not_found(error, method),
    ensures
        error.code == error_codes::METHOD_NOT_FOUND,
        error.message@ == "Method `"@ + method + "` not found"@,
        error.data is None,
{
}

/// What is done with a pending request in one round of processing.
pub enum RequestAction {
    /// The request's channel is closed: nothing is done.
    Skip,
    /// No handler serves the request's method: the request is answered with
    /// this error and its channel is closed.
    Reject(BrpError),
    /// The request is run by the handler with this index.
    Dispatch(usize),
}

/// A request waiting to be processed, as the processing sees it.
pub struct PendingRequest {
    /// The method the request invokes.
    pub method: String,
    /// Whether the request's channel is closed.
    pub closed: bool,
}

/// `action` is what is done with a request for `method` whose channel is
/// `closed`, given the registered `handlers`.
pub open spec fn is_planned(
    closed: bool,
    method: Seq<char>,
    handlers: Seq<String>,
    action: RequestAction,
) -> bool {
    if closed {
        action is Skip
    } else if !has_handler(handlers, method) {
        action matches RequestAction::Reject(e) && is_method_not_found(e, method)
    } else {
        action matches RequestAction::Dispatch(i) && is_first_handler(handlers, method, i as int)
    }
}

/// What a request is planned to get, in terms of its inputs: nothing when its
/// channel is closed; otherwise the first handler whose registered name is
/// exactly its method, or, when no name is, a METHOD_NOT_FOUND error that
/// quotes the method.
pub proof fn lemma_planned_exact(
    closed: bool,
    method: Seq<char>,
    handlers: Seq<String>,
    action: RequestAction,
)
    requires
        is_planned(closed, method, handlers, action),
    ensures
        closed <==> action is Skip,
        action matches RequestAction::Dispatch(i) ==> i < handlers.len() && handlers[i as int]@
            == method && forall|j: int| 0 <= j < i ==> handlers[j]@ != method,
        action is Reject <==> !closed && forall|j: int|
            0 <= j < handlers.len() ==> #[trigger] handlers[j]@ != method,
        action matches RequestAction::Reject(e) ==> e.code == error_codes::METHOD_NOT_FOUND
            && e.message@ == "Method `"@ + method + "` not found"@ && e.data is None,
{
}

/// Decides what is done with one pending request.
pub fn plan_request(closed: bool, method: &String, handlers: &Vec<String>) -> (action:
    RequestAction)
    ensures
        is_planned(closed, method@, handlers@, action),
        closed ==> action is Skip,
        action is Skip ==> closed,
        action matches RequestAction::Dispatch(i) ==> i < handlers.len() && handlers@[i as int]@
            == method@ && forall|j: int| 0 <= j < i ==> handlers@[j]@ != method@,
        action is Reject <==> !closed && forall|j: int|
            0 <= j < handlers.len() ==> handlers@[j]@ != method@,
        action matches RequestAction::Reject(e) ==> e.code == error_codes::METHOD_NOT_FOUND
            && e.message@ == "Method `"@ + method@ + "` not found"@ && e.data is None,
{
    if closed {
        return RequestAction::Skip;
    }
    match find_handler(handlers, method) {
        Some(i) => RequestAction::Dispatch(i),
        None => RequestAction::Reject(method_not_found(method.as_str())),
    }
}

/// Decides what is done with each pending request of a round, in order.
pub fn plan_requests(requests: &Vec<PendingRequest>, handlers: &Vec<String>) -> (actions: Vec<
    RequestAction,
>)
    ensures
        actions.len() == requests.len(),
        forall|i: int|
            0 <= i < requests.len() ==> is_planned(
                requests@[i].closed,
                requests@[i].method@,
                handlers@,
                #[trigger] actions@[i],
            ),
        forall|i: int|
            #![trigger actions@[i]]
            0 <= i < requests.len() ==> (requests@[i].closed <==> actions@[i] is Skip),
        forall|i: int|
            #![trigger actions@[i]]
            0 <= i < requests.len() ==> (actions@[i] matches RequestAction::Dispatch(h) ==> h
                < handlers.len() && handlers@[h as int]@ == requests@[i].method@),
        forall|i: int|
            #![trigger actions@[i]]
            0 <= i < requests.len() ==> (actions@[i] matches RequestAction::Reject(e) ==> e.code
                == error_codes::METHOD_NOT_FOUND && e.message@ == "Method `"@
                + requests@[i].method@ + "` not found"@),
{
    let mut actions: Vec<RequestAction> = Vec::new();
    let mut i: usize = 0;
    while i < requests.len()
        invariant
            i <= requests.len(),
            actions.len() == i,
            forall|k: int|
                0 <= k < i ==> is_planned(
                    requests@[k].closed,
                    requests@[k].method@,
                    handlers@,
                    #[trigger] actions@[k],
                ),
        decreases requests.len() - i,
    {
        let action = plan_request(requests[i].closed, &requests[i].method, handlers);
        actions.push(action);
        i = i + 1;
    }
    proof {
        assert forall|k: int| 0 <= k < requests.len() implies (requests@[k].closed <==> actions@[k] is Skip)
            && (actions@[k] matches RequestAction::Dispatch(h) ==> h < handlers.len()
            && handlers@[h as int]@ == requests@[k].method@) && (actions@[k] matches RequestAction::Reject(e) ==> e.code
            == error_codes::METHOD_NOT_FOUND && e.message@ == "Method `"@ + requests@[k].method@
            + "` not found"@) by {
            lemma_planned_exact(requests@[k].closed, requests@[k].method@, handlers@, actions@[k]);
        }
    }
    actions
}

/// How the run of a dispatched request ended.
pub enum HandlerOutcome {
    /// The handler could not be run; this is the text of the run error.
    NotRun(String),
    /// The handler ran and failed with this error.
    Failed(BrpError),
    /// The handler ran and its output serialized to this value.
    Succeeded(serde_json::Value),
    /// The handler ran but its output did not serialize; this is the text of
    /// the serialization error.
    Unserializable(String),
}

/// The message of the error that answers a request whose handler could not run.
pub open spec fn run_failure_message(error: Seq<char>) -> Seq<char> {
    "Failed to run method handler: "@ + error
}

/// `result` is the answer to a request whose run ended with `outcome`.
pub open spec fn is_answer(outcome: HandlerOutcome, result: BrpResult) -> bool {
    match outcome {
        HandlerOutcome::NotRun(text) => result matches Err(e) && e.code
            == error_codes::INTERNAL_ERROR && e.message@ == run_failure_message(text@)
            && e.data is None,
        HandlerOutcome::Failed(error) => result == Err::<serde_json::Value, BrpError>(error),
        HandlerOutcome::Succeeded(value) => result == Ok::<serde_json::Value, BrpError>(value),
        HandlerOutcome::Unserializable(text) => result matches Err(e) && e.code
            == error_codes::INTERNAL_ERROR && e.message == text && e.data is None,
    }
}

/// The answer to a run, in terms of its outcome: a handler's own error is sent
/// unchanged whatever its code, a success sends the handler's value, and only
/// a run that could not happen or an output that could not be serialized is
/// answered with an internal error; the answer is a success exactly when the
/// handler succeeded.
pub proof fn lemma_answer_exact(outcome: HandlerOutcome, result: BrpResult)
    requires
        is_answer(outcome, result),
    ensures
        outcome matches HandlerOutcome::Failed(e) ==> result == Err::<serde_json::Value, BrpError>(e),
        outcome matches HandlerOutcome::Succeeded(v) ==> result == Ok::<serde_json::Value, BrpError>(v),
        outcome matches HandlerOutcome::NotRun(t) ==> result matches Err(e) && e.code
            == error_codes::INTERNAL_ERROR && e.message@ == "Failed to run method handler: "@ + t@
            && e.data is None,
        outcome matches HandlerOutcome::Unserializable(t) ==> result matches Err(e) && e.code
            == error_codes::INTERNAL_ERROR && e.message == t && e.data is None,
        result is Ok <==> outcome is Succeeded,
{
}

/// Decides the answer to a dispatched request and whether its channel is
/// closed once the answer is sent: it is closed after an error, and after any
/// answer to a request that does not watch; a watching request that was
/// answered successfully stays open for the answers of later rounds.
pub fn finish_request(outcome: HandlerOutcome, is_watching: bool) -> (reply: (BrpResult, bool))
    ensures
        is_answer(outcome, reply.0),
        reply.1 == (reply.0 is Err || !is_watching),
        outcome matches HandlerOutcome::Failed(e) ==> reply.0 == Err::<serde_json::Value, BrpError>(e),
        outcome matches HandlerOutcome::Succeeded(v) ==> reply.0 == Ok::<serde_json::Value, BrpError>(v),
        outcome matches HandlerOutcome::NotRun(t) ==> reply.0 matches Err(e) && e.code
            == error_codes::INTERNAL_ERROR && e.message@ == "Failed to run method handler: "@ + t@
            && e.data is None,
        outcome matches HandlerOutcome::Unserializable(t) ==> reply.0 matches Err(e) && e.code
            == error_codes::INTERNAL_ERROR && e.message == t && e.data is None,
        reply.0 is Ok <==> outcome is Succeeded,
        reply.1 <==> !(outcome is Succeeded && is_watching),
{
    let result: BrpResult = match outcome {
        HandlerOutcome::NotRun(text) => {
            let mut message = String::from_str("Failed to run method handler: ");
            message.append(text.as_str());
            Err(BrpError { code: error_codes::INTERNAL_ERROR, message, data: None })
        },
        HandlerOutcome::Failed(error) => Err(error),
        HandlerOutcome::Succeeded(value) => Ok(value),
        HandlerOutcome::Unserializable(text) => Err(BrpError::internal(text)),
    };
    let close = result.is_err() || !is_watching;
    (result, close)
}

/// Takes the outcome of reading a request's params into the handler's input
/// type: the params themselves, or the error that answers the request, which
/// carries the text of the reading error.
pub fn params_or_error<T>(parsed: Result<T, String>) -> (params: Result<T, BrpError>)
    ensures
        parsed matches Ok(v) ==> params == Ok::<T, BrpError>(v),
        parsed matches Err(text) ==> params matches Err(e) && e.code
            == error_codes::INVALID_PARAMS && e.message == text && e.data is None,
{
    match parsed {
        Ok(v) => Ok(v),
        Err(text) => Err(BrpError { code: error_codes::INVALID_PARAMS, message: text, data: None }),
    }
}

/// `picked` lists, in increasing order, exactly the indices below `n` at
/// which `pred` holds.
pub open spec fn lists_exactly(picked: Seq<usize>, n: int, pred: spec_fn(int) -> bool) -> bool {
    &&& forall|a: int, b: int| 0 <= a < b < picked.len() ==> #[trigger] picked[a] < #[trigger] picked[b]
    &&& forall|k: int| 0 <= k < picked.len() ==> picked[k] < n && pred(picked[k] as int)
    &&& forall|i: int| 0 <= i < n && #[trigger] pred(i) ==> picked.contains(i as usize)
}

/// The requests whose params are read for a handler: those, among all pending
/// requests (given by their methods, in order), that invoke `method`.
pub fn requests_with_method(methods: &Vec<String>, method: &String) -> (picked: Vec<usize>)
    ensures
        lists_exactly(picked@, methods.len() as int, |i: int| methods@[i]@ == method@),
        forall|a: int, b: int| 0 <= a < b < picked.len() ==> #[trigger] picked@[a] < #[trigger] picked@[b],
        forall|k: int| 0 <= k < picked.len() ==> ({ let i = #[trigger] picked@[k] as int; i < methods.len() && methods@[i]@ == method@ }),
        forall|i: int| 0 <= i < methods.len() && methods@[i]@ == method@ ==> #[trigger] picked@.contains(i as usize),
{
    let ghost pred = |i: int| methods@[i]@ == method@;
    let mut picked: Vec<usize> = Vec::new();
    let mut i: usize = 0;
    while i < methods.len()
        invariant
            i <= methods.len(),
            pred == (|i: int| methods@[i]@ == method@),
            forall|k: int| 0 <= k < picked.len() ==> picked@[k] < i,
            lists_exactly(picked@, i as int, pred),
        decreases methods.len() - i,
    {
        let hit = methods[i] == *method;
        assert(hit == pred(i as int));
        let ghost before = picked@;
        if hit {
            picked.push(i);
            assert forall|j: int| 0 <= j < i + 1 && #[trigger] pred(j) implies picked@.contains(j as usize) by {
                if j < i {
                    let k = choose|k: int| 0 <= k < before.len() && before[k] == j as usize;
                    assert(picked@[k] == j as usize);
                } else {
                    assert(picked@[before.len() as int] == i);
                }
            }
        } else {
            assert forall|j: int| 0 <= j < i + 1 && #[trigger] pred(j) implies picked@.contains(
                j as usize,
            ) by {
                assert(j < i);
            }
        }
        i = i + 1;
    }
    proof {
        assert forall|i: int| 0 <= i < methods.len() && methods@[i]@ == method@ implies #[trigger] picked@.contains(i as usize) by {
            assert(pred(i));
        }
    }
    picked
}

/// The requests that are removed at the end of a round: those, among all
/// pending requests (given by whether their channel is closed, in order),
/// whose channel is closed.
pub fn closed_requests(closed: &Vec<bool>) -> (picked: Vec<usize>)
    ensures
        lists_exactly(picked@, closed.len() as int, |i: int| closed@[i]),
        forall|a: int, b: int| 0 <= a < b < picked.len() ==> #[trigger] picked@[a] < #[trigger] picked@[b],
        forall|k: int| 0 <= k < picked.len() ==> ({ let i = #[trigger] picked@[k] as int; i < closed.len() && closed@[i] }),
        forall|i: int| 0 <= i < closed.len() && closed@[i] ==> #[trigger] picked@.contains(i as usize),
{
    let ghost pred = |i: int| closed@[i];
    let mut picked: Vec<usize> = Vec::new();
    let mut i: usize = 0;
    while i < closed.len()
        invariant
            i <= closed.len(),
            pred == (|i: int| closed@[i]),
            forall|k: int| 0 <= k < picked.len() ==> picked@[k] < i,
            lists_exactly(picked@, i as int, pred),
        decreases closed.len() - i,
    {
        let hit = closed[i];
        assert(hit == pred(i as int));
        let ghost before = picked@;
        if hit {
            picked.push(i);
            assert forall|j: int| 0 <= j < i + 1 && #[trigger] pred(j) implies picked@.contains(j as usize) by {
                if j < i {
                    let k = choose|k: int| 0 <= k < before.len() && before[k] == j as usize;
                    assert(picked@[k] == j as usize);
                } else {
                    assert(picked@[before.len() as int] == i);
                }
            }
        } else {
            assert forall|j: int| 0 <= j < i + 1 && #[trigger] pred(j) implies picked@.contains(
                j as usize,
            ) by {
                assert(j < i);
            }
        }
        i = i + 1;
    }
    proof {
        assert forall|i: int| 0 <= i < closed.len() && closed@[i] implies #[trigger] picked@.contains(i as usize) by {
            assert(pred(i));
        }
    }
    picked
}

} // verus!
