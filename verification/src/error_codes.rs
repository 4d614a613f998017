//! Error codes used by BRP.

use vstd::prelude::*;

verus! {

// JSON-RPC errors
// Note that the range -32728 to -32000 (inclusive) is reserved by the JSON-RPC specification.

/// Invalid JSON.
pub const PARSE_ERROR: i16 = -32700;

/// JSON sent is not a valid request object.
pub const INVALID_REQUEST: i16 = -32600;

/// The method does not exist / is not available.
pub const METHOD_NOT_FOUND: i16 = -32601;

/// Invalid method parameter(s).
pub const INVALID_PARAMS: i16 = -32602;

/// Internal error.
pub const INTERNAL_ERROR: i16 = -32603;

// Bevy errors (i.e. application errors)

/// Entity not found.
pub const ENTITY_NOT_FOUND: i16 = -23401;

/// Could not reflect or find component.
pub const COMPONENT_ERROR: i16 = -23402;

/// Could not find component in entity.
pub const COMPONENT_NOT_PRESENT: i16 = -23403;

/// Cannot reparent an entity to itself.
pub const SELF_REPARENT: i16 = -23404;

/// A code in the range that the JSON-RPC specification reserves for its own
/// errors.
pub open spec fn is_jsonrpc_reserved(code: i16) -> bool {
    -32768 <= code <= -32000
}

/// The JSON-RPC errors lie in the range that JSON-RPC reserves, the Bevy
/// (application) errors outside it, and no two kinds of error share a code.
pub proof fn lemma_error_codes()
    ensures
        is_jsonrpc_reserved(PARSE_ERROR),
        is_jsonrpc_reserved(INVALID_REQUEST),
        is_jsonrpc_reserved(METHOD_NOT_FOUND),
        is_jsonrpc_reserved(INVALID_PARAMS),
        is_jsonrpc_reserved(INTERNAL_ERROR),
        !is_jsonrpc_reserved(ENTITY_NOT_FOUND),
        !is_jsonrpc_reserved(COMPONENT_ERROR),
        !is_jsonrpc_reserved(COMPONENT_NOT_PRESENT),
        !is_jsonrpc_reserved(SELF_REPARENT),
        seq![
            PARSE_ERROR,
            INVALID_REQUEST,
            METHOD_NOT_FOUND,
            INVALID_PARAMS,
            INTERNAL_ERROR,
            ENTITY_NOT_FOUND,
            COMPONENT_ERROR,
            COMPONENT_NOT_PRESENT,
            SELF_REPARENT,
        ].no_duplicates(),
{
    let s = seq![
        PARSE_ERROR,
        INVALID_REQUEST,
        METHOD_NOT_FOUND,
        INVALID_PARAMS,
        INTERNAL_ERROR,
        ENTITY_NOT_FOUND,
        COMPONENT_ERROR,
        COMPONENT_NOT_PRESENT,
        SELF_REPARENT,
    ];
    assert(s.no_duplicates()) by {
        assert forall|i: int, j: int| 0 <= i < s.len() && 0 <= j < s.len() && i != j implies s[i]
            != s[j] by {}
    }
}

} // verus!
