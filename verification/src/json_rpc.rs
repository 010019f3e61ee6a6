//! JSON-RPC 2.0 envelopes of the desktop RPC server.

use crate::ipc_command::JsonValue;
use vstd::prelude::*;

verus! {

/// A JSON-RPC 2.0 request.
pub struct JsonRpcRequest {
    pub jsonrpc: String,
    pub method: String,
    pub params: Option<JsonValue>,
    pub id: Option<JsonValue>,
}

/// A JSON-RPC 2.0 error object.
pub struct JsonRpcError {
    pub code: i32,
    pub message: String,
    pub data: Option<JsonValue>,
}

/// A JSON-RPC 2.0 response: a result or an error.
pub struct JsonRpcResponse {
    pub jsonrpc: String,
    pub result: Option<JsonValue>,
    pub error: Option<JsonRpcError>,
    pub id: Option<JsonValue>,
}

impl JsonRpcResponse {
    /// A version 2.0 response carrying `result`.
    pub fn success(id: Option<JsonValue>, result: JsonValue) -> (r: Self)
        ensures
            r.jsonrpc@ == "2.0"@,
            r.result == Some(result),
            r.error is None,
            r.id == id,
    {
        JsonRpcResponse { jsonrpc: "2.0".to_owned(), result: Some(result), error: None, id }
    }

    /// A version 2.0 response carrying an error with `code` and `message`.
    pub fn error(id: Option<JsonValue>, code: i32, message: String) -> (r: Self)
        ensures
            r.jsonrpc@ == "2.0"@,
            r.result is None,
            r.error matches Some(e) && e.code == code && e.message == message && e.data is None,
            r.id == id,
    {
        JsonRpcResponse {
            jsonrpc: "2.0".to_owned(),
            result: None,
            error: Some(JsonRpcError { code, message, data: None }),
            id,
        }
    }
}

} // verus!
