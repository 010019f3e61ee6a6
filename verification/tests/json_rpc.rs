use pumas_core::ipc_command::{JsonNumber, JsonValue};
use pumas_core::json_rpc::JsonRpcResponse;

fn one() -> Option<JsonValue> {
    Some(JsonValue::Number(JsonNumber::Unsigned(1)))
}

#[test]
fn test_json_rpc_response_success() {
    let response = JsonRpcResponse::success(
        one(),
        JsonValue::Object(vec![("data".to_string(), JsonValue::Text("test".to_string()))]),
    );
    assert!(response.error.is_none());
    assert!(response.result.is_some());
    assert_eq!(response.jsonrpc, "2.0");
}

#[test]
fn test_json_rpc_response_error() {
    let response = JsonRpcResponse::error(one(), -32600, "Test error".into());
    assert!(response.error.is_some());
    assert!(response.result.is_none());
    let error = response.error.unwrap();
    assert_eq!(error.code, -32600);
    assert_eq!(error.message, "Test error");
    assert!(error.data.is_none());
}
