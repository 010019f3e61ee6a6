use pumas_core::error::PumasError;
use pumas_core::ipc_command::{
    decode_request, plan_request, IpcRequestPlan, JsonNumber, JsonValue, LocalIpcCommand, MAX_LOCAL_BATCH_ITEMS,
};
use pumas_core::ipc_protocol::{
    read_frame_blocking, write_frame_blocking, IpcError, IpcRequest, IpcResponse, LocalIpcOperation,
    RpcId, MAX_IPC_MESSAGE_SIZE,
};

fn text(s: &str) -> JsonValue {
    JsonValue::Text(s.to_string())
}

fn uint(n: u64) -> JsonValue {
    JsonValue::Number(JsonNumber::Unsigned(n))
}

fn object(members: Vec<(&str, JsonValue)>) -> JsonValue {
    JsonValue::Object(members.into_iter().map(|(k, v)| (k.to_string(), v)).collect())
}

fn selector_params(request: JsonValue) -> Option<JsonValue> {
    Some(object(vec![("request", request), ("connection_token", text("test-token"))]))
}

fn class_of(error: &IpcError) -> Option<&str> {
    error.class.as_deref()
}

#[test]
fn download_root_busy_preserves_existing_ipc_conflict_projection() {
    let decoded = IpcError::from_pumas(-32011);
    assert_eq!(decoded.code, -32011);
    assert_eq!(decoded.message, "Local IPC operation conflicted with current state");
    assert_eq!(class_of(&decoded), Some("conflict"));
    let response = IpcResponse::error(RpcId::Unsigned(1), decoded);
    assert!(matches!(
        response.into_result(1),
        Err(PumasError::Other(message))
            if message == "Local IPC operation conflicted with current state"
    ));
}

#[test]
fn test_ipc_request_serialization_roundtrip() {
    let req = IpcRequest::new(
        LocalIpcOperation::ModelLibrarySelectorSnapshot,
        "{\"request\":{\"limit\":25},\"connection_token\":\"test-token\"}".to_string(),
        1,
    );
    assert_eq!(req.jsonrpc, "2.0");
    assert_eq!(req.method, "model_library_selector_snapshot");
    assert_eq!(req.id, RpcId::Unsigned(1));
    assert_eq!(
        LocalIpcOperation::from_wire_name(&req.method),
        Some(LocalIpcOperation::ModelLibrarySelectorSnapshot)
    );
}

#[test]
fn local_ipc_command_rejects_missing_null_extra_negative_and_oversized_values() {
    let operation = LocalIpcOperation::ModelLibrarySelectorSnapshot;
    for params in [
        None,
        Some(JsonValue::Null),
        Some(object(vec![
            ("request", object(vec![])),
            ("connection_token", text("test-token")),
            ("extra", JsonValue::Bool(true)),
        ])),
        selector_params(object(vec![(
            "offset",
            JsonValue::Number(JsonNumber::Negative(-1)),
        )])),
        selector_params(object(vec![("limit", uint(1001))])),
    ] {
        let error = match LocalIpcCommand::decode(operation, params) {
            Ok(_) => panic!("invalid local IPC params were accepted"),
            Err(error) => error,
        };
        assert_eq!(error.code, -32602);
        assert_eq!(class_of(&error), Some("invalid_params"));
    }
}

#[test]
fn local_ipc_command_rejects_unknown_nested_fields_and_unbounded_batches() {
    let artifact = object(vec![
        (
            "request",
            object(vec![
                (
                    "model_ref",
                    object(vec![
                        ("model_id", text("repo/model")),
                        ("unexpected", JsonValue::Bool(true)),
                    ]),
                ),
                ("resolution_mode", text("owner_fresh")),
                ("consumer", object(vec![("consumer_name", text("test"))])),
            ]),
        ),
        ("connection_token", text("test-token")),
    ]);
    assert!(
        LocalIpcCommand::decode(LocalIpcOperation::ResolveModelArtifactLoadTarget, Some(artifact))
            .is_err()
    );

    let model_ids = (0..MAX_LOCAL_BATCH_ITEMS + 1).map(|_| text("model")).collect();
    assert!(LocalIpcCommand::decode(
        LocalIpcOperation::GetInferenceSettingsBatch,
        Some(object(vec![
            ("model_ids", JsonValue::Array(model_ids)),
            ("connection_token", text("test-token")),
        ])),
    )
    .is_err());
}

#[test]
fn local_ipc_response_rejects_wrong_version_id_and_ambiguous_outcome() {
    let mut wrong_version = IpcResponse::success(RpcId::Unsigned(1), "null".to_string());
    wrong_version.jsonrpc = "1.0".to_string();
    assert!(matches!(
        wrong_version.into_result(1),
        Err(PumasError::InvalidParams { .. })
    ));

    let wrong_id = IpcResponse::success(RpcId::Unsigned(2), "null".to_string());
    assert!(matches!(
        wrong_id.into_result(1),
        Err(PumasError::InvalidParams { .. })
    ));

    let ambiguous = IpcResponse {
        jsonrpc: "2.0".to_string(),
        result: Some("null".to_string()),
        error: Some(IpcError::internal()),
        id: RpcId::Unsigned(1),
    };
    assert!(matches!(
        ambiguous.into_result(1),
        Err(PumasError::InvalidParams { .. })
    ));
}

#[test]
fn test_ipc_response_success_serialization() {
    let resp = IpcResponse::success(RpcId::Unsigned(1), "{\"models\":[]}".to_string());
    assert_eq!(resp.result.as_deref(), Some("{\"models\":[]}"));
    assert!(resp.error.is_none());
}

#[test]
fn test_ipc_response_error_serialization() {
    let resp = IpcResponse::error(RpcId::Unsigned(1), IpcError::internal());
    assert!(resp.result.is_none());
    assert_eq!(resp.error.as_ref().map(|e| e.code), Some(-32603));
}

#[test]
fn frame_write_then_read_gives_the_payload_back() {
    let payload = b"hello world";
    let mut buf = Vec::new();
    write_frame_blocking(&mut buf, payload);
    assert_eq!(&buf[..4], &[0, 0, 0, 11]);
    let read_back = read_frame_blocking(&buf).unwrap();
    assert_eq!(read_back, Some((payload.to_vec(), 15)));
}

#[test]
fn frame_read_of_empty_input_is_none() {
    assert!(read_frame_blocking(&[]).unwrap().is_none());
    assert!(read_frame_blocking(&[0, 0]).unwrap().is_none());
}

#[test]
fn frame_read_rejects_oversized_and_truncated_frames() {
    let huge_len = (MAX_IPC_MESSAGE_SIZE + 1) as u32;
    let mut buf = huge_len.to_be_bytes().to_vec();
    buf.extend_from_slice(&[0u8; 8]);
    match read_frame_blocking(&buf) {
        Err(PumasError::Validation { field, message }) => {
            assert_eq!(field, "ipc_frame");
            assert_eq!(
                message,
                format!(
                    "IPC message size {} exceeds maximum {}",
                    MAX_IPC_MESSAGE_SIZE + 1,
                    MAX_IPC_MESSAGE_SIZE
                )
            );
        }
        other => panic!("unexpected {other:?}"),
    }
    assert!(matches!(
        read_frame_blocking(&[0, 0, 0, 5, 1, 2]),
        Err(PumasError::Io { .. })
    ));
}

#[test]
fn ipc_error_constructors_have_fixed_codes_and_classes() {
    assert_eq!(IpcError::parse_error().code, -32700);
    assert_eq!(IpcError::invalid_request().code, -32600);
    assert_eq!(IpcError::method_not_found().code, -32601);
    assert_eq!(IpcError::invalid_params().code, -32602);
    assert_eq!(class_of(&IpcError::internal()), Some("internal"));
    let unknown = IpcError::from_pumas(-32099);
    assert_eq!(unknown.code, -32099);
    assert_eq!(unknown.message, "Local IPC operation could not be completed");
    assert_eq!(class_of(&unknown), Some("operation_failed"));
    assert_eq!(class_of(&IpcError::from_pumas(-32005)), Some("invalid_params"));
}

#[test]
fn invalid_params_error_response_keeps_its_message() {
    let resp = IpcResponse::error(RpcId::Unsigned(7), IpcError::invalid_params());
    assert!(matches!(
        resp.into_result(7),
        Err(PumasError::InvalidParams { message }) if message == "Invalid local IPC parameters"
    ));
    let ok = IpcResponse::success(RpcId::Unsigned(7), "[1]".to_string());
    assert_eq!(ok.into_result(7).unwrap(), "[1]");
}

#[test]
fn operation_wire_names_round_trip() {
    for op in [
        LocalIpcOperation::ModelLibrarySelectorSnapshot,
        LocalIpcOperation::ResolveModelArtifactLoadTarget,
        LocalIpcOperation::ResolveModelPackageFactsSummaries,
        LocalIpcOperation::ResolveModelExecutionDescriptorsBatch,
        LocalIpcOperation::GetInferenceSettingsBatch,
        LocalIpcOperation::SubscribeModelLibraryUpdateStreamSince,
    ] {
        assert_eq!(LocalIpcOperation::from_wire_name(op.wire_name()), Some(op));
    }
    assert_eq!(LocalIpcOperation::from_wire_name("list_models"), None);
}

#[test]
fn local_ipc_command_decodes_accepted_shapes() {
    let selector = LocalIpcCommand::decode(
        LocalIpcOperation::ModelLibrarySelectorSnapshot,
        selector_params(object(vec![("limit", uint(25)), ("search", JsonValue::Null)])),
    );
    match selector {
        Ok(LocalIpcCommand::ModelLibrarySelectorSnapshot { connection_token, .. }) => {
            assert_eq!(connection_token, "test-token")
        }
        _ => panic!("selector request was refused"),
    }
    for refused in [uint(0), JsonValue::Number(JsonNumber::Fractional), uint(5_000_000_000)] {
        assert!(LocalIpcCommand::decode(
            LocalIpcOperation::ModelLibrarySelectorSnapshot,
            selector_params(object(vec![("limit", refused)])),
        )
        .is_err());
    }

    let batch = LocalIpcCommand::decode(
        LocalIpcOperation::ResolveModelPackageFactsSummaries,
        Some(object(vec![
            ("model_ids", JsonValue::Array(vec![text("a/b"), text("c/d")])),
            ("connection_token", text("tok")),
        ])),
    )
    .unwrap();
    assert_eq!(batch.operation(), LocalIpcOperation::ResolveModelPackageFactsSummaries);
    match batch {
        LocalIpcCommand::ResolveModelPackageFactsSummaries { model_ids, .. } => {
            assert_eq!(model_ids, vec!["a/b".to_string(), "c/d".to_string()])
        }
        _ => panic!("wrong command"),
    }

    for blank in ["", "   ", &"x".repeat(4097)] {
        assert!(LocalIpcCommand::decode(
            LocalIpcOperation::SubscribeModelLibraryUpdateStreamSince,
            Some(object(vec![("cursor", text(blank)), ("connection_token", text("tok"))])),
        )
        .is_err());
    }
    let cursor = LocalIpcCommand::decode(
        LocalIpcOperation::SubscribeModelLibraryUpdateStreamSince,
        Some(object(vec![("cursor", text("c-1")), ("connection_token", text("tok"))])),
    );
    assert!(matches!(
        cursor,
        Ok(LocalIpcCommand::SubscribeModelLibraryUpdateStreamSince { cursor, .. }) if cursor == "c-1"
    ));
}

#[test]
fn request_envelopes_are_classified_before_parameters() {
    let params = || selector_params(object(vec![("limit", uint(5))]));
    let code = |r: Result<LocalIpcCommand, IpcError>| match r {
        Ok(_) => 0,
        Err(e) => e.code,
    };
    assert_eq!(code(decode_request("1.0", "model_library_selector_snapshot", RpcId::Unsigned(1), params())), -32600);
    assert_eq!(code(decode_request("2.0", "model_library_selector_snapshot", RpcId::Other, params())), -32600);
    assert_eq!(code(decode_request("2.0", "model_library_selector_snapshot", RpcId::Absent, params())), -32600);
    assert_eq!(code(decode_request("2.0", "list_models", RpcId::Unsigned(1), params())), -32601);
    assert_eq!(code(decode_request("2.0", "model_library_selector_snapshot", RpcId::Unsigned(1), None)), -32602);
    assert_eq!(code(decode_request("2.0", "model_library_selector_snapshot", RpcId::Unsigned(1), params())), 0);
}

fn members(v: &JsonValue) -> &Vec<(String, JsonValue)> {
    match v {
        JsonValue::Object(m) => m,
        _ => panic!("not an object"),
    }
}

fn text_of(v: &JsonValue) -> &str {
    match v {
        JsonValue::Text(t) => t,
        _ => panic!("not a string"),
    }
}

#[test]
fn dispatched_params_carry_the_operand_and_token() {
    let ids = Some(object(vec![
        ("connection_token", text("tok")),
        ("model_ids", JsonValue::Array(vec![text("a/b"), text("c/d")])),
    ]));
    let command = LocalIpcCommand::decode(LocalIpcOperation::GetInferenceSettingsBatch, ids).ok().unwrap();
    let params = command.into_dispatch_params();
    let m = members(&params);
    assert_eq!(m.len(), 2);
    assert_eq!(m[0].0, "model_ids");
    match &m[0].1 {
        JsonValue::Array(items) => {
            assert_eq!(items.len(), 2);
            assert_eq!(text_of(&items[0]), "a/b");
            assert_eq!(text_of(&items[1]), "c/d");
        }
        _ => panic!("model_ids is not an array"),
    }
    assert_eq!(m[1].0, "connection_token");
    assert_eq!(text_of(&m[1].1), "tok");

    let cursor = Some(object(vec![("cursor", text("c-1")), ("connection_token", text("tok"))]));
    let command =
        LocalIpcCommand::decode(LocalIpcOperation::SubscribeModelLibraryUpdateStreamSince, cursor).ok().unwrap();
    let params = command.into_dispatch_params();
    assert_eq!(members(&params)[0].0, "cursor");
    assert_eq!(text_of(&members(&params)[0].1), "c-1");
}

#[test]
fn dispatched_params_decode_to_the_same_command() {
    let request = object(vec![("limit", uint(10)), ("search", text("llama"))]);
    let command = LocalIpcCommand::decode(LocalIpcOperation::ModelLibrarySelectorSnapshot, selector_params(request))
        .ok()
        .unwrap();
    let again = LocalIpcCommand::decode(
        LocalIpcOperation::ModelLibrarySelectorSnapshot,
        Some(command.into_dispatch_params()),
    )
    .ok()
    .unwrap();
    match again {
        LocalIpcCommand::ModelLibrarySelectorSnapshot { request, connection_token } => {
            assert_eq!(connection_token, "test-token");
            let m = members(&request);
            assert_eq!(m.len(), 2);
            assert_eq!(m[0].0, "limit");
            assert_eq!(text_of(&m[1].1), "llama");
        }
        _ => panic!("another command"),
    }
}

#[test]
fn requests_are_planned_as_rejection_stream_or_dispatch() {
    match plan_request("1.0", "get_inference_settings_batch", RpcId::Unsigned(1), None) {
        IpcRequestPlan::Reject(e) => assert_eq!(e.code, -32600),
        _ => panic!("accepted a bad envelope"),
    }
    match plan_request("2.0", "no_such_operation", RpcId::Unsigned(1), None) {
        IpcRequestPlan::Reject(e) => assert_eq!(e.code, -32601),
        _ => panic!("accepted an unknown operation"),
    }
    match plan_request("2.0", "get_inference_settings_batch", RpcId::Unsigned(1), None) {
        IpcRequestPlan::Reject(e) => assert_eq!(e.code, -32602),
        _ => panic!("accepted missing parameters"),
    }
    let cursor = Some(object(vec![("cursor", text("c-9")), ("connection_token", text("tok"))]));
    match plan_request("2.0", "subscribe_model_library_update_stream_since", RpcId::Unsigned(2), cursor) {
        IpcRequestPlan::Stream { cursor, connection_token } => {
            assert_eq!(cursor, "c-9");
            assert_eq!(connection_token, "tok");
        }
        _ => panic!("not a stream"),
    }
    let ids = Some(object(vec![("model_ids", JsonValue::Array(vec![text("m")])), ("connection_token", text("tok"))]));
    match plan_request("2.0", "resolve_model_package_facts_summaries", RpcId::Unsigned(3), ids) {
        IpcRequestPlan::Dispatch { operation, params } => {
            assert_eq!(operation, LocalIpcOperation::ResolveModelPackageFactsSummaries);
            assert_eq!(members(&params)[0].0, "model_ids");
            assert_eq!(members(&params)[1].0, "connection_token");
        }
        _ => panic!("not dispatched"),
    }
}
