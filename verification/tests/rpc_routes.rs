use pumas_core::error::PumasError;
use pumas_core::ipc_command::JsonValue;
use pumas_core::rpc_routes::{
    call_params, classify_rpc_call, health_check_result, route_rpc_method, shutting_down_result, RpcCall, RpcDomain,
    RpcRoute,
};

fn not_found(r: Result<RpcDomain, PumasError>) -> String {
    match r {
        Err(PumasError::Other(message)) => message,
        other => panic!("unexpected: {:?}", other),
    }
}

fn status_text(v: &JsonValue) -> String {
    match v {
        JsonValue::Object(members) => {
            assert_eq!(members.len(), 1);
            assert_eq!(members[0].0, "status");
            match &members[0].1 {
                JsonValue::Text(t) => t.clone(),
                _ => panic!("status is not text"),
            }
        }
        _ => panic!("not an object"),
    }
}

#[test]
fn methods_route_to_their_handler_group() {
    assert_eq!(route_rpc_method("get_status", false).unwrap(), RpcDomain::Status);
    assert_eq!(route_rpc_method("list_model_downloads", false).unwrap(), RpcDomain::Models);
    assert_eq!(route_rpc_method("get_link_health", false).unwrap(), RpcDomain::Links);
    assert_eq!(route_rpc_method("start_model_conversion", false).unwrap(), RpcDomain::Conversion);
    assert_eq!(route_rpc_method("open_url", false).unwrap(), RpcDomain::Process);
    assert_eq!(route_rpc_method("torch_configure", true).unwrap(), RpcDomain::Torch);
    assert_eq!(route_rpc_method("check_plugin_health", true).unwrap(), RpcDomain::Plugins);
}

#[test]
fn plugin_methods_exist_only_with_plugins() {
    assert_eq!(route_rpc_method("get_app_status", true).unwrap(), RpcDomain::Status);
    assert_eq!(not_found(route_rpc_method("get_app_status", false)), "Method not found: get_app_status");
    assert_eq!(not_found(route_rpc_method("launch_ollama", false)), "Method not found: launch_ollama");
    let route = RpcRoute::of_method("serve_model").unwrap();
    assert_eq!(route.domain, RpcDomain::Serving);
    assert!(route.plugins_only);
    assert!(!RpcRoute::of_method("get_models").unwrap().plugins_only);
}

#[test]
fn unknown_methods_are_not_found() {
    assert_eq!(not_found(route_rpc_method("no_such_method", true)), "Method not found: no_such_method");
    assert!(RpcRoute::of_method("").is_none());
    assert!(RpcRoute::of_method("get_status ").is_none());
}

#[test]
fn built_in_methods_are_answered_directly() {
    assert_eq!(classify_rpc_call("health_check", false).unwrap(), RpcCall::HealthCheck);
    assert_eq!(classify_rpc_call("shutdown", true).unwrap(), RpcCall::Shutdown);
    assert_eq!(classify_rpc_call("get_models", false).unwrap(), RpcCall::Dispatch(RpcDomain::Models));
    assert!(classify_rpc_call("stop_torch", false).is_err());
    assert_eq!(status_text(&health_check_result()), "ok");
    assert_eq!(status_text(&shutting_down_result()), "shutting_down");
}

#[test]
fn missing_params_become_an_empty_object() {
    match call_params(None) {
        JsonValue::Object(members) => assert!(members.is_empty()),
        _ => panic!("not an object"),
    }
    match call_params(Some(JsonValue::Bool(true))) {
        JsonValue::Bool(b) => assert!(b),
        _ => panic!("params changed"),
    }
}
