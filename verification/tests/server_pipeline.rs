use rpc_bootstrap::http::{HttpMethod, HttpRequest, HttpResponse, MiddlewareChain};
use rpc_bootstrap::policy::AccessPolicy;
use rpc_bootstrap::rpc::{
    Handler, MethodRegistry, RequestId, RpcRequest, RpcResponse, METHOD_NOT_FOUND_CODE,
};
use rpc_bootstrap::server::{build_server, BindAddr, ServerHandle, ServerState};

fn has_header(resp: &HttpResponse, name: &str, value: &str) -> bool {
    let mut i = 0;
    while i < resp.headers.len() {
        if resp.headers[i].name == name && resp.headers[i].value == value {
            return true;
        }
        i += 1;
    }
    false
}

fn demo_addr() -> BindAddr {
    BindAddr { ip0: 0, ip1: 0, ip2: 0, ip3: 0, port: 33035 }
}

fn hello_registry() -> MethodRegistry {
    let mut registry = MethodRegistry::new();
    let outcome = registry.register_method(String::from("say_hello"), Handler::SayHello);
    assert!(outcome.is_ok());
    registry
}

fn running_handle(policy: AccessPolicy) -> ServerHandle {
    let mut server = build_server(demo_addr(), policy, MiddlewareChain::cors_only());
    assert!(server.state == ServerState::Unbound);
    server.on_bound();
    assert!(server.state == ServerState::Bound);
    let (addr, handle) = server.start(hello_registry());
    assert!(addr == demo_addr());
    assert!(handle.state == ServerState::Running);
    handle
}

fn post_request(method_name: &str, id: RequestId, host: Option<&str>) -> HttpRequest {
    HttpRequest {
        method: HttpMethod::Post,
        host: host.map(String::from),
        origin: None,
        call: Some(RpcRequest { method: String::from(method_name), params: None, id }),
    }
}

#[test]
fn dispatch_say_hello() {
    let registry = hello_registry();
    let request = RpcRequest {
        method: String::from("say_hello"),
        params: None,
        id: RequestId::Num(1),
    };
    match registry.dispatch(&request) {
        RpcResponse::Success { result, id } => {
            assert_eq!(result, "Hello there!!");
            assert!(matches!(id, RequestId::Num(1)));
        }
        RpcResponse::Failure { .. } => panic!("say_hello is registered"),
    }
}

#[test]
fn dispatch_unknown_method() {
    let registry = hello_registry();
    let request = RpcRequest {
        method: String::from("unknown_method"),
        params: None,
        id: RequestId::Num(2),
    };
    match registry.dispatch(&request) {
        RpcResponse::Success { .. } => panic!("unknown method must fail"),
        RpcResponse::Failure { code, message, id } => {
            assert_eq!(code, METHOD_NOT_FOUND_CODE);
            assert_eq!(message, "Method not found");
            assert!(matches!(id, RequestId::Num(2)));
        }
    }
}

#[test]
fn register_rejects_empty_name() {
    let mut registry = MethodRegistry::new();
    assert!(registry.register_method(String::new(), Handler::SayHello).is_err());
    assert_eq!(registry.entries.len(), 0);
}

#[test]
fn register_overwrites_duplicate_name() {
    let mut registry = hello_registry();
    let outcome = registry.register_method(String::from("say_hello"), Handler::SayHello);
    assert!(outcome.is_ok());
    assert_eq!(registry.entries.len(), 1);
}

#[test]
fn allow_all_admits_any_host() {
    let policy = AccessPolicy::Any;
    assert!(policy.allows(&Some(String::from("example.com"))));
    assert!(policy.allows(&Some(String::from("localhost:33035"))));
    assert!(policy.allows(&None));
}

#[test]
fn allow_list_filters_hosts() {
    let policy = AccessPolicy::AllowList(vec![String::from("localhost:33035")]);
    assert!(policy.allows(&Some(String::from("localhost:33035"))));
    assert!(!policy.allows(&Some(String::from("evil.example"))));
    assert!(!policy.allows(&None));
}

#[test]
fn response_always_carries_cors_header() {
    let handle = running_handle(AccessPolicy::Any);
    let resp = handle.handle_request(&post_request("say_hello", RequestId::Num(1), Some("anywhere")));
    assert_eq!(resp.status, 200);
    assert!(has_header(&resp, "Access-Control-Allow-Origin", "*"));
    assert_eq!(
        resp.body,
        "{\"jsonrpc\":\"2.0\",\"result\":\"Hello there!!\",\"id\":1}"
    );
}

#[test]
fn unknown_method_response_keeps_id() {
    let handle = running_handle(AccessPolicy::Any);
    let resp = handle.handle_request(&post_request("unknown_method", RequestId::Num(2), None));
    assert_eq!(resp.status, 200);
    assert!(has_header(&resp, "Access-Control-Allow-Origin", "*"));
    assert_eq!(
        resp.body,
        "{\"jsonrpc\":\"2.0\",\"error\":{\"code\":-32601,\"message\":\"Method not found\"},\"id\":2}"
    );
}

#[test]
fn preflight_short_circuits() {
    let handle = running_handle(AccessPolicy::Any);
    let preflight = HttpRequest {
        method: HttpMethod::Options,
        host: None,
        origin: Some(String::from("https://example.org")),
        call: None,
    };
    let resp = handle.handle_request(&preflight);
    assert_eq!(resp.status, 200);
    assert_eq!(resp.body, "");
    assert_eq!(resp.headers.len(), 3);
    assert!(has_header(&resp, "Access-Control-Allow-Origin", "*"));
    assert!(has_header(&resp, "Access-Control-Allow-Methods", "POST"));
    assert!(has_header(&resp, "Access-Control-Allow-Headers", "content-type"));
}

#[test]
fn host_rejected_before_dispatch() {
    let policy = AccessPolicy::AllowList(vec![String::from("localhost:33035")]);
    let handle = running_handle(policy);
    let resp = handle.handle_request(&post_request("say_hello", RequestId::Num(1), Some("evil.example")));
    assert_eq!(resp.status, 403);
    assert_eq!(resp.body, "");
    assert!(has_header(&resp, "Access-Control-Allow-Origin", "*"));
}

#[test]
fn non_post_method_is_refused() {
    let handle = running_handle(AccessPolicy::Any);
    let request = HttpRequest { method: HttpMethod::Other, host: None, origin: None, call: None };
    let resp = handle.handle_request(&request);
    assert_eq!(resp.status, 405);
    assert!(has_header(&resp, "Access-Control-Allow-Origin", "*"));
}

#[test]
fn unparsable_body_yields_parse_error() {
    let handle = running_handle(AccessPolicy::Any);
    let request = HttpRequest { method: HttpMethod::Post, host: None, origin: None, call: None };
    let resp = handle.handle_request(&request);
    assert_eq!(resp.status, 200);
    assert_eq!(
        resp.body,
        "{\"jsonrpc\":\"2.0\",\"error\":{\"code\":-32700,\"message\":\"Parse error\"},\"id\":null}"
    );
}

#[test]
fn lifecycle_runs_forward_only() {
    let mut server = build_server(
        demo_addr(),
        AccessPolicy::Any,
        MiddlewareChain::cors_only(),
    );
    assert!(server.state == ServerState::Unbound);
    server.on_bound();
    assert!(server.state == ServerState::Bound);
    assert!(server.local_addr() == demo_addr());
    let (addr, mut handle) = server.start(hello_registry());
    assert!(addr == demo_addr());
    assert!(handle.local_addr() == demo_addr());
    assert!(handle.state == ServerState::Running);
    handle.shutdown();
    assert!(handle.state == ServerState::Stopped);
}
