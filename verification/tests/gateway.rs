use baby_bundler::cors::{AllowHeaders, AllowOrigin, CorsPolicy, Method};
use baby_bundler::server::{
    is_method_not_found, ErrorObject, Exchange, JsonRpcErrorResponse, JsonRpcServer, Middleware,
    ProxyAction, ProxyEvent, ProxyJsonRpcLayer, ProxyJsonRpcRequest, ProxyStage,
};

fn strings(items: &[&str]) -> Vec<String> {
    items.iter().map(|s| s.to_string()).collect()
}

fn failed(code: i32, message: &str) -> Option<JsonRpcErrorResponse> {
    Some(JsonRpcErrorResponse { error: ErrorObject { code, message: message.to_string() } })
}

fn request() -> Vec<u8> {
    br#"{"jsonrpc":"2.0","method":"eth_getBlockByNumber","params":["latest",false],"id":1}"#
        .to_vec()
}

#[test]
fn wildcard_accepts_any_origin() {
    let policy = CorsPolicy::new(&strings(&["*"]));
    assert_eq!(policy.allow_origin, AllowOrigin::Any);
    assert_eq!(policy.allow_methods, Method::Post);
    assert_eq!(policy.allow_headers, AllowHeaders::Any);
    assert!(policy.allows_origin("https://a.example"));
    assert!(policy.allows_origin("https://b.example"));
    assert!(policy.allows_origin(""));
    let mixed = CorsPolicy::new(&strings(&["https://a.example", "*"]));
    assert_eq!(mixed.allow_origin, AllowOrigin::Any);
}

#[test]
fn explicit_list_rejects_other_origins() {
    let policy = CorsPolicy::new(&strings(&["https://a.example"]));
    assert_eq!(policy.allow_origin, AllowOrigin::List(strings(&["https://a.example"])));
    assert!(policy.allows_origin("https://a.example"));
    assert!(!policy.allows_origin("https://b.example"));
    assert!(!policy.allows_origin("*"));
}

#[test]
fn domains_that_are_no_header_values_are_dropped() {
    let domains = strings(&["https://a.example", "bad\norigin", "tab\tok", "del\u{7f}", "https://\u{e9}.example", ""]);
    let policy = CorsPolicy::new(&domains);
    assert_eq!(
        policy.allow_origin,
        AllowOrigin::List(strings(&["https://a.example", "tab\tok", "https://\u{e9}.example", ""]))
    );
    assert!(!policy.allows_origin("bad\norigin"));
    let none = CorsPolicy::new(&Vec::new());
    assert_eq!(none.allow_origin, AllowOrigin::List(Vec::new()));
    assert!(!none.allows_origin("https://a.example"));
}

#[test]
fn method_not_found_needs_code_and_message() {
    assert!(is_method_not_found(&failed(-32601, "Method not found")));
    assert!(!is_method_not_found(&failed(-32601, "method not found")));
    assert!(!is_method_not_found(&failed(-32600, "Method not found")));
    assert!(!is_method_not_found(&failed(-32603, "Internal error")));
    assert!(!is_method_not_found(&None));
}

#[test]
fn unknown_method_gets_the_upstreams_response() {
    let proxy = ProxyJsonRpcRequest::new((), "http://127.0.0.1:8545").ok().unwrap();
    let exchange = proxy.call();
    assert_eq!(exchange.stage, ProxyStage::AwaitingRequest);

    let (exchange, action) = proxy.advance::<Vec<u8>>(exchange, ProxyEvent::Request { body: request() });
    assert_eq!(exchange.stage, ProxyStage::AwaitingLocal);
    match action {
        ProxyAction::CallInner { body } => assert_eq!(body, request()),
        other => panic!("unexpected action {:?}", other),
    }

    let local = br#"{"jsonrpc":"2.0","error":{"code":-32601,"message":"Method not found"},"id":1}"#.to_vec();
    let event = ProxyEvent::LocalResponse { response: local, error: failed(-32601, "Method not found") };
    let (exchange, action) = proxy.advance(exchange, event);
    assert_eq!(exchange.stage, ProxyStage::AwaitingUpstream);
    match action {
        ProxyAction::CallUpstream { address, content_type, body } => {
            assert_eq!(address, "http://127.0.0.1:8545");
            assert_eq!(content_type, "application/json");
            assert_eq!(body, request());
        }
        other => panic!("unexpected action {:?}", other),
    }

    let upstream = br#"{"jsonrpc":"2.0","result":{"number":"0x1b4"},"id":1}"#.to_vec();
    let event = ProxyEvent::UpstreamResponse { response: upstream.clone() };
    let (exchange, action) = proxy.advance(exchange, event);
    assert_eq!(exchange.stage, ProxyStage::Done);
    match action {
        ProxyAction::Respond { response } => assert_eq!(response, upstream),
        other => panic!("unexpected action {:?}", other),
    }
}

#[test]
fn known_method_passes_through() {
    let proxy = ProxyJsonRpcLayer::new("http://127.0.0.1:8545".to_string()).layer(());
    let exchange = proxy.call();
    let (exchange, _) = proxy.advance::<Vec<u8>>(exchange, ProxyEvent::Request { body: request() });
    let local = br#"{"jsonrpc":"2.0","result":"0x13881","id":1}"#.to_vec();
    let event = ProxyEvent::LocalResponse { response: local.clone(), error: None };
    let (exchange, action) = proxy.advance(exchange, event);
    assert_eq!(exchange.stage, ProxyStage::Done);
    match action {
        ProxyAction::Respond { response } => assert_eq!(response, local),
        other => panic!("unexpected action {:?}", other),
    }
}

#[test]
fn other_errors_pass_through() {
    let proxy = ProxyJsonRpcRequest::new((), "http://127.0.0.1:8545").ok().unwrap();
    let exchange = Exchange { stage: ProxyStage::AwaitingLocal, request: request() };
    let event = ProxyEvent::LocalResponse { response: 7u8, error: failed(-32000, "Method not found") };
    let (exchange, action) = proxy.advance(exchange, event);
    assert_eq!(exchange.stage, ProxyStage::Done);
    assert!(matches!(action, ProxyAction::Respond { response: 7 }));
}

#[test]
fn proxy_failures_and_events_out_of_turn_fail() {
    let proxy = ProxyJsonRpcRequest::new((), "http://127.0.0.1:8545").ok().unwrap();
    let (exchange, action) = proxy.advance::<u8>(proxy.call(), ProxyEvent::Failed);
    assert_eq!(exchange.stage, ProxyStage::Done);
    assert!(matches!(action, ProxyAction::Fail));
    let (exchange, action) = proxy.advance(proxy.call(), ProxyEvent::UpstreamResponse { response: 1u8 });
    assert_eq!(exchange.stage, ProxyStage::Done);
    assert!(matches!(action, ProxyAction::Fail));
    let (exchange, action) = proxy.advance(exchange, ProxyEvent::Request { body: request() });
    assert_eq!(exchange.stage, ProxyStage::Done);
    assert!(matches!(action, ProxyAction::<u8>::Fail));
}

#[test]
fn proxy_keeps_inner_and_address() {
    let proxy = ProxyJsonRpcRequest::new(42u32, "http://node:8545").ok().unwrap();
    assert_eq!(proxy.inner, 42);
    assert_eq!(proxy.address, "http://node:8545");
    let layer = ProxyJsonRpcLayer::new("http://node:8545".to_string());
    assert_eq!(layer.address, "http://node:8545");
    let service = layer.layer("inner");
    assert_eq!(service.inner, "inner");
    assert_eq!(service.address, "http://node:8545");
}

#[test]
fn server_applies_cors_before_the_proxy() {
    let server = JsonRpcServer::new("127.0.0.1:3000".to_string());
    assert_eq!(server.listen_address, "127.0.0.1:3000");
    assert!(server.cors_layer.is_none());
    assert!(server.proxy_layer.is_none());
    assert_eq!(server.middleware(), Vec::<Middleware>::new());

    let server = server.with_proxy("ws://node".to_string());
    assert_eq!(server.proxy_layer.as_ref().unwrap().address, "ws://node");
    assert_eq!(server.middleware(), vec![Middleware::Proxy]);

    let server = server.with_cors(strings(&["*"]));
    assert_eq!(server.listen_address, "127.0.0.1:3000");
    assert_eq!(server.cors_layer.as_ref().unwrap().allow_origin, AllowOrigin::Any);
    assert_eq!(server.proxy_layer.as_ref().unwrap().address, "ws://node");
    assert_eq!(server.middleware(), vec![Middleware::Cors, Middleware::Proxy]);

    let only_cors = JsonRpcServer::new("0.0.0.0:80".to_string()).with_cors(strings(&["https://a.example"]));
    assert_eq!(only_cors.middleware(), vec![Middleware::Cors]);
}
