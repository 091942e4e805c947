//! The gateway: its configuration, the order of its middleware, and the
//! fallback proxy that replays a request upstream when the local methods do
//! not know it.
use vstd::prelude::*;
use jsonrpsee::types::error::{ErrorCode, METHOD_NOT_FOUND_MSG};
use crate::cors::{allowed_origins, texts, AllowHeaders, CorsPolicy, Method};

verus! {

/// The error type of the JSON-RPC server library, carried through as it is.
#[verifier::external_type_specification]
#[verifier::external_body]
pub struct ExJsonRpcError(jsonrpsee::core::Error);

/// The error member of a failed JSON-RPC response.
#[derive(Clone, Debug, PartialEq, Eq)]
pub struct ErrorObject {
    pub code: i32,
    pub message: String,
}

/// A response body that was read as a failed JSON-RPC response.
#[derive(Clone, Debug, PartialEq, Eq)]
pub struct JsonRpcErrorResponse {
    pub error: ErrorObject,
}

/// The code of the JSON-RPC error "method not found".
pub open spec fn method_not_found_code() -> int {
    -32601
}

/// The message of the JSON-RPC error "method not found".
pub open spec fn method_not_found_message() -> Seq<char> {
    "Method not found"@
}

/// The code that `jsonrpsee`'s `ErrorCode::MethodNotFound` stands for, which
/// is the one JSON-RPC 2.0 reserves.
#[verifier::external_body]
fn not_found_code() -> (code: i32)
    ensures
        code == method_not_found_code(),
{
    ErrorCode::MethodNotFound.code()
}

/// The text of `jsonrpsee`'s constant `METHOD_NOT_FOUND_MSG`.
#[verifier::external_body]
fn not_found_message() -> (message: String)
    ensures
        message@ == method_not_found_message(),
{
    METHOD_NOT_FOUND_MSG.to_string()
}

/// Whether a response, as far as it could be read as a failed one, says
/// that the method is not known.
pub open spec fn says_method_not_found(response: Option<JsonRpcErrorResponse>) -> bool {
    match response {
        Some(r) => r.error.code == method_not_found_code() && r.error.message@
            == method_not_found_message(),
        None => false,
    }
}

/// Tells whether a response says that the method is not known: both the
/// code and the message must be those of "method not found".
pub fn is_method_not_found(response: &Option<JsonRpcErrorResponse>) -> (r: bool)
    ensures
        r == says_method_not_found(*response),
{
    match response {
        Some(r) => r.error.code == not_found_code() && r.error.message == not_found_message(),
        None => false,
    }
}

/// The fallback proxy as a layer: it holds the upstream address until the
/// inner service is known.
#[derive(Clone, Debug)]
pub struct ProxyJsonRpcLayer {
    pub address: String,
}

impl ProxyJsonRpcLayer {
    /// A proxy layer for the upstream node at `address`.
    pub fn new(address: String) -> (layer: ProxyJsonRpcLayer)
        ensures
            layer.address == address,
    {
        ProxyJsonRpcLayer { address }
    }

    /// Wraps `inner` into the proxy.
    pub fn layer<S>(&self, inner: S) -> (service: ProxyJsonRpcRequest<S>)
        ensures
            service.inner == inner,
            service.address@ == self.address@,
    {
        ProxyJsonRpcRequest { inner, address: self.address.clone() }
    }
}

/// The fallback proxy around an inner service.
#[derive(Debug, Clone)]
pub struct ProxyJsonRpcRequest<S> {
    pub inner: S,
    pub address: String,
}

/// Where one exchange through the proxy stands.
#[derive(Clone, Copy, Debug, PartialEq, Eq, Structural)]
pub enum ProxyStage {
    /// The request body is being read.
    AwaitingRequest,
    /// The inner service was called.
    AwaitingLocal,
    /// The upstream node was called.
    AwaitingUpstream,
    /// The response was given; nothing more happens.
    Done,
}

/// One request on its way through the proxy, with the body that was read
/// from it.
#[derive(Debug)]
pub struct Exchange {
    pub stage: ProxyStage,
    pub request: Vec<u8>,
}

/// What came back from the outside work that the last action asked for.
/// `R` is the response type of the services.
#[derive(Debug)]
pub enum ProxyEvent<R> {
    /// The request body was read.
    Request { body: Vec<u8> },
    /// The inner service answered. `error` is its body read as a failed
    /// JSON-RPC response, or `None` where it cannot be read as one.
    LocalResponse { response: R, error: Option<JsonRpcErrorResponse> },
    /// The upstream node answered.
    UpstreamResponse { response: R },
    /// Reading or calling failed.
    Failed,
}

/// The outside work to do next, or the response to give.
#[derive(Debug)]
pub enum ProxyAction<R> {
    /// Call the inner service with this body.
    CallInner { body: Vec<u8> },
    /// Post this body to the upstream node.
    CallUpstream { address: String, content_type: String, body: Vec<u8> },
    /// Give this response to the caller.
    Respond { response: R },
    /// Give the failure to the caller.
    Fail,
}

/// The content type of a request that is replayed upstream.
pub open spec fn json_content_type() -> Seq<char> {
    "application/json"@
}

/// The stage that follows `stage` on `event`.
pub open spec fn proxy_next_stage<R>(stage: ProxyStage, event: ProxyEvent<R>) -> ProxyStage {
    match (stage, event) {
        (ProxyStage::AwaitingRequest, ProxyEvent::Request { .. }) => ProxyStage::AwaitingLocal,
        (ProxyStage::AwaitingLocal, ProxyEvent::LocalResponse { error, .. }) => {
            if says_method_not_found(error) {
                ProxyStage::AwaitingUpstream
            } else {
                ProxyStage::Done
            }
        },
        _ => ProxyStage::Done,
    }
}

/// The request body that is kept after `event`: the one that was read.
pub open spec fn proxy_next_request<R>(
    stage: ProxyStage,
    request: Seq<u8>,
    event: ProxyEvent<R>,
) -> Seq<u8> {
    match (stage, event) {
        (ProxyStage::AwaitingRequest, ProxyEvent::Request { body }) => body@,
        _ => request,
    }
}

/// Whether `action` is what the proxy for `address` does in `stage` on
/// `event`, with `request` the body that was read before. An event that the
/// stage does not wait for is a failure.
pub open spec fn proxy_acts<R>(
    address: Seq<char>,
    stage: ProxyStage,
    request: Seq<u8>,
    event: ProxyEvent<R>,
    action: ProxyAction<R>,
) -> bool {
    match (stage, event) {
        (ProxyStage::AwaitingRequest, ProxyEvent::Request { body }) => {
            action matches ProxyAction::CallInner { body: sent } && sent@ == body@
        },
        (ProxyStage::AwaitingLocal, ProxyEvent::LocalResponse { response, error }) => {
            if says_method_not_found(error) {
                action matches ProxyAction::CallUpstream { address: to, content_type, body }
                    && to@ == address && content_type@ == json_content_type() && body@ == request
            } else {
                action matches ProxyAction::Respond { response: given } && given == response
            }
        },
        (ProxyStage::AwaitingUpstream, ProxyEvent::UpstreamResponse { response }) => {
            action matches ProxyAction::Respond { response: given } && given == response
        },
        _ => action is Fail,
    }
}

impl<S> ProxyJsonRpcRequest<S> {
    /// The proxy around `inner` for the upstream node at `address`. It never
    /// fails.
    pub fn new(inner: S, address: &str) -> (r: Result<Self, jsonrpsee::core::Error>)
        ensures
            r matches Ok(service) && service.inner == inner && service.address@ == address@,
    {
        Ok(ProxyJsonRpcRequest { inner, address: address.to_owned() })
    }

    /// Begins an exchange: the first thing to do is to read the request
    /// body.
    pub fn call(&self) -> (exchange: Exchange)
        ensures
            exchange.stage == ProxyStage::AwaitingRequest,
            exchange.request@.len() == 0,
    {
        Exchange { stage: ProxyStage::AwaitingRequest, request: Vec::new() }
    }

    /// Takes an exchange one step further on `event` and says what to do
    /// next. The request goes to the inner service first. Where that one
    /// answers "method not found", the same body is posted upstream and the
    /// upstream's response is given as it is; any other response of the
    /// inner service is given as it is.
    pub fn advance<R>(&self, exchange: Exchange, event: ProxyEvent<R>) -> (r: (
        Exchange,
        ProxyAction<R>,
    ))
        ensures
            r.0.stage == proxy_next_stage(exchange.stage, event),
            r.0.request@ == proxy_next_request(exchange.stage, exchange.request@, event),
            proxy_acts(self.address@, exchange.stage, exchange.request@, event, r.1),
    {
        let Exchange { stage, request } = exchange;
        match (stage, event) {
            (ProxyStage::AwaitingRequest, ProxyEvent::Request { body }) => {
                let sent = body.clone();
                (
                    Exchange { stage: ProxyStage::AwaitingLocal, request: body },
                    ProxyAction::CallInner { body: sent },
                )
            },
            (ProxyStage::AwaitingLocal, ProxyEvent::LocalResponse { response, error }) => {
                if is_method_not_found(&error) {
                    let body = request.clone();
                    (
                        Exchange { stage: ProxyStage::AwaitingUpstream, request },
                        ProxyAction::CallUpstream {
                            address: self.address.clone(),
                            content_type: "application/json".to_owned(),
                            body,
                        },
                    )
                } else {
                    (
                        Exchange { stage: ProxyStage::Done, request },
                        ProxyAction::Respond { response },
                    )
                }
            },
            (ProxyStage::AwaitingUpstream, ProxyEvent::UpstreamResponse { response }) => (
                Exchange { stage: ProxyStage::Done, request },
                ProxyAction::Respond { response },
            ),
            _ => (Exchange { stage: ProxyStage::Done, request }, ProxyAction::Fail),
        }
    }
}

/// One kind of middleware of the gateway.
#[derive(Clone, Copy, Debug, PartialEq, Eq, Structural)]
pub enum Middleware {
    Cors,
    Proxy,
}

/// The configuration of the gateway.
pub struct JsonRpcServer {
    pub listen_address: String,
    pub cors_layer: Option<CorsPolicy>,
    pub proxy_layer: Option<ProxyJsonRpcLayer>,
}

/// The middleware that a gateway applies, outermost first: the
/// cross-origin policy where there is one, then the proxy where there is
/// one.
pub open spec fn middleware_of(cors: bool, proxy: bool) -> Seq<Middleware> {
    (if cors {
        seq![Middleware::Cors]
    } else {
        Seq::<Middleware>::empty()
    }) + (if proxy {
        seq![Middleware::Proxy]
    } else {
        Seq::<Middleware>::empty()
    })
}

impl JsonRpcServer {
    /// A gateway that listens at `listen_address`, without middleware.
    pub fn new(listen_address: String) -> (server: JsonRpcServer)
        ensures
            server.listen_address == listen_address,
            server.cors_layer is None,
            server.proxy_layer is None,
    {
        JsonRpcServer { listen_address, cors_layer: None, proxy_layer: None }
    }

    /// Sets the cross-origin policy for the configured domains.
    pub fn with_cors(self, cors_domain: Vec<String>) -> (server: JsonRpcServer)
        ensures
            server.listen_address == self.listen_address,
            server.proxy_layer == self.proxy_layer,
            server.cors_layer matches Some(policy) && policy.allow_origin.origins()
                == allowed_origins(texts(cors_domain@)) && policy.allow_methods == Method::Post
                && policy.allow_headers == AllowHeaders::Any,
    {
        let policy = CorsPolicy::new(&cors_domain);
        JsonRpcServer {
            listen_address: self.listen_address,
            cors_layer: Some(policy),
            proxy_layer: self.proxy_layer,
        }
    }

    /// Sets the fallback proxy for the upstream node at `eth_client_address`.
    pub fn with_proxy(self, eth_client_address: String) -> (server: JsonRpcServer)
        ensures
            server.listen_address == self.listen_address,
            server.cors_layer == self.cors_layer,
            server.proxy_layer matches Some(layer) && layer.address == eth_client_address,
    {
        JsonRpcServer {
            listen_address: self.listen_address,
            cors_layer: self.cors_layer,
            proxy_layer: Some(ProxyJsonRpcLayer::new(eth_client_address)),
        }
    }

    /// The middleware to apply, outermost first.
    pub fn middleware(&self) -> (order: Vec<Middleware>)
        ensures
            order@ == middleware_of(self.cors_layer is Some, self.proxy_layer is Some),
    {
        let mut order: Vec<Middleware> = Vec::new();
        if self.cors_layer.is_some() {
            order.push(Middleware::Cors);
        }
        if self.proxy_layer.is_some() {
            order.push(Middleware::Proxy);
        }
        assert(order@ =~= middleware_of(self.cors_layer is Some, self.proxy_layer is Some));
        order
    }
}

/// A request whose method the inner service does not know is replayed
/// upstream with the very body that was read, and the caller gets the
/// upstream's response as it is.
pub proof fn lemma_unknown_method_goes_upstream<R>(
    address: Seq<char>,
    body: Vec<u8>,
    local: R,
    error: Option<JsonRpcErrorResponse>,
    upstream: R,
    first: ProxyAction<R>,
    second: ProxyAction<R>,
    third: ProxyAction<R>,
)
    requires
        says_method_not_found(error),
        proxy_acts(
            address,
            ProxyStage::AwaitingRequest,
            Seq::<u8>::empty(),
            ProxyEvent::<R>::Request { body },
            first,
        ),
        proxy_acts(
            address,
            ProxyStage::AwaitingLocal,
            body@,
            ProxyEvent::LocalResponse { response: local, error },
            second,
        ),
        proxy_acts(
            address,
            ProxyStage::AwaitingUpstream,
            body@,
            ProxyEvent::UpstreamResponse { response: upstream },
            third,
        ),
    ensures
        proxy_next_stage(ProxyStage::AwaitingRequest, ProxyEvent::<R>::Request { body })
            == ProxyStage::AwaitingLocal,
        proxy_next_request(
            ProxyStage::AwaitingRequest,
            Seq::<u8>::empty(),
            ProxyEvent::<R>::Request { body },
        ) == body@,
        proxy_next_stage(
            ProxyStage::AwaitingLocal,
            ProxyEvent::LocalResponse { response: local, error },
        ) == ProxyStage::AwaitingUpstream,
        proxy_next_stage(
            ProxyStage::AwaitingUpstream,
            ProxyEvent::UpstreamResponse { response: upstream },
        ) == ProxyStage::Done,
        first matches ProxyAction::CallInner { body: sent } && sent@ == body@,
        second matches ProxyAction::CallUpstream { address: to, body: sent, .. } && to@ == address
            && sent@ == body@,
        third == (ProxyAction::Respond { response: upstream }),
{
}

/// Any other response of the inner service, a success or another error,
/// ends the exchange and is given to the caller as it is.
pub proof fn lemma_known_method_passes_through<R>(
    address: Seq<char>,
    request: Seq<u8>,
    local: R,
    error: Option<JsonRpcErrorResponse>,
    action: ProxyAction<R>,
)
    requires
        !says_method_not_found(error),
        proxy_acts(
            address,
            ProxyStage::AwaitingLocal,
            request,
            ProxyEvent::LocalResponse { response: local, error },
            action,
        ),
    ensures
        action == (ProxyAction::Respond { response: local }),
        proxy_next_stage(
            ProxyStage::AwaitingLocal,
            ProxyEvent::LocalResponse { response: local, error },
        ) == ProxyStage::Done,
{
}

} // verus!
