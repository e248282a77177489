//! The server bootstrap: a bind address, the lifecycle state machine from
//! unbound to stopped, and the per-request pipeline — middleware
//! short-circuit, host filtering, method check, dispatch, and response
//! shaping. The socket itself is I/O and lives with the binary around this
//! library, which drives the lifecycle transitions and feeds requests in.

use vstd::prelude::*;
use crate::http::HttpMethod;
use crate::http::HttpRequest;
use crate::http::HttpResponse;
use crate::http::HttpResponseView;
use crate::http::Middleware;
use crate::http::MiddlewareChain;
use crate::http::lemma_chain_injects_cors;
use crate::http::spec_cors_headers;
use crate::http::spec_has_cors;
use crate::http::spec_has_header;
use crate::http::spec_intercept_seq;
use crate::http::spec_transform_seq;
use crate::policy::AccessPolicy;
use crate::render::render_response;
use crate::render::render_u64;
use crate::render::spec_dec;
use crate::render::spec_render_response;
use crate::rpc::MethodRegistry;
use crate::rpc::PARSE_ERROR_CODE;
use crate::rpc::RequestId;
use crate::rpc::RequestIdView;
use crate::rpc::RpcRequest;
use crate::rpc::RpcResponse;
use crate::rpc::RpcResponseView;
use crate::rpc::spec_dispatch;

verus! {

/// A well-formed socket address: four address octets and a port. Every
/// value of this type is a valid address, so a malformed address cannot
/// reach the bootstrap.
#[derive(Clone, Copy, PartialEq, Eq, Structural)]
pub struct BindAddr {
    pub ip0: u8,
    pub ip1: u8,
    pub ip2: u8,
    pub ip3: u8,
    pub port: u16,
}

impl BindAddr {
    /// The dotted-quad text of this address, `a.b.c.d:port`.
    pub open spec fn spec_text(self) -> Seq<char> {
        spec_dec(self.ip0 as int) + seq!['.'] + spec_dec(self.ip1 as int) + seq!['.']
            + spec_dec(self.ip2 as int) + seq!['.'] + spec_dec(self.ip3 as int) + seq![':']
            + spec_dec(self.port as int)
    }

    pub fn to_text(&self) -> (r: String)
        ensures
            r@ == self.spec_text(),
    {
        proof {
            reveal_strlit(".");
            reveal_strlit(":");
        }
        let mut s = render_u64(self.ip0 as u64);
        s.append(".");
        s.append(render_u64(self.ip1 as u64).as_str());
        s.append(".");
        s.append(render_u64(self.ip2 as u64).as_str());
        s.append(".");
        s.append(render_u64(self.ip3 as u64).as_str());
        s.append(":");
        s.append(render_u64(self.port as u64).as_str());
        proof {
            assert("."@ =~= seq!['.']);
            assert(":"@ =~= seq![':']);
            assert(s@ =~= self.spec_text());
        }
        s
    }
}

/// The server lifecycle. It only ever moves forward: once stopped, a new
/// server must be built from scratch.
#[derive(Clone, Copy, PartialEq, Eq, Structural)]
pub enum ServerState {
    Unbound,
    Bound,
    Running,
    Stopped,
}

/// A server being assembled: its address, access policy and middleware are
/// fixed at construction; the state advances as the caller binds and starts
/// it.
pub struct Server {
    pub addr: BindAddr,
    pub policy: AccessPolicy,
    pub middleware: MiddlewareChain,
    pub state: ServerState,
}

/// Assemble a server at `addr` with the given access policy and middleware
/// chain. Nothing is bound yet.
pub fn build_server(addr: BindAddr, policy: AccessPolicy, middleware: MiddlewareChain) -> (s:
    Server)
    ensures
        s.addr == addr,
        s.policy == policy,
        s.middleware == middleware,
        s.state == ServerState::Unbound,
{
    Server { addr, policy, middleware, state: ServerState::Unbound }
}

impl Server {
    /// Record that the listening socket was bound. The caller performs the
    /// bind itself; a bind failure aborts the bootstrap and never reaches
    /// this transition.
    pub fn on_bound(&mut self)
        requires
            old(self).state == ServerState::Unbound,
        ensures
            final(self).state == ServerState::Bound,
            final(self).addr == old(self).addr,
            final(self).policy == old(self).policy,
            final(self).middleware == old(self).middleware,
    {
        self.state = ServerState::Bound;
    }

    /// The address the server was bound at.
    pub fn local_addr(&self) -> (r: BindAddr)
        requires
            self.state == ServerState::Bound,
        ensures
            r == self.addr,
    {
        self.addr
    }

    /// Begin serving: consume the bound server and the populated registry
    /// and hand back the bound address with the running server's handle.
    /// The registry is read-only from here on.
    pub fn start(self, registry: MethodRegistry) -> (r: (BindAddr, ServerHandle))
        requires
            self.state == ServerState::Bound,
        ensures
            r.0 == self.addr,
            r.1.addr == self.addr,
            r.1.policy == self.policy,
            r.1.middleware == self.middleware,
            r.1.registry == registry,
            r.1.state == ServerState::Running,
    {
        let addr = self.addr;
        let handle = ServerHandle {
            addr: self.addr,
            policy: self.policy,
            middleware: self.middleware,
            registry,
            state: ServerState::Running,
        };
        (addr, handle)
    }
}

/// The response the dispatcher core gives before any middleware shaping:
/// a bare rejection when the host fails the policy or the method is not
/// `POST`, otherwise the rendered outcome of the invocation.
pub open spec fn spec_inner_response(
    policy: AccessPolicy,
    registry: MethodRegistry,
    req: HttpRequest,
) -> HttpResponseView {
    if !policy.spec_allows(req.host) {
        HttpResponseView { status: 403, headers: Seq::empty(), body: Seq::empty() }
    } else if req.method != HttpMethod::Post {
        HttpResponseView { status: 405, headers: Seq::empty(), body: Seq::empty() }
    } else {
        match req.call {
            Option::Some(call) => HttpResponseView {
                status: 200,
                headers: Seq::empty(),
                body: spec_render_response(spec_dispatch(registry.entries@, call@)),
            },
            Option::None => HttpResponseView {
                status: 200,
                headers: Seq::empty(),
                body: spec_render_response(
                    RpcResponseView::Failure {
                        code: PARSE_ERROR_CODE,
                        message: "Parse error"@,
                        id: RequestIdView::Null,
                    },
                ),
            },
        }
    }
}

/// The server's whole behaviour for one request: a middleware layer may
/// answer it outright (CORS preflight); otherwise the host check, the
/// method check and the dispatcher produce the inner response; either way
/// the response passes back out through the middleware chain.
pub open spec fn spec_handle(
    policy: AccessPolicy,
    chain: MiddlewareChain,
    registry: MethodRegistry,
    req: HttpRequest,
) -> HttpResponseView {
    let inner = match spec_intercept_seq(chain.layers@, req) {
        Option::Some(short) => short,
        Option::None => spec_inner_response(policy, registry, req),
    };
    spec_transform_seq(chain.layers@, inner)
}

/// Whatever request comes in and whatever the dispatcher answers, a chain
/// with a CORS layer stamps `Access-Control-Allow-Origin: *` on the
/// response.
pub proof fn lemma_every_response_carries_cors(
    policy: AccessPolicy,
    chain: MiddlewareChain,
    registry: MethodRegistry,
    req: HttpRequest,
)
    requires
        spec_has_cors(chain.layers@),
    ensures
        spec_has_header(
            spec_handle(policy, chain, registry, req).headers,
            "Access-Control-Allow-Origin"@,
            "*"@,
        ),
{
    let inner = match spec_intercept_seq(chain.layers@, req) {
        Option::Some(short) => short,
        Option::None => spec_inner_response(policy, registry, req),
    };
    lemma_chain_injects_cors(chain.layers@, inner);
}

/// A request whose host fails the policy is answered without consulting the
/// method registry: any two registries produce the identical response.
pub proof fn lemma_host_rejection_ignores_registry(
    policy: AccessPolicy,
    chain: MiddlewareChain,
    reg1: MethodRegistry,
    reg2: MethodRegistry,
    req: HttpRequest,
)
    requires
        !policy.spec_allows(req.host),
    ensures
        spec_handle(policy, chain, reg1, req) == spec_handle(policy, chain, reg2, req),
{
}

proof fn lemma_no_intercept_without_preflight(layers: Seq<Middleware>, req: HttpRequest)
    requires
        req.method != HttpMethod::Options,
    ensures
        spec_intercept_seq(layers, req) is None,
    decreases layers.len(),
{
    if layers.len() > 0 {
        lemma_no_intercept_without_preflight(layers.drop_first(), req);
    }
}

/// Under the allow-all policy every `POST` invocation reaches the
/// dispatcher, whatever host header it carries: the response is the
/// dispatcher's rendered outcome, shaped by the middleware chain.
pub proof fn lemma_allow_all_reaches_dispatch(
    chain: MiddlewareChain,
    registry: MethodRegistry,
    req: HttpRequest,
    call: RpcRequest,
)
    requires
        req.method == HttpMethod::Post,
        req.call == Option::Some(call),
    ensures
        spec_handle(AccessPolicy::Any, chain, registry, req) == spec_transform_seq(
            chain.layers@,
            HttpResponseView {
                status: 200,
                headers: Seq::empty(),
                body: spec_render_response(spec_dispatch(registry.entries@, call@)),
            },
        ),
{
    lemma_no_intercept_without_preflight(chain.layers@, req);
}

/// A preflight (`OPTIONS`) request sent through the single-CORS-layer chain
/// is answered before any host check or dispatch, with an empty 200
/// response carrying exactly the CORS headers — whatever the policy and
/// registry hold.
pub proof fn lemma_preflight_answered_by_cors(
    policy: AccessPolicy,
    chain: MiddlewareChain,
    registry: MethodRegistry,
    req: HttpRequest,
)
    requires
        chain.layers@ == seq![Middleware::Cors],
        req.method == HttpMethod::Options,
    ensures
        spec_handle(policy, chain, registry, req) == (HttpResponseView {
            status: 200,
            headers: spec_cors_headers(),
            body: Seq::empty(),
        }),
{
    reveal_with_fuel(spec_transform_seq, 2);
    let empty200 = HttpResponseView { status: 200, headers: Seq::empty(), body: Seq::empty() };
    assert(spec_intercept_seq(chain.layers@, req) == Option::Some(empty200));
    assert(chain.layers@.drop_first() =~= Seq::<Middleware>::empty());
    assert(spec_transform_seq(chain.layers@.drop_first(), empty200) == empty200);
    assert(spec_transform_seq(chain.layers@, empty200).headers =~= spec_cors_headers());
    assert(spec_handle(policy, chain, registry, req) =~= (HttpResponseView {
        status: 200,
        headers: spec_cors_headers(),
        body: Seq::empty(),
    }));
}

/// The running server: the immutable configuration, the read-only method
/// registry, and the lifecycle state the caller advances to `Stopped` when
/// shutting down.
pub struct ServerHandle {
    pub addr: BindAddr,
    pub policy: AccessPolicy,
    pub middleware: MiddlewareChain,
    pub registry: MethodRegistry,
    pub state: ServerState,
}

impl ServerHandle {
    /// The address the server accepts connections at.
    pub fn local_addr(&self) -> (r: BindAddr)
        ensures
            r == self.addr,
    {
        self.addr
    }

    /// Stop accepting connections. Once stopped, a handle never runs again.
    pub fn shutdown(&mut self)
        requires
            old(self).state == ServerState::Running,
        ensures
            final(self).state == ServerState::Stopped,
            final(self).addr == old(self).addr,
            final(self).policy == old(self).policy,
            final(self).middleware == old(self).middleware,
            final(self).registry == old(self).registry,
    {
        self.state = ServerState::Stopped;
    }

    /// Answer one request. Errors here are recoverable and scoped to this
    /// request: they become a response, never a state change.
    pub fn handle_request(&self, req: &HttpRequest) -> (resp: HttpResponse)
        requires
            self.state == ServerState::Running,
        ensures
            resp@ == spec_handle(self.policy, self.middleware, self.registry, *req),
            spec_has_cors(self.middleware.layers@) ==> spec_has_header(
                resp@.headers,
                "Access-Control-Allow-Origin"@,
                "*"@,
            ),
    {
        let short = self.middleware.intercept(req);
        let mut inner: HttpResponse = match short {
            Some(resp) => resp,
            None => {
                if !self.policy.allows(&req.host) {
                    let r = HttpResponse { status: 403, headers: Vec::new(), body: String::new() };
                    proof {
                        assert(r@ =~= spec_inner_response(self.policy, self.registry, *req));
                    }
                    r
                } else if !(req.method == HttpMethod::Post) {
                    let r = HttpResponse { status: 405, headers: Vec::new(), body: String::new() };
                    proof {
                        assert(r@ =~= spec_inner_response(self.policy, self.registry, *req));
                    }
                    r
                } else {
                    match &req.call {
                        Some(call) => {
                            let outcome = self.registry.dispatch(call);
                            let r = HttpResponse {
                                status: 200,
                                headers: Vec::new(),
                                body: render_response(&outcome),
                            };
                            proof {
                                assert(r@ =~= spec_inner_response(
                                    self.policy,
                                    self.registry,
                                    *req,
                                ));
                            }
                            r
                        },
                        None => {
                            let failure = RpcResponse::Failure {
                                code: PARSE_ERROR_CODE,
                                message: String::from_str("Parse error"),
                                id: RequestId::Null,
                            };
                            let r = HttpResponse {
                                status: 200,
                                headers: Vec::new(),
                                body: render_response(&failure),
                            };
                            proof {
                                assert(r@ =~= spec_inner_response(
                                    self.policy,
                                    self.registry,
                                    *req,
                                ));
                            }
                            r
                        },
                    }
                }
            },
        };
        self.middleware.transform(&mut inner);
        proof {
            if spec_has_cors(self.middleware.layers@) {
                lemma_every_response_carries_cors(
                    self.policy,
                    self.middleware,
                    self.registry,
                    *req,
                );
            }
        }
        inner
    }
}

} // verus!
