//! A minimal model of the HTTP surface the server needs: requests with the
//! fields the bootstrap reads, responses as status, headers and body, and
//! the middleware chain — ordered response transformers with a chance to
//! short-circuit a request, of which CORS is the one this library ships.

use vstd::prelude::*;
use crate::rpc::RpcRequest;

verus! {

/// The request methods the server distinguishes: invocations arrive by
/// `POST`, CORS preflight by `OPTIONS`, anything else is refused.
#[derive(Clone, Copy, PartialEq, Eq, Structural)]
pub enum HttpMethod {
    Post,
    Options,
    Other,
}

/// One response header.
pub struct Header {
    pub name: String,
    pub value: String,
}

/// What the server reads from one inbound HTTP request: the method, the
/// host and origin headers if present, and the invocation parsed from the
/// body — `None` when the body was not a well-formed invocation.
pub struct HttpRequest {
    pub method: HttpMethod,
    pub host: Option<String>,
    pub origin: Option<String>,
    pub call: Option<RpcRequest>,
}

/// One outbound HTTP response.
pub struct HttpResponse {
    pub status: u16,
    pub headers: Vec<Header>,
    pub body: String,
}

/// The mathematical shape of an [`HttpResponse`]: headers as name/value
/// character sequences.
#[verifier::ext_equal]
pub struct HttpResponseView {
    pub status: u16,
    pub headers: Seq<(Seq<char>, Seq<char>)>,
    pub body: Seq<char>,
}

impl View for HttpResponse {
    type V = HttpResponseView;

    open spec fn view(&self) -> HttpResponseView {
        HttpResponseView {
            status: self.status,
            headers: Seq::new(
                self.headers@.len(),
                |i: int| (self.headers@[i].name@, self.headers@[i].value@),
            ),
            body: self.body@,
        }
    }
}

/// Whether `headers` carries `name: value`.
pub open spec fn spec_has_header(
    headers: Seq<(Seq<char>, Seq<char>)>,
    name: Seq<char>,
    value: Seq<char>,
) -> bool {
    exists|i: int| 0 <= i < headers.len() && headers[i] == (name, value)
}

/// The permissive cross-origin headers, appended to every response whatever
/// the request's origin was: any origin, the `POST` method, and the
/// `content-type` header are allowed.
pub open spec fn spec_cors_headers() -> Seq<(Seq<char>, Seq<char>)> {
    seq![
        ("Access-Control-Allow-Origin"@, "*"@),
        ("Access-Control-Allow-Methods"@, "POST"@),
        ("Access-Control-Allow-Headers"@, "content-type"@),
    ]
}

/// A response transformer wrapped around the dispatcher. The chain is open
/// to further kinds; CORS header injection is the one this library ships.
#[derive(Clone, Copy, PartialEq, Eq, Structural)]
pub enum Middleware {
    /// Permissive cross-origin sharing: inject the CORS headers into every
    /// response and answer preflight requests directly.
    Cors,
}

/// What one middleware does to a response on its way out.
pub open spec fn spec_transform(m: Middleware, r: HttpResponseView) -> HttpResponseView {
    match m {
        Middleware::Cors => HttpResponseView {
            status: r.status,
            headers: r.headers + spec_cors_headers(),
            body: r.body,
        },
    }
}

/// Whether one middleware answers `req` itself, before any dispatch: CORS
/// short-circuits a preflight (`OPTIONS`) request with an empty 200
/// response, which then picks its headers up on the way out.
pub open spec fn spec_intercept(m: Middleware, req: HttpRequest) -> Option<HttpResponseView> {
    match m {
        Middleware::Cors => if req.method == HttpMethod::Options {
            Option::Some(
                HttpResponseView { status: 200, headers: Seq::empty(), body: Seq::empty() },
            )
        } else {
            Option::None
        },
    }
}

/// The whole chain's effect on a response: layer 0 is outermost, so it
/// shapes the response last.
pub open spec fn spec_transform_seq(layers: Seq<Middleware>, r: HttpResponseView)
    -> HttpResponseView
    decreases layers.len(),
{
    if layers.len() == 0 {
        r
    } else {
        spec_transform(layers[0], spec_transform_seq(layers.drop_first(), r))
    }
}

/// The first short-circuit answer any layer gives, outermost first.
pub open spec fn spec_intercept_seq(layers: Seq<Middleware>, req: HttpRequest) -> Option<
    HttpResponseView,
>
    decreases layers.len(),
{
    if layers.len() == 0 {
        Option::None
    } else {
        match spec_intercept(layers[0], req) {
            Option::Some(r) => Option::Some(r),
            Option::None => spec_intercept_seq(layers.drop_first(), req),
        }
    }
}

/// Whether the chain carries a CORS layer.
pub open spec fn spec_has_cors(layers: Seq<Middleware>) -> bool {
    exists|i: int| 0 <= i < layers.len() && layers[i] == Middleware::Cors
}

/// A chain with at least one layer injects the CORS headers into whatever
/// response passes through it, since every layer kind this library ships
/// appends them.
pub proof fn lemma_chain_injects_cors(layers: Seq<Middleware>, r: HttpResponseView)
    requires
        spec_has_cors(layers),
    ensures
        spec_has_header(
            spec_transform_seq(layers, r).headers,
            "Access-Control-Allow-Origin"@,
            "*"@,
        ),
{
    let inner = spec_transform_seq(layers.drop_first(), r);
    let out = spec_transform_seq(layers, r);
    assert(out == spec_transform(layers[0], inner));
    let w = inner.headers.len() as int;
    assert(out.headers[w] == ("Access-Control-Allow-Origin"@, "*"@));
}

impl Middleware {
    /// Apply this layer's response shaping to `resp`.
    pub fn transform(&self, resp: &mut HttpResponse)
        ensures
            final(resp)@ == spec_transform(*self, old(resp)@),
    {
        match self {
            Middleware::Cors => {
                resp.headers.push(
                    Header {
                        name: String::from_str("Access-Control-Allow-Origin"),
                        value: String::from_str("*"),
                    },
                );
                resp.headers.push(
                    Header {
                        name: String::from_str("Access-Control-Allow-Methods"),
                        value: String::from_str("POST"),
                    },
                );
                resp.headers.push(
                    Header {
                        name: String::from_str("Access-Control-Allow-Headers"),
                        value: String::from_str("content-type"),
                    },
                );
                proof {
                    assert(resp@ =~= spec_transform(*self, old(resp)@));
                }
            },
        }
    }

    /// This layer's short-circuit answer for `req`, if it gives one.
    pub fn intercept(&self, req: &HttpRequest) -> (r: Option<HttpResponse>)
        ensures
            match spec_intercept(*self, *req) {
                Option::Some(v) => r matches Some(resp) && resp@ == v,
                Option::None => r is None,
            },
    {
        match self {
            Middleware::Cors => if req.method == HttpMethod::Options {
                let resp = HttpResponse { status: 200, headers: Vec::new(), body: String::new() };
                proof {
                    assert(resp@ =~= (HttpResponseView {
                        status: 200,
                        headers: Seq::empty(),
                        body: Seq::empty(),
                    }));
                }
                Some(resp)
            } else {
                None
            },
        }
    }
}

/// The ordered middleware chain: outer layers wrap inner ones, so layer 0
/// is asked first on the way in and shapes the response last on the way
/// out.
pub struct MiddlewareChain {
    pub layers: Vec<Middleware>,
}

impl MiddlewareChain {
    /// The chain the original service runs: a single CORS layer.
    pub fn cors_only() -> (r: MiddlewareChain)
        ensures
            r.layers@ =~= seq![Middleware::Cors],
    {
        let mut layers: Vec<Middleware> = Vec::new();
        layers.push(Middleware::Cors);
        MiddlewareChain { layers }
    }

    /// Pass `resp` outward through every layer, innermost first.
    #[verifier::loop_isolation(false)]
    pub fn transform(&self, resp: &mut HttpResponse)
        ensures
            final(resp)@ == spec_transform_seq(self.layers@, old(resp)@),
    {
        let n = self.layers.len();
        let mut i: usize = n;
        while i > 0
            invariant
                i <= n,
                n == self.layers@.len(),
                resp@ == spec_transform_seq(self.layers@.subrange(i as int, n as int), old(resp)@),
            decreases i,
        {
            i = i - 1;
            let ghost before = resp@;
            self.layers[i].transform(resp);
            proof {
                let tail = self.layers@.subrange(i as int, n as int);
                assert(tail.drop_first() =~= self.layers@.subrange(i + 1, n as int));
                assert(resp@ == spec_transform_seq(tail, old(resp)@));
            }
        }
        proof {
            assert(self.layers@.subrange(0, n as int) =~= self.layers@);
        }
    }

    /// Ask each layer, outermost first, whether it answers `req` itself.
    #[verifier::loop_isolation(false)]
    pub fn intercept(&self, req: &HttpRequest) -> (r: Option<HttpResponse>)
        ensures
            match spec_intercept_seq(self.layers@, *req) {
                Option::Some(v) => r matches Some(resp) && resp@ == v,
                Option::None => r is None,
            },
    {
        let n = self.layers.len();
        proof {
            assert(self.layers@.subrange(0, n as int) =~= self.layers@);
        }
        let mut i: usize = 0;
        while i < n
            invariant
                i <= n,
                n == self.layers@.len(),
                spec_intercept_seq(self.layers@, *req) == spec_intercept_seq(
                    self.layers@.subrange(i as int, n as int),
                    *req,
                ),
            decreases n - i,
        {
            proof {
                let tail = self.layers@.subrange(i as int, n as int);
                assert(tail.drop_first() =~= self.layers@.subrange(i + 1, n as int));
            }
            let answer = self.layers[i].intercept(req);
            if answer.is_some() {
                return answer;
            }
            i = i + 1;
        }
        None
    }
}

} // verus!
