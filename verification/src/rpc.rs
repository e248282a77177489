//! The JSON-RPC core: request and response shapes, the method registry, and
//! the dispatcher that turns one structured invocation into one structured
//! response. Transport and JSON text are handled elsewhere; everything here
//! is on structured values.

use vstd::prelude::*;

verus! {

/// Standard code: the request body was not a well-formed invocation.
pub const PARSE_ERROR_CODE: i64 = -32700;

/// Standard code: the named method is not registered.
pub const METHOD_NOT_FOUND_CODE: i64 = -32601;

/// Standard code: the handler rejected the parameters.
pub const INVALID_PARAMS_CODE: i64 = -32602;

/// The identifier a caller attaches to an invocation, echoed back unchanged
/// in the response: a number, a string, or null.
pub enum RequestId {
    Num(u64),
    Text(String),
    Null,
}

/// The mathematical shape of a [`RequestId`].
pub enum RequestIdView {
    Num(u64),
    Text(Seq<char>),
    Null,
}

impl View for RequestId {
    type V = RequestIdView;

    open spec fn view(&self) -> RequestIdView {
        match self {
            RequestId::Num(n) => RequestIdView::Num(*n),
            RequestId::Text(s) => RequestIdView::Text(s@),
            RequestId::Null => RequestIdView::Null,
        }
    }
}

impl RequestId {
    pub fn clone_id(&self) -> (r: RequestId)
        ensures
            r@ == self@,
    {
        match self {
            RequestId::Num(n) => RequestId::Num(*n),
            RequestId::Text(s) => RequestId::Text(s.clone()),
            RequestId::Null => RequestId::Null,
        }
    }
}

/// One structured remote-procedure invocation: the method name, the raw text
/// of the parameters (if any), and the caller's request identifier.
pub struct RpcRequest {
    pub method: String,
    pub params: Option<String>,
    pub id: RequestId,
}

/// The mathematical shape of an [`RpcRequest`].
pub struct RpcRequestView {
    pub method: Seq<char>,
    pub params: Option<Seq<char>>,
    pub id: RequestIdView,
}

impl View for RpcRequest {
    type V = RpcRequestView;

    open spec fn view(&self) -> RpcRequestView {
        RpcRequestView {
            method: self.method@,
            params: match self.params {
                Option::Some(p) => Option::Some(p@),
                Option::None => Option::None,
            },
            id: self.id@,
        }
    }
}

/// One structured response: the handler's result, or a coded error, with the
/// caller's request identifier echoed back.
pub enum RpcResponse {
    Success { result: String, id: RequestId },
    Failure { code: i64, message: String, id: RequestId },
}

/// The mathematical shape of an [`RpcResponse`].
pub enum RpcResponseView {
    Success { result: Seq<char>, id: RequestIdView },
    Failure { code: i64, message: Seq<char>, id: RequestIdView },
}

impl View for RpcResponse {
    type V = RpcResponseView;

    open spec fn view(&self) -> RpcResponseView {
        match self {
            RpcResponse::Success { result, id } => RpcResponseView::Success {
                result: result@,
                id: id@,
            },
            RpcResponse::Failure { code, message, id } => RpcResponseView::Failure {
                code: *code,
                message: message@,
                id: id@,
            },
        }
    }
}

/// The handlers this library ships. A handler maps the raw parameter text to
/// a result, or rejects the parameters with a message.
#[derive(Clone, Copy, PartialEq, Eq, Structural)]
pub enum Handler {
    /// Ignores its parameters and greets.
    SayHello,
}

/// What each handler returns for given parameters.
pub open spec fn spec_invoke(h: Handler, params: Option<Seq<char>>) -> Result<Seq<char>, Seq<char>> {
    match h {
        Handler::SayHello => Result::Ok("Hello there!!"@),
    }
}

/// The greeting returned by the `say_hello` method.
pub fn say_hello() -> (r: String)
    ensures
        r@ == "Hello there!!"@,
{
    String::from_str("Hello there!!")
}

/// Run `h` on the raw parameter text.
pub fn invoke(h: &Handler, params: &Option<String>) -> (r: Result<String, String>)
    ensures
        match spec_invoke(*h, match params {
            Option::Some(p) => Option::Some(p@),
            Option::None => Option::None::<Seq<char>>,
        }) {
            Result::Ok(out) => r matches Ok(s) && s@ == out,
            Result::Err(msg) => r matches Err(s) && s@ == msg,
        },
{
    match h {
        Handler::SayHello => Ok(say_hello()),
    }
}

/// One registration: a method name bound to a handler.
pub struct MethodEntry {
    pub name: String,
    pub handler: Handler,
}

/// The handler the registry holds for `name`: the first entry whose name
/// matches, if any.
pub open spec fn spec_lookup(entries: Seq<MethodEntry>, name: Seq<char>) -> Option<Handler>
    decreases entries.len(),
{
    if entries.len() == 0 {
        Option::None
    } else if entries[0].name@ == name {
        Option::Some(entries[0].handler)
    } else {
        spec_lookup(entries.drop_first(), name)
    }
}

proof fn lemma_lookup_first_match(entries: Seq<MethodEntry>, name: Seq<char>, idx: int)
    requires
        0 <= idx < entries.len(),
        entries[idx].name@ == name,
        forall|j: int| 0 <= j < idx ==> entries[j].name@ != name,
    ensures
        spec_lookup(entries, name) == Option::Some(entries[idx].handler),
    decreases idx,
{
    if idx > 0 {
        lemma_lookup_first_match(entries.drop_first(), name, idx - 1);
    }
}

proof fn lemma_lookup_no_match(entries: Seq<MethodEntry>, name: Seq<char>)
    requires
        forall|j: int| 0 <= j < entries.len() ==> entries[j].name@ != name,
    ensures
        spec_lookup(entries, name) is None,
    decreases entries.len(),
{
    if entries.len() > 0 {
        lemma_lookup_no_match(entries.drop_first(), name);
    }
}

proof fn lemma_lookup_update(entries: Seq<MethodEntry>, idx: int, e: MethodEntry, name: Seq<char>)
    requires
        0 <= idx < entries.len(),
        entries[idx].name@ == e.name@,
        forall|j: int| 0 <= j < idx ==> entries[j].name@ != e.name@,
    ensures
        spec_lookup(entries.update(idx, e), name) == if name == e.name@ {
            Option::Some(e.handler)
        } else {
            spec_lookup(entries, name)
        },
    decreases idx,
{
    let updated = entries.update(idx, e);
    if idx == 0 {
        assert(updated.drop_first() =~= entries.drop_first());
    } else {
        assert(updated.drop_first() =~= entries.drop_first().update(idx - 1, e));
        lemma_lookup_update(entries.drop_first(), idx - 1, e, name);
    }
}

proof fn lemma_lookup_push(entries: Seq<MethodEntry>, e: MethodEntry, name: Seq<char>)
    requires
        forall|j: int| 0 <= j < entries.len() ==> entries[j].name@ != e.name@,
    ensures
        spec_lookup(entries.push(e), name) == if name == e.name@ {
            Option::Some(e.handler)
        } else {
            spec_lookup(entries, name)
        },
    decreases entries.len(),
{
    let pushed = entries.push(e);
    if entries.len() == 0 {
        assert(pushed.drop_first() =~= Seq::<MethodEntry>::empty());
    } else {
        assert(pushed.drop_first() =~= entries.drop_first().push(e));
        lemma_lookup_push(entries.drop_first(), e, name);
    }
}

/// Registering an empty method name is malformed.
pub enum RegisterError {
    EmptyName,
}

/// The mapping from method name to handler, populated before the server
/// starts and read-only afterwards. Names are unique; registering a name
/// again overwrites its handler (the documented duplicate policy).
pub struct MethodRegistry {
    pub entries: Vec<MethodEntry>,
}

impl MethodRegistry {
    /// Names are pairwise distinct.
    pub open spec fn well_formed(self) -> bool {
        forall|i: int, j: int|
            0 <= i < j < self.entries@.len() ==> (#[trigger] self.entries@[i].name@)
                != (#[trigger] self.entries@[j].name@)
    }

    /// The handler registered for `name`, if any.
    pub open spec fn spec_handler_for(self, name: Seq<char>) -> Option<Handler> {
        spec_lookup(self.entries@, name)
    }

    pub fn new() -> (r: MethodRegistry)
        ensures
            r.well_formed(),
            forall|name: Seq<char>| #[trigger] r.spec_handler_for(name) is None,
    {
        let r = MethodRegistry { entries: Vec::new() };
        proof {
            assert forall|name: Seq<char>| #[trigger] r.spec_handler_for(name) is None by {
                lemma_lookup_no_match(r.entries@, name);
            }
        }
        r
    }

    /// Bind `name` to `handler`. An empty name is malformed and changes
    /// nothing; otherwise the binding for `name` is created or overwritten
    /// and every other binding is untouched.
    #[verifier::loop_isolation(false)]
    pub fn register_method(&mut self, name: String, handler: Handler) -> (r: Result<
        (),
        RegisterError,
    >)
        requires
            old(self).well_formed(),
        ensures
            final(self).well_formed(),
            name@.len() == 0 ==> (r matches Err(RegisterError::EmptyName) && *final(self) == *old(
                self,
            )),
            name@.len() > 0 ==> {
                &&& r is Ok
                &&& final(self).spec_handler_for(name@) == Option::Some(handler)
                &&& forall|other: Seq<char>|
                    other != name@ ==> #[trigger] final(self).spec_handler_for(other) == old(
                        self,
                    ).spec_handler_for(other)
            },
    {
        if name.as_str().unicode_len() == 0 {
            return Err(RegisterError::EmptyName);
        }
        let n = self.entries.len();
        let mut i: usize = 0;
        while i < n
            invariant
                i <= n,
                n == self.entries@.len(),
                *self == *old(self),
                forall|j: int| 0 <= j < i ==> (#[trigger] self.entries@[j].name@) != name@,
            decreases n - i,
        {
            if self.entries[i].name == name {
                let ghost idx = i as int;
                let ghost before = self.entries@;
                let entry = MethodEntry { name, handler };
                self.entries.set(i, entry);
                proof {
                    assert forall|other: Seq<char>| #[trigger]
                        spec_lookup(self.entries@, other) == if other == name@ {
                            Option::Some(handler)
                        } else {
                            spec_lookup(before, other)
                        } by {
                        lemma_lookup_update(before, idx, entry, other);
                    }
                    assert forall|a: int, b: int|
                        0 <= a < b < self.entries@.len() implies (
                    #[trigger] self.entries@[a].name@) != (#[trigger] self.entries@[b].name@) by {
                        assert(before[a].name@ == self.entries@[a].name@);
                        assert(before[b].name@ == self.entries@[b].name@);
                    }
                }
                return Ok(());
            }
            i = i + 1;
        }
        let ghost before = self.entries@;
        let entry = MethodEntry { name, handler };
        self.entries.push(entry);
        proof {
            assert forall|other: Seq<char>| #[trigger]
                spec_lookup(self.entries@, other) == if other == name@ {
                    Option::Some(handler)
                } else {
                    spec_lookup(before, other)
                } by {
                lemma_lookup_push(before, entry, other);
            }
        }
        Ok(())
    }

    /// Dispatch one invocation: look the method up, run its handler, and
    /// shape the response. The caller's request identifier is echoed back in
    /// every case; an unknown method yields the standard coded error.
    pub fn dispatch(&self, req: &RpcRequest) -> (r: RpcResponse)
        ensures
            r@ == spec_dispatch(self.entries@, req@),
    {
        let n = self.entries.len();
        let mut i: usize = 0;
        while i < n
            invariant
                i <= n,
                n == self.entries@.len(),
                forall|j: int| 0 <= j < i ==> (#[trigger] self.entries@[j].name@) != req.method@,
            decreases n - i,
        {
            if self.entries[i].name == req.method {
                proof {
                    lemma_lookup_first_match(self.entries@, req.method@, i as int);
                }
                let out = invoke(&self.entries[i].handler, &req.params);
                return match out {
                    Ok(result) => RpcResponse::Success { result, id: req.id.clone_id() },
                    Err(message) => RpcResponse::Failure {
                        code: INVALID_PARAMS_CODE,
                        message,
                        id: req.id.clone_id(),
                    },
                };
            }
            i = i + 1;
        }
        proof {
            lemma_lookup_no_match(self.entries@, req.method@);
        }
        RpcResponse::Failure {
            code: METHOD_NOT_FOUND_CODE,
            message: String::from_str("Method not found"),
            id: req.id.clone_id(),
        }
    }
}

/// The dispatcher's whole behaviour: the response for `req` against the
/// registry's entries.
pub open spec fn spec_dispatch(entries: Seq<MethodEntry>, req: RpcRequestView) -> RpcResponseView {
    match spec_lookup(entries, req.method) {
        Option::Some(h) => match spec_invoke(h, req.params) {
            Result::Ok(result) => RpcResponseView::Success { result, id: req.id },
            Result::Err(message) => RpcResponseView::Failure {
                code: INVALID_PARAMS_CODE,
                message,
                id: req.id,
            },
        },
        Option::None => RpcResponseView::Failure {
            code: METHOD_NOT_FOUND_CODE,
            message: "Method not found"@,
            id: req.id,
        },
    }
}

} // verus!
