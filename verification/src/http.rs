//! HTTP for wasm components: the request and response values that cross the
//! component boundary, the table in which the host keeps the HTTP clients
//! it lends to guests, and how the host reads a response body.
use vstd::prelude::*;
use std::collections::HashMap;
use std::collections::hash_map::Entry;
use crate::text::same_text;

verus! {

/// Why a guest client could not be reached.
#[derive(Debug)]
pub enum ClientMakeError {
    /// No client is registered under the guest's resource id.
    NotFound,
}

/// The HTTP clients that the host lends to guests, by resource id.
#[derive(Debug)]
pub struct HostClientResource<C> {
    clients: HashMap<u32, C>,
}

impl<C> View for HostClientResource<C> {
    type V = Map<u32, C>;

    closed spec fn view(&self) -> Map<u32, C> {
        self.clients@
    }
}

impl<C> HostClientResource<C> {
    /// A table without clients.
    pub fn new() -> (r: HostClientResource<C>)
        ensures
            r@ == Map::<u32, C>::empty(),
    {
        HostClientResource { clients: HashMap::new() }
    }

    /// Registers `client` under the resource id `id` that the id provider
    /// handed out, replacing any client registered under it before, and
    /// returns the id as the guest's handle.
    pub fn add_client(&mut self, id: u32, client: C) -> (handle: u32)
        ensures
            handle == id,
            final(self)@ == old(self)@.insert(id, client),
    {
        broadcast use vstd::std_specs::hash::group_hash_axioms;

        let _ = self.clients.insert(id, client);
        id
    }

    /// The client registered under `id`, to send a guest's request with.
    pub fn client_for(&mut self, id: u32) -> (r: Result<&mut C, ClientMakeError>)
        ensures
            r is Ok <==> old(self)@.contains_key(id),
            r is Err ==> (r matches Err(ClientMakeError::NotFound) && final(self)@ == old(self)@),
            r matches Ok(c) ==> *c == old(self)@[id],
            r matches Ok(c) ==> final(self)@ == old(self)@.insert(id, *final(c)),
    {
        broadcast use vstd::std_specs::hash::group_hash_axioms;

        match self.clients.entry(id) {
            Entry::Occupied(o) => Ok(o.into_mut()),
            Entry::Vacant(_) => Err(ClientMakeError::NotFound),
        }
    }

    /// Forgets the client registered under `id`, when the guest drops its
    /// handle.
    pub fn drop_client(&mut self, id: u32)
        ensures
            final(self)@ == old(self)@.remove(id),
    {
        broadcast use vstd::std_specs::hash::group_hash_axioms;

        let _ = self.clients.remove(&id);
    }
}

/// Why an id provider could not hand out a resource id.
#[derive(Debug)]
pub enum IdProductionError {
    NotReady,
    Unknown,
}

/// Why a host client could not answer a guest's request.
#[derive(Debug)]
pub enum HttpClientError {
    NotReady,
    Unknown,
    ClientError { cause: String },
    /// The guest's request cannot be sent.
    BadRequest,
}

/// The method of an HTTP request.
#[derive(Debug)]
pub enum Method {
    Get,
    Head,
    Post,
    Put,
    Delete,
    Connect,
    Options,
    Trace,
    Patch,
    /// Any other method, by its name.
    Other(String),
}

impl Method {
    /// The name of the method on the wire.
    pub open spec fn token(&self) -> Seq<char> {
        match self {
            Method::Get => "GET"@,
            Method::Head => "HEAD"@,
            Method::Post => "POST"@,
            Method::Put => "PUT"@,
            Method::Delete => "DELETE"@,
            Method::Connect => "CONNECT"@,
            Method::Options => "OPTIONS"@,
            Method::Trace => "TRACE"@,
            Method::Patch => "PATCH"@,
            Method::Other(name) => name@,
        }
    }
}

/// Whether `name` is the name of one of the standard methods.
pub open spec fn is_standard_method(name: Seq<char>) -> bool {
    name == "GET"@ || name == "HEAD"@ || name == "POST"@ || name == "PUT"@ || name == "DELETE"@
        || name == "CONNECT"@ || name == "OPTIONS"@ || name == "TRACE"@ || name == "PATCH"@
}

/// An HTTP request as it crosses the component boundary.
#[derive(Debug)]
pub struct HttpRequest {
    pub method: Method,
    pub headers: Vec<(String, String)>,
    pub body: Vec<u8>,
    pub uri: String,
}

/// An HTTP response as it crosses the component boundary.
#[derive(Debug)]
pub struct HttpResponse {
    pub status: u16,
    pub headers: Vec<(String, String)>,
    pub body: Vec<u8>,
}

proof fn lemma_method_names_distinct()
    ensures
        "GET"@ != "HEAD"@,
        "GET"@ != "POST"@,
        "GET"@ != "PUT"@,
        "GET"@ != "DELETE"@,
        "GET"@ != "CONNECT"@,
        "GET"@ != "OPTIONS"@,
        "GET"@ != "TRACE"@,
        "GET"@ != "PATCH"@,
        "HEAD"@ != "POST"@,
        "HEAD"@ != "PUT"@,
        "HEAD"@ != "DELETE"@,
        "HEAD"@ != "CONNECT"@,
        "HEAD"@ != "OPTIONS"@,
        "HEAD"@ != "TRACE"@,
        "HEAD"@ != "PATCH"@,
        "POST"@ != "PUT"@,
        "POST"@ != "DELETE"@,
        "POST"@ != "CONNECT"@,
        "POST"@ != "OPTIONS"@,
        "POST"@ != "TRACE"@,
        "POST"@ != "PATCH"@,
        "PUT"@ != "DELETE"@,
        "PUT"@ != "CONNECT"@,
        "PUT"@ != "OPTIONS"@,
        "PUT"@ != "TRACE"@,
        "PUT"@ != "PATCH"@,
        "DELETE"@ != "CONNECT"@,
        "DELETE"@ != "OPTIONS"@,
        "DELETE"@ != "TRACE"@,
        "DELETE"@ != "PATCH"@,
        "CONNECT"@ != "OPTIONS"@,
        "CONNECT"@ != "TRACE"@,
        "CONNECT"@ != "PATCH"@,
        "OPTIONS"@ != "TRACE"@,
        "OPTIONS"@ != "PATCH"@,
        "TRACE"@ != "PATCH"@,
{
    reveal_strlit("GET");
    reveal_strlit("HEAD");
    reveal_strlit("POST");
    reveal_strlit("PUT");
    reveal_strlit("DELETE");
    reveal_strlit("CONNECT");
    reveal_strlit("OPTIONS");
    reveal_strlit("TRACE");
    reveal_strlit("PATCH");
    assert("GET"@[0] != "HEAD"@[0]);
    assert("GET"@[0] != "POST"@[0]);
    assert("GET"@[0] != "PUT"@[0]);
    assert("GET"@[0] != "DELETE"@[0]);
    assert("GET"@[0] != "CONNECT"@[0]);
    assert("GET"@[0] != "OPTIONS"@[0]);
    assert("GET"@[0] != "TRACE"@[0]);
    assert("GET"@[0] != "PATCH"@[0]);
    assert("HEAD"@[0] != "POST"@[0]);
    assert("HEAD"@[0] != "PUT"@[0]);
    assert("HEAD"@[0] != "DELETE"@[0]);
    assert("HEAD"@[0] != "CONNECT"@[0]);
    assert("HEAD"@[0] != "OPTIONS"@[0]);
    assert("HEAD"@[0] != "TRACE"@[0]);
    assert("HEAD"@[0] != "PATCH"@[0]);
    assert("POST"@.len() != "PUT"@.len());
    assert("POST"@[0] != "DELETE"@[0]);
    assert("POST"@[0] != "CONNECT"@[0]);
    assert("POST"@[0] != "OPTIONS"@[0]);
    assert("POST"@[0] != "TRACE"@[0]);
    assert("POST"@[1] != "PATCH"@[1]);
    assert("PUT"@[0] != "DELETE"@[0]);
    assert("PUT"@[0] != "CONNECT"@[0]);
    assert("PUT"@[0] != "OPTIONS"@[0]);
    assert("PUT"@[0] != "TRACE"@[0]);
    assert("PUT"@.len() != "PATCH"@.len());
    assert("DELETE"@[0] != "CONNECT"@[0]);
    assert("DELETE"@[0] != "OPTIONS"@[0]);
    assert("DELETE"@[0] != "TRACE"@[0]);
    assert("DELETE"@[0] != "PATCH"@[0]);
    assert("CONNECT"@[0] != "OPTIONS"@[0]);
    assert("CONNECT"@[0] != "TRACE"@[0]);
    assert("CONNECT"@[0] != "PATCH"@[0]);
    assert("OPTIONS"@[0] != "TRACE"@[0]);
    assert("OPTIONS"@[0] != "PATCH"@[0]);
    assert("TRACE"@[0] != "PATCH"@[0]);
}

/// The method with the name `name`: one of the standard methods, or
/// `Other` with the name as it is.
pub fn method_from_name(name: &str) -> (r: Method)
    ensures
        r.token() == name@,
        r is Other <==> !is_standard_method(name@),
{
    proof {
        lemma_method_names_distinct();
    }
    if same_text(name, "OPTIONS") {
        Method::Options
    } else if same_text(name, "GET") {
        Method::Get
    } else if same_text(name, "POST") {
        Method::Post
    } else if same_text(name, "PUT") {
        Method::Put
    } else if same_text(name, "DELETE") {
        Method::Delete
    } else if same_text(name, "HEAD") {
        Method::Head
    } else if same_text(name, "TRACE") {
        Method::Trace
    } else if same_text(name, "CONNECT") {
        Method::Connect
    } else if same_text(name, "PATCH") {
        Method::Patch
    } else {
        Method::Other(name.to_string())
    }
}

/// The name of the method of a guest's request, for the host client to send
/// it with; a method other than the standard ones cannot be sent.
pub fn get_method(req: &HttpRequest) -> (r: Result<String, HttpClientError>)
    ensures
        req.method is Other ==> r matches Err(HttpClientError::BadRequest),
        !(req.method is Other) ==> (r matches Ok(t) && t@ == req.method.token()),
{
    match &req.method {
        Method::Get => Ok(String::from_str("GET")),
        Method::Head => Ok(String::from_str("HEAD")),
        Method::Post => Ok(String::from_str("POST")),
        Method::Put => Ok(String::from_str("PUT")),
        Method::Delete => Ok(String::from_str("DELETE")),
        Method::Connect => Ok(String::from_str("CONNECT")),
        Method::Options => Ok(String::from_str("OPTIONS")),
        Method::Trace => Ok(String::from_str("TRACE")),
        Method::Patch => Ok(String::from_str("PATCH")),
        Method::Other(_) => Err(HttpClientError::BadRequest),
    }
}

/// Naming a standard method and reading the name back gives the same
/// method: the names of the standard methods tell them apart, and name no
/// other method.
pub proof fn lemma_method_name_round_trip(m: Method, r: Method)
    requires
        !(m is Other),
        r.token() == m.token(),
        r is Other <==> !is_standard_method(m.token()),
    ensures
        r == m,
{
    lemma_method_names_distinct();
}

/// The most response-body bytes that the host reads for a guest.
pub const RESPONSE_LIMIT: usize = 5 * 1024 * 1024;

/// A response body grew past the limit: the amount it reached, and the
/// limit.
#[derive(Debug)]
pub struct BodyTooLarge {
    pub amount: usize,
    pub limit: usize,
}

/// Collects the chunks of a response body, refusing a body that grows past
/// [`RESPONSE_LIMIT`] bytes.
#[derive(Debug)]
pub struct BodyReader {
    out: Vec<u8>,
    size: usize,
}

impl View for BodyReader {
    type V = Seq<u8>;

    closed spec fn view(&self) -> Seq<u8> {
        self.out@
    }
}

impl BodyReader {
    /// The collected bytes stay within the limit.
    pub closed spec fn wf(&self) -> bool {
        &&& self.size == self.out@.len()
        &&& self.size <= RESPONSE_LIMIT
    }

    /// A reader that has collected nothing.
    pub fn new() -> (r: BodyReader)
        ensures
            r.wf(),
            r@ == Seq::<u8>::empty(),
    {
        BodyReader { out: Vec::new(), size: 0 }
    }

    /// Adds the next chunk of the body, unless the body would then exceed
    /// the limit.
    pub fn push_chunk(&mut self, chunk: &[u8]) -> (r: Result<(), BodyTooLarge>)
        requires
            old(self).wf(),
            chunk@.len() <= isize::MAX,
        ensures
            final(self).wf(),
            old(self)@.len() + chunk@.len() <= RESPONSE_LIMIT ==> (r is Ok && final(self)@
                == old(self)@ + chunk@),
            old(self)@.len() + chunk@.len() > RESPONSE_LIMIT ==> (r matches Err(
                BodyTooLarge { amount, limit },
            ) && amount == old(self)@.len() + chunk@.len() && limit == RESPONSE_LIMIT
                && final(self)@ == old(self)@),
    {
        let size = self.size + chunk.len();
        if size > RESPONSE_LIMIT {
            return Err(BodyTooLarge { amount: size, limit: RESPONSE_LIMIT });
        }
        self.out.extend_from_slice(chunk);
        self.size = size;
        Ok(())
    }

    /// The collected body.
    pub fn into_body(self) -> (r: Vec<u8>)
        ensures
            r@ == self@,
    {
        self.out
    }
}

/// The text that stands for a header value that is not visible ASCII.
pub open spec fn unsupported_header_text() -> Seq<char> {
    "not supported"@
}

/// The request that the development server hands to a function component,
/// from the parts of an incoming request: the method by its name, each
/// header value as text (`None` where it is not visible ASCII), the body
/// (`None` where it could not be read) and the uri.
pub fn request_from_parts(
    method_name: &str,
    headers: Vec<(String, Option<String>)>,
    body: Option<Vec<u8>>,
    uri: String,
) -> (r: HttpRequest)
    ensures
        r.method.token() == method_name@,
        r.method is Other <==> !is_standard_method(method_name@),
        r.headers@.len() == headers@.len(),
        forall|i: int|
            0 <= i < headers@.len() ==> {
                &&& (#[trigger] r.headers@[i]).0@ == headers@[i].0@
                &&& r.headers@[i].1@ == match headers@[i].1 {
                    Some(v) => v@,
                    None => unsupported_header_text(),
                }
            },
        r.body@ == match body {
            Some(b) => b@,
            None => Seq::<u8>::empty(),
        },
        r.uri@ == uri@,
{
    let method = method_from_name(method_name);
    let mut out: Vec<(String, String)> = Vec::new();
    let mut i: usize = 0;
    while i < headers.len()
        invariant
            i <= headers@.len(),
            out@.len() == i,
            forall|k: int|
                0 <= k < i ==> {
                    &&& (#[trigger] out@[k]).0@ == headers@[k].0@
                    &&& out@[k].1@ == match headers@[k].1 {
                        Some(v) => v@,
                        None => unsupported_header_text(),
                    }
                },
        decreases headers@.len() - i,
    {
        let name = headers[i].0.clone();
        let value = match &headers[i].1 {
            Some(v) => v.clone(),
            None => String::from_str("not supported"),
        };
        out.push((name, value));
        i = i + 1;
    }
    let body = match body {
        Some(b) => b,
        None => Vec::new(),
    };
    HttpRequest { method, headers: out, body, uri }
}

/// The bytes of the text `Hello World!`.
pub open spec fn hello_world_bytes() -> Seq<u8> {
    seq![72u8, 101u8, 108u8, 108u8, 111u8, 32u8, 87u8, 111u8, 114u8, 108u8, 100u8, 33u8]
}

/// The example function component.
#[derive(Debug)]
pub struct TestFunction;

impl TestFunction {
    /// Answers a request with status 200 and no headers, echoing the
    /// request's body, or `Hello World!` when the body is empty.
    pub fn handle_request(req: HttpRequest) -> (r: HttpResponse)
        ensures
            r.status == 200,
            r.headers@.len() == 0,
            req.body@.len() > 0 ==> r.body@ == req.body@,
            req.body@.len() == 0 ==> r.body@ == hello_world_bytes(),
    {
        let body = if req.body.len() > 0 {
            req.body
        } else {
            let mut b: Vec<u8> = Vec::new();
            b.push(72);
            b.push(101);
            b.push(108);
            b.push(108);
            b.push(111);
            b.push(32);
            b.push(87);
            b.push(111);
            b.push(114);
            b.push(108);
            b.push(100);
            b.push(33);
            assert(b@ =~= hello_world_bytes());
            b
        };
        HttpResponse { status: 200, headers: Vec::new(), body }
    }

    /// What the example function does with a request: the request it sends
    /// first (the probe, whose answer it ignores) and the response it then
    /// gives, which depends on the request's body alone.
    pub fn respond(req: HttpRequest) -> (r: (HttpRequest, HttpResponse))
        ensures
            r.0.method is Get,
            r.0.headers@.len() == 0,
            r.0.body@.len() == 0,
            r.0.uri@ == "https://google.com"@,
            r.1.status == 200,
            r.1.headers@.len() == 0,
            req.body@.len() > 0 ==> r.1.body@ == req.body@,
            req.body@.len() == 0 ==> r.1.body@ == hello_world_bytes(),
    {
        let probe = Self::probe_request();
        let response = Self::handle_request(req);
        (probe, response)
    }

    /// The outgoing request that the example function sends before it
    /// answers: a `GET` of `https://google.com` without headers or body.
    pub fn probe_request() -> (r: HttpRequest)
        ensures
            r.method is Get,
            r.headers@.len() == 0,
            r.body@.len() == 0,
            r.uri@ == "https://google.com"@,
    {
        HttpRequest {
            method: Method::Get,
            headers: Vec::new(),
            body: Vec::new(),
            uri: String::from_str("https://google.com"),
        }
    }
}

/// A guest's HTTP client: the client resource that the host lent to the
/// guest.
#[derive(Debug)]
pub struct HttpClient<C> {
    inner: C,
}

impl<C> HttpClient<C> {
    /// The client resource.
    pub closed spec fn resource(&self) -> C {
        self.inner
    }

    /// The client resource, to send a request with.
    pub fn client(&mut self) -> (r: &mut C)
        ensures
            *r == old(self).resource(),
            final(self).resource() == *final(r),
    {
        &mut self.inner
    }
}

/// Wraps the client resource that the host lent to the guest.
pub fn new_http_client<C>(inner: C) -> (r: HttpClient<C>)
    ensures
        r.resource() == inner,
{
    HttpClient { inner }
}

/// The options of the development server.
#[derive(Debug)]
pub struct Args {
    /// The function component to serve first.
    pub function_component: Option<String>,
    /// The port of the rpc server.
    pub rpc_port: Option<u16>,
    /// The port of the http server.
    pub http_port: Option<u16>,
}

/// An IPv4 socket address.
#[derive(Debug)]
pub struct SocketAddress {
    pub ip: [u8; 4],
    pub port: u16,
}

/// The port of the rpc server when none is given.
pub const DEFAULT_RPC_PORT: u16 = 50051;

/// The port of the http server when none is given.
pub const DEFAULT_HTTP_PORT: u16 = 3001;

impl Args {
    /// The loopback address with the rpc port (by default 50051).
    pub fn rpc_address(&self) -> (r: SocketAddress)
        ensures
            r.ip@ == seq![127u8, 0u8, 0u8, 1u8],
            r.port == match self.rpc_port {
                Some(p) => p,
                None => DEFAULT_RPC_PORT,
            },
    {
        let port = match self.rpc_port {
            Some(p) => p,
            None => DEFAULT_RPC_PORT,
        };
        let r = SocketAddress { ip: [127, 0, 0, 1], port };
        assert(r.ip@ =~= seq![127u8, 0u8, 0u8, 1u8]);
        r
    }

    /// The loopback address with the http port (by default 3001).
    pub fn http_address(&self) -> (r: SocketAddress)
        ensures
            r.ip@ == seq![127u8, 0u8, 0u8, 1u8],
            r.port == match self.http_port {
                Some(p) => p,
                None => DEFAULT_HTTP_PORT,
            },
    {
        let port = match self.http_port {
            Some(p) => p,
            None => DEFAULT_HTTP_PORT,
        };
        let r = SocketAddress { ip: [127, 0, 0, 1], port };
        assert(r.ip@ =~= seq![127u8, 0u8, 0u8, 1u8]);
        r
    }
}

/// The response that the host hands back to a guest, from the parts of the
/// response it received: the status, each header by its name (`None` for a
/// header that repeats the previous name, which becomes an empty name) and
/// value, and the body.
pub fn client_response(status: u16, headers: Vec<(Option<String>, String)>, body: Vec<u8>) -> (r:
    HttpResponse)
    ensures
        r.status == status,
        r.body@ == body@,
        r.headers@.len() == headers@.len(),
        forall|i: int|
            0 <= i < headers@.len() ==> {
                &&& (#[trigger] r.headers@[i]).0@ == match headers@[i].0 {
                    Some(n) => n@,
                    None => Seq::<char>::empty(),
                }
                &&& r.headers@[i].1@ == headers@[i].1@
            },
{
    let mut out: Vec<(String, String)> = Vec::new();
    let mut i: usize = 0;
    while i < headers.len()
        invariant
            i <= headers@.len(),
            out@.len() == i,
            forall|k: int|
                0 <= k < i ==> {
                    &&& (#[trigger] out@[k]).0@ == match headers@[k].0 {
                        Some(n) => n@,
                        None => Seq::<char>::empty(),
                    }
                    &&& out@[k].1@ == headers@[k].1@
                },
        decreases headers@.len() - i,
    {
        let name = match &headers[i].0 {
            Some(n) => n.clone(),
            None => String::new(),
        };
        out.push((name, headers[i].1.clone()));
        i = i + 1;
    }
    HttpResponse { status, headers: out, body }
}

} // verus!
