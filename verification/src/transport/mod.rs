//! HTTP requests and what becomes of them.
//!
//! The crate does not talk to the network. What it decides is what goes out for
//! a request, what is traced of it, and what the answer of a server means; the
//! program around it sends and receives.

pub mod chunk;
pub mod error_body;
pub mod laws;

use vstd::prelude::*;

use crate::text;

verus! {

#[verifier::external_type_specification]
#[verifier::external_body]
pub struct ExClient(reqwest::Client);

#[verifier::external_type_specification]
#[verifier::external_body]
pub struct ExJsonValue(serde_json::Value);

/// The characters of a JSON value, written without white space between its
/// parts.
pub uninterp spec fn json_text(value: serde_json::Value) -> Seq<char>;

/// Wraps `to_string` of `serde_json::Value`, which writes the value as JSON. The
/// contract names what it writes and claims no more of it.
#[verifier::external_body]
fn written_json(value: &serde_json::Value) -> (written: String)
    ensures
        written@ == json_text(*value),
{
    value.to_string()
}

/// A character that the name of an HTTP method may hold: a letter, a digit, or
/// one of fifteen signs.
pub open spec fn is_method_char(c: char) -> bool {
    ||| 'a' <= c <= 'z'
    ||| 'A' <= c <= 'Z'
    ||| '0' <= c <= '9'
    ||| c == '!'
    ||| c == '#'
    ||| c == '$'
    ||| c == '%'
    ||| c == '&'
    ||| c == '\''
    ||| c == '*'
    ||| c == '+'
    ||| c == '-'
    ||| c == '.'
    ||| c == '^'
    ||| c == '_'
    ||| c == '`'
    ||| c == '|'
    ||| c == '~'
}

/// The text is the name of an HTTP method, a known one or another.
pub open spec fn is_method_name(name: Seq<char>) -> bool {
    &&& name.len() > 0
    &&& forall|i: int| 0 <= i < name.len() ==> is_method_char(#[trigger] name[i])
}

/// Wraps `http::Method::from_bytes` and `http::Method::as_str`: a name of one or
/// more method characters is a method and is written as it was read; any other
/// text is refused.
#[verifier::external_body]
fn parsed_method(name: &str) -> (method: Option<String>)
    ensures
        method is Some <==> is_method_name(name@),
        method matches Some(m) ==> m@ == name@,
{
    http::Method::from_bytes(name.as_bytes()).ok().map(|method| method.as_str().to_owned())
}

/// The body of a request.
#[derive(Debug)]
pub enum RequestBody {
    /// A JSON value that is still to be encoded.
    Json(serde_json::Value),
    /// JSON that was encoded already; these are the bytes that a trace shows.
    EncodedJson(Vec<u8>),
    /// Anything else.
    Raw(Vec<u8>),
}

/// A request as a caller describes it.
#[derive(Debug)]
pub struct Request {
    pub method: String,
    pub url: String,
    pub headers: http::HeaderMap<http::HeaderValue>,
    pub body: Option<RequestBody>,
    pub timeout: Option<std::time::Duration>,
}

/// The headers and the bytes that a request's body turned into.
#[derive(Debug)]
pub struct PreparedBody {
    pub headers: http::HeaderMap<http::HeaderValue>,
    pub body: Option<Vec<u8>>,
}

/// Everything that goes out for a request.
#[derive(Debug)]
pub struct OutgoingRequest {
    pub method: String,
    pub url: String,
    pub timeout: Option<std::time::Duration>,
    pub headers: http::HeaderMap<http::HeaderValue>,
    pub body: Option<Vec<u8>>,
}

/// A successful response that was read to its end.
#[derive(Debug)]
pub struct Response {
    pub status: u16,
    pub headers: http::HeaderMap<http::HeaderValue>,
    pub body: Vec<u8>,
}

/// A successful response whose body is still to be read from `bytes`.
pub struct StreamResponse<B> {
    pub status: u16,
    pub headers: http::HeaderMap<http::HeaderValue>,
    pub bytes: B,
}

/// Why a request brought no successful response.
#[derive(Debug)]
pub enum TransportError {
    /// The server answered, but not with success.
    Http {
        status: u16,
        url: Option<String>,
        headers: Option<http::HeaderMap<http::HeaderValue>>,
        body: Option<String>,
    },
    /// The request could not be put together.
    Build(String),
    /// No answer came in time.
    Timeout,
    /// The connection failed.
    Network(String),
}

/// The method that goes out: the one asked for, or `GET` in the place of a text
/// that names none.
pub open spec fn method_sent(name: Seq<char>) -> Seq<char> {
    if is_method_name(name) {
        name
    } else {
        "GET"@
    }
}

/// What a trace shows of a body.
pub open spec fn body_trace(body: Option<RequestBody>) -> Seq<char> {
    match body {
        Some(RequestBody::Json(value)) => json_text(value),
        Some(RequestBody::EncodedJson(bytes)) => text::utf8_lossy(bytes@),
        Some(RequestBody::Raw(bytes)) => raw_body_trace(bytes@.len()),
        None => Seq::empty(),
    }
}

/// What a trace shows in the place of a raw body of that many bytes.
pub open spec fn raw_body_trace(len: nat) -> Seq<char> {
    "<raw body: "@ + text::decimal(len) + " bytes>"@
}

/// The line that traces a request.
pub open spec fn trace_line(req: Request) -> Seq<char> {
    req.method@ + " to "@ + req.url@ + ": "@ + body_trace(req.body)
}

/// Whatever method a request names, what goes out is the name of a method.
pub proof fn a_method_is_always_sent(name: Seq<char>)
    ensures
        is_method_name(method_sent(name)),
        is_method_name(name) ==> method_sent(name) == name,
{
    reveal_strlit("GET");
}

/// A trace gives nothing of a raw body away but its length.
pub proof fn raw_bodies_are_not_traced(a: Vec<u8>, b: Vec<u8>)
    requires
        a@.len() == b@.len(),
    ensures
        body_trace(Some(RequestBody::Raw(a))) == body_trace(Some(RequestBody::Raw(b))),
{
}

/// The status codes from 200 to 299.
pub open spec fn is_success(status: u16) -> bool {
    200 <= status < 300
}

/// What a trace shows in the place of a raw body of `len` bytes.
fn raw_body_for_trace(len: usize) -> (shown: String)
    ensures
        shown@ == raw_body_trace(len as nat),
{
    let count = text::decimal_text(len as u64);
    "<raw body: ".to_owned().concat(count.as_str()).concat(" bytes>")
}

/// What a trace shows of the body of `req`.
pub fn request_body_for_trace(req: &Request) -> (shown: String)
    ensures
        shown@ == body_trace(req.body),
{
    match &req.body {
        Some(RequestBody::Json(value)) => written_json(value),
        Some(RequestBody::EncodedJson(bytes)) => text::lossy_text(bytes.as_slice()),
        Some(RequestBody::Raw(bytes)) => raw_body_for_trace(bytes.len()),
        None => String::new(),
    }
}

/// The line that traces `req` where `shown` is what it shows of the body.
pub fn request_trace(req: &Request, shown: &str) -> (line: String)
    ensures
        line@ == req.method@ + " to "@ + req.url@ + ": "@ + shown@,
{
    req.method.clone().concat(" to ").concat(req.url.as_str()).concat(": ").concat(shown)
}

/// Whether `status` is one of the status codes from 200 to 299.
pub fn success(status: u16) -> (yes: bool)
    ensures
        yes == is_success(status),
{
    200 <= status && status < 300
}

/// The error for a server that did not answer with success.
pub fn http_error(
    status: u16,
    url: String,
    headers: http::HeaderMap<http::HeaderValue>,
    body: Option<String>,
) -> (error: TransportError)
    ensures
        error == (TransportError::Http { status, url: Some(url), headers: Some(headers), body }),
{
    TransportError::Http { status, url: Some(url), headers: Some(headers), body }
}

/// The client that sends, and whether its requests are traced.
#[derive(Debug)]
pub struct HttpClient {
    pub client: reqwest::Client,
    pub request_logging: bool,
}

impl HttpClient {
    /// A client whose requests are traced.
    pub fn new(client: reqwest::Client) -> (http_client: Self)
        ensures
            http_client.client == client,
            http_client.request_logging,
    {
        HttpClient { client, request_logging: true }
    }
}

/// How a body is read after a streaming request that did not succeed.
#[derive(Debug, PartialEq, Eq)]
pub enum StreamStep {
    /// The request succeeded: its body goes to the caller unread.
    Deliver,
    /// The whole body goes into the error.
    ReadAll,
    /// At most so many bytes of the body go into the error.
    ReadLimited(usize),
}

/// Sends requests through a client.
#[derive(Debug)]
pub struct ReqwestTransport {
    client: HttpClient,
    max_stream_error_body_bytes: Option<usize>,
}

impl ReqwestTransport {
    /// The client that the requests go through.
    pub closed spec fn sender(&self) -> HttpClient {
        self.client
    }

    /// The bound on the body that is read after a streaming request that did
    /// not succeed, where there is one.
    pub closed spec fn error_body_bound(&self) -> Option<usize> {
        self.max_stream_error_body_bytes
    }

    /// A transport through `client`. Its requests are traced, and error bodies
    /// are not bounded.
    pub fn new(client: reqwest::Client) -> (transport: Self)
        ensures
            transport.sender().client == client,
            transport.sender().request_logging,
            transport.error_body_bound() is None,
    {
        ReqwestTransport { client: HttpClient::new(client), max_stream_error_body_bytes: None }
    }

    /// A transport through `client`. Error bodies are not bounded.
    pub fn from_http_client(client: HttpClient) -> (transport: Self)
        ensures
            transport.sender() == client,
            transport.error_body_bound() is None,
    {
        ReqwestTransport { client, max_stream_error_body_bytes: None }
    }

    /// The same transport with a bound on the body that is read after a
    /// streaming request that did not succeed.
    pub fn with_max_stream_error_body_bytes(self, max_bytes: usize) -> (transport: Self)
        ensures
            transport.sender() == self.sender(),
            transport.error_body_bound() == Some(max_bytes),
    {
        ReqwestTransport { client: self.client, max_stream_error_body_bytes: Some(max_bytes) }
    }

    /// The client that the requests go through.
    pub fn client(&self) -> (client: &reqwest::Client)
        ensures
            *client == self.sender().client,
    {
        &self.client.client
    }

    /// What goes out for `req`, where `prepared` is what its body turned into.
    pub fn build(req: Request, prepared: Result<PreparedBody, String>) -> (result: Result<
        OutgoingRequest,
        TransportError,
    >)
        ensures
            match prepared {
                Err(reason) => result == Err::<OutgoingRequest, _>(TransportError::Build(reason)),
                Ok(ready) => result matches Ok(out) && {
                    &&& out.method@ == method_sent(req.method@)
                    &&& out.url == req.url
                    &&& out.timeout == req.timeout
                    &&& out.headers == ready.headers
                    &&& out.body == ready.body
                },
            },
    {
        let ready = match prepared {
            Ok(ready) => ready,
            Err(reason) => return Err(TransportError::Build(reason)),
        };
        let method = match parsed_method(req.method.as_str()) {
            Some(method) => method,
            None => "GET".to_owned(),
        };
        Ok(
            OutgoingRequest {
                method,
                url: req.url,
                timeout: req.timeout,
                headers: ready.headers,
                body: ready.body,
            },
        )
    }

    /// The error for a request that was sent and brought no answer: whether the
    /// time had run out, and what the client says of it.
    pub fn map_error(timeout: bool, message: String) -> (error: TransportError)
        ensures
            error == if timeout {
                TransportError::Timeout
            } else {
                TransportError::Network(message)
            },
    {
        if timeout {
            TransportError::Timeout
        } else {
            TransportError::Network(message)
        }
    }

    /// The line that traces `req`, where its requests are traced at all and
    /// someone listens.
    pub fn trace_request(&self, req: &Request, trace_enabled: bool) -> (line: Option<String>)
        ensures
            text::viewed(line) == if self.sender().request_logging && trace_enabled {
                Some(trace_line(*req))
            } else {
                None
            },
    {
        if self.client.request_logging && trace_enabled {
            let shown = request_body_for_trace(req);
            Some(request_trace(req, shown.as_str()))
        } else {
            None
        }
    }

    /// What the answer to a request means: `url` is where it went, `body` the
    /// whole body that came back.
    pub fn execute_outcome(
        url: String,
        status: u16,
        headers: http::HeaderMap<http::HeaderValue>,
        body: Vec<u8>,
    ) -> (result: Result<Response, TransportError>)
        ensures
            match result {
                Ok(response) => {
                    &&& is_success(status)
                    &&& response.status == status
                    &&& response.headers == headers
                    &&& response.body == body
                },
                Err(TransportError::Http { status: code, url: place, headers: kept, body: shown })
                    => {
                    &&& !is_success(status)
                    &&& code == status
                    &&& place == Some(url)
                    &&& kept == Some(headers)
                    &&& text::viewed(shown) == text::utf8_text(body@)
                },
                Err(_) => false,
            },
    {
        if !success(status) {
            let shown = text::text_from_utf8(body);
            return Err(http_error(status, url, headers, shown));
        }
        Ok(Response { status, headers, body })
    }

    /// What to do with the body of the answer to a streaming request.
    pub fn stream_step(&self, status: u16) -> (step: StreamStep)
        ensures
            step == if is_success(status) {
                StreamStep::Deliver
            } else {
                match self.error_body_bound() {
                    Some(max_bytes) => StreamStep::ReadLimited(max_bytes),
                    None => StreamStep::ReadAll,
                }
            },
    {
        if success(status) {
            return StreamStep::Deliver;
        }
        match self.max_stream_error_body_bytes {
            Some(max_bytes) => StreamStep::ReadLimited(max_bytes),
            None => StreamStep::ReadAll,
        }
    }
}

} // verus!
