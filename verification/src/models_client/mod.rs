//! Asking a provider for its models.
//!
//! A fetch is described here and carried out elsewhere: the client says what to
//! request, and the fetch turns what came back into its result.

pub mod fetch;
pub mod laws;

use vstd::prelude::*;

use crate::text;
use crate::transport::{Request, RequestBody, TransportError};

use fetch::{LimitedFetch, MetadataFetch, ModelsFetch};

verus! {

/// Why a fetch failed.
#[derive(Debug)]
pub enum ApiError {
    /// The request itself failed.
    Transport(TransportError),
    /// What came back could not be used.
    Stream(String),
}

/// A transport together with the provider it speaks to.
#[derive(Debug)]
pub struct EndpointSession<T, P, A, M> {
    pub transport: T,
    pub provider: P,
    pub auth: A,
    pub request_telemetry: Option<M>,
}

impl<T, P, A, M> EndpointSession<T, P, A, M> {
    /// A session without telemetry.
    pub fn new(transport: T, provider: P, auth: A) -> (session: Self)
        ensures
            session.transport == transport,
            session.provider == provider,
            session.auth == auth,
            session.request_telemetry is None,
    {
        EndpointSession { transport, provider, auth, request_telemetry: None }
    }

    /// The same session with `request` as its telemetry.
    pub fn with_request_telemetry(self, request: Option<M>) -> (session: Self)
        ensures
            session.transport == self.transport,
            session.provider == self.provider,
            session.auth == self.auth,
            session.request_telemetry == request,
    {
        EndpointSession {
            transport: self.transport,
            provider: self.provider,
            auth: self.auth,
            request_telemetry: request,
        }
    }
}

/// What a fetch asks of the session.
#[derive(Debug)]
pub struct MetadataRequest {
    pub method: String,
    pub path: String,
    pub extra_headers: http::HeaderMap<http::HeaderValue>,
    pub body: Option<RequestBody>,
    /// Where the request goes, whatever address the path gives.
    pub request_url: String,
}

/// The request reads a path of the provider at an address of its own.
pub open spec fn is_metadata_request(
    request: MetadataRequest,
    path: Seq<char>,
    request_url: String,
    extra_headers: http::HeaderMap<http::HeaderValue>,
) -> bool {
    &&& request.method@ == "GET"@
    &&& request.path@ == path
    &&& request.extra_headers == extra_headers
    &&& request.body is None
    &&& request.request_url == request_url
}

/// Two requests differ in nothing but the address.
pub open spec fn same_but_url(a: Request, b: Request) -> bool {
    &&& a.method == b.method
    &&& a.headers == b.headers
    &&& a.body == b.body
    &&& a.timeout == b.timeout
}

impl MetadataRequest {
    fn new(
        path: &str,
        request_url: String,
        extra_headers: http::HeaderMap<http::HeaderValue>,
    ) -> (request: Self)
        ensures
            is_metadata_request(request, path@, request_url, extra_headers),
    {
        MetadataRequest {
            method: "GET".to_owned(),
            path: path.to_owned(),
            extra_headers,
            body: None,
            request_url,
        }
    }

    /// Sends `req` to the address of this fetch.
    pub fn configure(&self, req: &mut Request)
        ensures
            final(req).url == self.request_url,
            same_but_url(*final(req), *old(req)),
    {
        req.url = self.request_url.clone();
    }
}

/// The address with the version of the client in its query.
pub open spec fn versioned_url(url: Seq<char>, client_version: Seq<char>) -> Seq<char> {
    url + (if url.contains('?') {
        "&"@
    } else {
        "?"@
    }) + "client_version="@ + client_version
}

/// An address with the version in its query begins with the address itself,
/// ends with the version, and has a query.
pub proof fn versioned_url_extends_the_address(url: Seq<char>, client_version: Seq<char>)
    ensures
        url.is_prefix_of(versioned_url(url, client_version)),
        ("client_version="@ + client_version).is_suffix_of(versioned_url(url, client_version)),
        versioned_url(url, client_version).contains('?'),
{
    reveal_strlit("?");
    reveal_strlit("&");
    let whole = versioned_url(url, client_version);
    let query = "client_version="@ + client_version;
    assert(whole.take(url.len() as int) =~= url);
    assert(whole.skip(whole.len() - query.len()) =~= query);
    if url.contains('?') {
        let i = choose|i: int| 0 <= i < url.len() && url[i] == '?';
        assert(whole[i] == '?');
    } else {
        assert(whole[url.len() as int] == '?');
    }
}

fn has_query(url: &str) -> (yes: bool)
    ensures
        yes == url@.contains('?'),
{
    let chars = text::chars_of(url);
    let mut i: usize = 0;
    while i < chars.len()
        invariant
            i <= chars@.len(),
            chars@ == url@,
            forall|j: int| 0 <= j < i ==> url@[j] != '?',
        decreases chars@.len() - i,
    {
        if chars[i] == '?' {
            assert(url@[i as int] == '?');
            return true;
        }
        i += 1;
    }
    false
}

/// Asks a provider for its models.
#[derive(Debug)]
pub struct ModelsClient<T, P, A, M> {
    session: EndpointSession<T, P, A, M>,
}

impl<T, P, A, M> ModelsClient<T, P, A, M> {
    /// The session that the requests go through.
    pub closed spec fn through(&self) -> EndpointSession<T, P, A, M> {
        self.session
    }

    /// A client for a provider, without telemetry.
    pub fn new(transport: T, provider: P, auth: A) -> (client: Self)
        ensures
            client.through().transport == transport,
            client.through().provider == provider,
            client.through().auth == auth,
            client.through().request_telemetry is None,
    {
        ModelsClient { session: EndpointSession::new(transport, provider, auth) }
    }

    /// The same client with `request` as its telemetry.
    pub fn with_telemetry(self, request: Option<M>) -> (client: Self)
        ensures
            client.through().transport == self.through().transport,
            client.through().provider == self.through().provider,
            client.through().auth == self.through().auth,
            client.through().request_telemetry == request,
    {
        ModelsClient { session: self.session.with_request_telemetry(request) }
    }

    /// The session that the requests go through.
    pub fn session(&self) -> (session: &EndpointSession<T, P, A, M>)
        ensures
            *session == self.through(),
    {
        &self.session
    }

    /// Where a provider lists its models.
    pub fn path() -> (path: &'static str)
        ensures
            path == "models",
    {
        "models"
    }

    /// Adds the version of the client to the query of `req`.
    pub fn append_client_version_query(req: &mut Request, client_version: &str)
        ensures
            final(req).url@ == versioned_url(old(req).url@, client_version@),
            same_but_url(*final(req), *old(req)),
    {
        let separator = if has_query(req.url.as_str()) {
            "&"
        } else {
            "?"
        };
        req.url = req.url.clone().concat(separator).concat("client_version=").concat(client_version);
    }

    /// The address of a path of a provider. `build_request` is how the provider
    /// makes a request with a method out of a path.
    pub fn request_url_for_path<B: FnOnce(&str, &str) -> Request>(
        build_request: B,
        path: &str,
        client_version: &str,
    ) -> (url: String)
        requires
            build_request.requires(("GET", path)),
        ensures
            exists|request: Request| #[trigger]
                build_request.ensures(("GET", path), request) && url@ == versioned_url(
                    request.url@,
                    client_version@,
                ),
    {
        let mut request = build_request("GET", path);
        let ghost built = request;
        Self::append_client_version_query(&mut request, client_version);
        assert(build_request.ensures(("GET", path), built));
        request.url
    }

    /// The address where a provider lists its models.
    pub fn request_url<B: FnOnce(&str, &str) -> Request>(
        build_request: B,
        client_version: &str,
    ) -> (url: String)
        requires
            build_request.requires(("GET", "models")),
        ensures
            exists|request: Request| #[trigger]
                build_request.ensures(("GET", "models"), request) && url@ == versioned_url(
                    request.url@,
                    client_version@,
                ),
    {
        Self::request_url_for_path(build_request, Self::path(), client_version)
    }

    /// A fetch of the metadata at `path`, from `request_url`.
    pub fn fetch_model_metadata(
        &self,
        path: &str,
        request_url: String,
        extra_headers: http::HeaderMap<http::HeaderValue>,
    ) -> (fetch: MetadataFetch)
        ensures
            is_metadata_request(fetch.request, path@, request_url, extra_headers),
    {
        MetadataFetch { request: MetadataRequest::new(path, request_url, extra_headers) }
    }

    /// A fetch of the metadata at `path`, from `request_url`, that refuses more
    /// than `max_bytes`.
    pub fn fetch_model_metadata_limited(
        &self,
        path: &str,
        request_url: String,
        extra_headers: http::HeaderMap<http::HeaderValue>,
        max_bytes: usize,
    ) -> (fetch: LimitedFetch)
        ensures
            is_metadata_request(fetch.request, path@, request_url, extra_headers),
            fetch.max_bytes == max_bytes,
    {
        LimitedFetch {
            request: MetadataRequest::new(path, request_url, extra_headers),
            max_bytes,
        }
    }

    /// A fetch of the models that a provider lists, from `request_url`.
    pub fn list_models(
        &self,
        request_url: String,
        extra_headers: http::HeaderMap<http::HeaderValue>,
    ) -> (fetch: ModelsFetch)
        ensures
            is_metadata_request(fetch.request, "models"@, request_url, extra_headers),
    {
        ModelsFetch { request: MetadataRequest::new(Self::path(), request_url, extra_headers) }
    }
}

} // verus!
