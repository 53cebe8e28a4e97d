//! What holds of the fetches of a models client.

use vstd::prelude::*;

use super::fetch::{decode_failure, LimitedBody, LimitedFetch, MetadataFetch, ModelsFetch};
use super::{ApiError, EndpointSession, MetadataRequest, ModelsClient};
use crate::headers;
use crate::models::ModelInfo;
use crate::text;
use crate::transport::laws::{all_came, length_of, whole};
use crate::transport::{chunk, laws, Request, Response, StreamResponse, TransportError};

verus! {

/// The entity tag is that of the headers: there is one exactly when they have a
/// value under `etag` that is plain ASCII, and it is that value, byte for byte.
pub open spec fn is_tag_of(
    carried: http::HeaderMap<http::HeaderValue>,
    tag: Option<String>,
) -> bool {
    let values = headers::first_values(carried);
    match tag {
        Some(t) => {
            &&& values.contains_key("etag"@)
            &&& t@.len() == values["etag"@].len()
            &&& forall|i: int|
                #![trigger t@[i]]
                0 <= i < t@.len() ==> t@[i] as int == values["etag"@][i] && (values["etag"@][i] == 9
                    || 32 <= values["etag"@][i] <= 126)
        },
        None => values.contains_key("etag"@) ==> exists|i: int|
            0 <= i < values["etag"@].len() && !(#[trigger] values["etag"@][i] == 9 || 32
                <= values["etag"@][i] <= 126),
    }
}

proof fn lemma_tag(carried: http::HeaderMap<http::HeaderValue>, tag: Option<String>)
    requires
        text::viewed(tag) == headers::etag_of(carried),
    ensures
        is_tag_of(carried, tag),
{
    let values = headers::first_values(carried);
    if values.contains_key("etag"@) {
        let bytes = values["etag"@];
        if let Some(t) = tag {
            assert forall|i: int|
                #![trigger t@[i]]
                0 <= i < t@.len() implies t@[i] as int == bytes[i] && (bytes[i] == 9 || 32
                <= bytes[i] <= 126) by {
                assert(headers::is_plain_byte(bytes[i]));
            }
        } else {
            let i = choose|i: int|
                0 <= i < bytes.len() && !headers::is_plain_byte(#[trigger] bytes[i]);
            assert(!(bytes[i] == 9 || 32 <= bytes[i] <= 126));
        }
    }
}

/// The entity tag that is found is that of the headers.
pub proof fn tags_are_read_from_the_headers(
    carried: http::HeaderMap<http::HeaderValue>,
    tag: Option<String>,
)
    requires
        call_ensures(headers::etag, (&carried,), tag),
    ensures
        is_tag_of(carried, tag),
{
    lemma_tag(carried, tag);
}

/// Bytes are the text of a header value exactly when each is a tab or a visible
/// ASCII character, and the text has these characters.
pub proof fn header_texts_are_plain(bytes: &[u8], found: Option<String>)
    requires
        call_ensures(headers::header_text, (bytes,), found),
    ensures
        found is Some <==> forall|i: int|
            0 <= i < bytes@.len() ==> (#[trigger] bytes@[i] == 9 || 32 <= bytes@[i] <= 126),
        found matches Some(t) ==> t@.len() == bytes@.len() && forall|i: int|
            0 <= i < t@.len() ==> #[trigger] t@[i] as int == bytes@[i],
{
    if found is Some {
        assert forall|i: int| 0 <= i < bytes@.len() implies (#[trigger] bytes@[i] == 9 || 32
            <= bytes@[i] <= 126) by {
            assert(headers::is_plain_byte(bytes@[i]));
        }
    }
    if forall|i: int| 0 <= i < bytes@.len() ==> (#[trigger] bytes@[i] == 9 || 32 <= bytes@[i]
        <= 126) {
        assert forall|i: int| 0 <= i < bytes@.len() implies headers::is_plain_byte(
            #[trigger] bytes@[i],
        ) by {
            assert(bytes@[i] == 9 || 32 <= bytes@[i] <= 126);
        }
    }
}

/// A fetch that got its response gives the body of it, byte for byte, and its
/// entity tag. A fetch whose request failed fails with that error.
pub proof fn fetches_give_back_the_body(
    fetch: MetadataFetch,
    reply: Result<Response, ApiError>,
    result: Result<(Vec<u8>, Option<String>), ApiError>,
)
    requires
        call_ensures(MetadataFetch::finish, (fetch, reply), result),
    ensures
        reply matches Ok(response) ==> (result matches Ok(found) && found.0@ == response.body@
            && is_tag_of(response.headers, found.1)),
        reply matches Err(error) ==> (result matches Err(told) && told == error),
{
    if let Ok(response) = reply {
        if let Ok(found) = result {
            lemma_tag(response.headers, found.1);
        }
    }
}

/// A limited fetch succeeds exactly when every chunk came and together they are
/// not too long. The body is then all of the chunks, in order: as long as they
/// are together, and with the bytes of each chunk behind those of the chunks
/// before it.
pub proof fn limited_fetches_give_back_every_chunk(
    fetch: LimitedFetch,
    response: StreamResponse<Vec<Result<Vec<u8>, TransportError>>>,
    result: Result<(Vec<u8>, Option<String>), ApiError>,
)
    requires
        call_ensures(LimitedFetch::collect, (fetch, Ok(response)), result),
    ensures
        result is Ok <==> all_came(response.bytes@, response.bytes@.len()) && length_of(
            response.bytes@,
            response.bytes@.len(),
        ) <= fetch.max_bytes,
        result matches Ok(found) ==> {
            &&& found.0@ == whole(response.bytes@, response.bytes@.len())
            &&& found.0@.len() == length_of(response.bytes@, response.bytes@.len())
            &&& forall|k: int|
                #![trigger response.bytes@[k]]
                0 <= k < response.bytes@.len() ==> found.0@.subrange(
                    length_of(response.bytes@, k as nat),
                    length_of(response.bytes@, (k + 1) as nat),
                ) == (response.bytes@[k]->Ok_0)@
            &&& is_tag_of(response.headers, found.1)
        },
{
    let chunks = response.bytes@;
    let n = chunks.len();
    laws::lemma_whole(chunks, n);
    assert(chunk::arrived(chunks, n) == all_came(chunks, n));
    match result {
        Ok(found) => {
            lemma_tag(response.headers, found.1);
            assert forall|k: int|
                #![trigger chunks[k]]
                0 <= k < n implies found.0@.subrange(
                length_of(chunks, k as nat),
                length_of(chunks, (k + 1) as nat),
            ) == (chunks[k]->Ok_0)@ by {
                laws::every_chunk_stands_in_the_whole(chunks, n, k);
            }
        },
        Err(ApiError::Transport(error)) => {
            let k = choose|k: nat| #[trigger]
                super::fetch::fails_at(chunks, fetch.max_bytes, k) && chunks[k as int] == Err::<
                    Vec<u8>,
                    _,
                >(error);
            super::fetch::limited_outcome_is_settled(chunks, fetch.max_bytes, k);
        },
        Err(ApiError::Stream(message)) => {
            let k = choose|k: nat| #[trigger]
                super::fetch::fails_at(chunks, fetch.max_bytes, k) && chunks[k as int] is Ok;
            super::fetch::limited_outcome_is_settled(chunks, fetch.max_bytes, k);
        },
    }
}

/// A limited fetch fails at the first chunk that was lost or that is too much:
/// with the error of a lost one, and for a body that outgrows the limit with
/// the limit.
pub proof fn limited_fetches_fail_at_the_first_bad_chunk(
    fetch: LimitedFetch,
    response: StreamResponse<Vec<Result<Vec<u8>, TransportError>>>,
    result: Result<(Vec<u8>, Option<String>), ApiError>,
    n: nat,
)
    requires
        call_ensures(LimitedFetch::collect, (fetch, Ok(response)), result),
        n < response.bytes@.len(),
        all_came(response.bytes@, n),
        length_of(response.bytes@, n) <= fetch.max_bytes,
        response.bytes@[n as int] is Ok ==> length_of(response.bytes@, n + 1) > fetch.max_bytes,
    ensures
        response.bytes@[n as int] matches Err(error) ==> (result matches Err(ApiError::Transport(
            told,
        )) && told == error),
        response.bytes@[n as int] is Ok ==> (result matches Err(ApiError::Stream(message))
            && message@ == (if length_of(response.bytes@, n + 1) > usize::MAX {
            "model metadata response size overflowed"@
        } else {
            "model metadata response exceeds maximum size of "@ + text::decimal(
                fetch.max_bytes as nat,
            ) + " bytes"@
        })),
{
    let chunks = response.bytes@;
    laws::lemma_whole(chunks, n);
    laws::lemma_whole(chunks, n + 1);
    assert(chunk::arrived(chunks, n));
    assert(super::fetch::fails_at(chunks, fetch.max_bytes, n));
    super::fetch::limited_outcome_is_settled(chunks, fetch.max_bytes, n);
}

/// A limited fetch whose request failed fails with that error.
pub proof fn limited_fetches_pass_errors_on(
    fetch: LimitedFetch,
    error: ApiError,
    result: Result<(Vec<u8>, Option<String>), ApiError>,
)
    requires
        call_ensures(LimitedFetch::collect, (fetch, Err(error)), result),
    ensures
        result matches Err(told) && told == error,
{
}

/// A limited body begins empty, with the entity tag of the response and the
/// limit of the fetch.
pub proof fn limited_bodies_begin_empty(
    fetch: LimitedFetch,
    carried: http::HeaderMap<http::HeaderValue>,
    body: LimitedBody,
    found: (Vec<u8>, Option<String>),
)
    requires
        call_ensures(LimitedFetch::begin, (fetch, &carried), body),
        call_ensures(LimitedBody::finish, (body,), found),
    ensures
        body.gathered().len() == 0,
        body.limit() == fetch.max_bytes,
        found.0@.len() == 0,
        is_tag_of(carried, found.1),
{
    lemma_tag(carried, found.1);
}

/// A chunk is added at the end of a limited body exactly when it fits; its limit
/// and its entity tag stay.
pub proof fn limited_bodies_grow_by_what_fits(
    body: LimitedBody,
    part: Vec<u8>,
    result: Result<LimitedBody, ApiError>,
)
    requires
        call_ensures(LimitedBody::accept, (body, Ok(part)), result),
        body.gathered().len() <= body.limit(),
    ensures
        result is Ok <==> body.gathered().len() + part@.len() <= body.limit(),
        result matches Ok(next) ==> next.gathered() == body.gathered() + part@ && next.limit()
            == body.limit() && next.tag() == body.tag(),
        result matches Err(error) ==> (error matches ApiError::Stream(message) && message@ == (
        if body.gathered().len() + part@.len() > usize::MAX {
            "model metadata response size overflowed"@
        } else {
            "model metadata response exceeds maximum size of "@ + text::decimal(
                body.limit() as nat,
            ) + " bytes"@
        })),
{
}

/// A lost chunk fails a limited body with its error.
pub proof fn limited_bodies_pass_errors_on(
    body: LimitedBody,
    error: TransportError,
    result: Result<LimitedBody, ApiError>,
)
    requires
        call_ensures(LimitedBody::accept, (body, Err(error)), result),
    ensures
        result matches Err(ApiError::Transport(told)) && told == error,
{
}

/// A finished body is what was gathered, and its entity tag is the one it began
/// with.
pub proof fn limited_bodies_end_with_what_was_gathered(
    body: LimitedBody,
    found: (Vec<u8>, Option<String>),
)
    requires
        call_ensures(LimitedBody::finish, (body,), found),
    ensures
        found.0@ == body.gathered(),
        match found.1 {
            Some(t) => body.tag() == Some(t@),
            None => body.tag() is None,
        },
{
}

/// A listing has every model that was decoded, in order, and the entity tag that
/// it was given.
pub proof fn listings_have_every_model(
    models: Vec<ModelInfo>,
    body: &[u8],
    tag: Option<String>,
    result: Result<(Vec<ModelInfo>, Option<String>), ApiError>,
)
    requires
        call_ensures(ModelsFetch::listing, (Ok(models), body, tag), result),
    ensures
        result matches Ok(found) && {
            &&& found.0@.len() == models@.len()
            &&& forall|i: int| 0 <= i < models@.len() ==> #[trigger] found.0@[i] == models@[i]
            &&& match (tag, found.1) {
                (Some(given), Some(kept)) => given@ == kept@,
                (None, None) => true,
                _ => false,
            }
        },
{
}

/// Where the body could not be decoded, the listing fails with the reason and
/// with what can be shown of the body.
pub proof fn listings_show_what_did_not_decode(
    reason: String,
    body: &[u8],
    tag: Option<String>,
    result: Result<(Vec<ModelInfo>, Option<String>), ApiError>,
)
    requires
        call_ensures(ModelsFetch::listing, (Err(reason), body, tag), result),
    ensures
        result matches Err(ApiError::Stream(message)) && message@
            == "failed to decode models response: "@ + reason@ + "; body: "@ + text::utf8_lossy(
            body@,
        ),
{
}

/// The message for a body that does not decode is put together from its parts.
pub proof fn decode_failures_join_their_parts(reason: &str, shown: &str, message: String)
    requires
        call_ensures(decode_failure, (reason, shown), message),
    ensures
        message@ == "failed to decode models response: "@ + reason@ + "; body: "@ + shown@,
{
}

/// Listing the models of a response gives every model that its body decodes to,
/// in order, and the entity tag of the response.
pub proof fn responses_are_listed_in_full<D: FnOnce(&[u8]) -> Result<Vec<ModelInfo>, String>>(
    fetch: ModelsFetch,
    response: Response,
    decode: D,
    models: Vec<ModelInfo>,
    result: Result<(Vec<ModelInfo>, Option<String>), ApiError>,
)
    requires
        call_ensures(ModelsFetch::finish::<D>, (fetch, Ok(response), decode), result),
        forall|body: &[u8], made: Result<Vec<ModelInfo>, String>| #[trigger]
            decode.ensures((body,), made) && body@ == response.body@ ==> made == Ok::<
                Vec<ModelInfo>,
                String,
            >(models),
    ensures
        result matches Ok(found) && {
            &&& found.0@.len() == models@.len()
            &&& forall|i: int| 0 <= i < models@.len() ==> #[trigger] found.0@[i] == models@[i]
            &&& is_tag_of(response.headers, found.1)
        },
{
    if let Ok(found) = result {
        lemma_tag(response.headers, found.1);
    }
}

/// A response whose body does not decode fails the listing with the reason and
/// with what can be shown of the body.
pub proof fn undecoded_responses_fail_the_listing<
    D: FnOnce(&[u8]) -> Result<Vec<ModelInfo>, String>,
>(
    fetch: ModelsFetch,
    response: Response,
    decode: D,
    reason: String,
    result: Result<(Vec<ModelInfo>, Option<String>), ApiError>,
)
    requires
        call_ensures(ModelsFetch::finish::<D>, (fetch, Ok(response), decode), result),
        forall|body: &[u8], made: Result<Vec<ModelInfo>, String>| #[trigger]
            decode.ensures((body,), made) && body@ == response.body@ ==> made == Err::<
                Vec<ModelInfo>,
                String,
            >(reason),
    ensures
        result matches Err(ApiError::Stream(message)) && message@
            == "failed to decode models response: "@ + reason@ + "; body: "@ + text::utf8_lossy(
            response.body@,
        ),
{
}

/// A listing whose request failed fails with that error.
pub proof fn listings_pass_errors_on<D: FnOnce(&[u8]) -> Result<Vec<ModelInfo>, String>>(
    fetch: ModelsFetch,
    error: ApiError,
    decode: D,
    result: Result<(Vec<ModelInfo>, Option<String>), ApiError>,
)
    requires
        call_ensures(ModelsFetch::finish::<D>, (fetch, Err(error), decode), result),
    ensures
        result matches Err(told) && told == error,
{
}

/// A request of a fetch reads: it has the method `GET` and no body.
pub open spec fn reads_path(
    request: MetadataRequest,
    path: Seq<char>,
    request_url: String,
    extra_headers: http::HeaderMap<http::HeaderValue>,
) -> bool {
    &&& request.method@ == "GET"@
    &&& request.body is None
    &&& request.path@ == path
    &&& request.request_url@ == request_url@
    &&& request.extra_headers == extra_headers
}

/// Every fetch reads the path it is for, from the address and with the headers
/// it was given; a list of models is read from `models`.
pub proof fn fetches_ask_for_what_they_are_given<T, P, A, M>(
    client: ModelsClient<T, P, A, M>,
    path: &str,
    request_url: String,
    extra_headers: http::HeaderMap<http::HeaderValue>,
    max_bytes: usize,
    plain: MetadataFetch,
    limited: LimitedFetch,
    listing: ModelsFetch,
)
    requires
        call_ensures(
            ModelsClient::<T, P, A, M>::fetch_model_metadata,
            (&client, path, request_url, extra_headers),
            plain,
        ),
        call_ensures(
            ModelsClient::<T, P, A, M>::fetch_model_metadata_limited,
            (&client, path, request_url, extra_headers, max_bytes),
            limited,
        ),
        call_ensures(
            ModelsClient::<T, P, A, M>::list_models,
            (&client, request_url, extra_headers),
            listing,
        ),
    ensures
        reads_path(plain.request, path@, request_url, extra_headers),
        reads_path(limited.request, path@, request_url, extra_headers),
        limited.max_bytes == max_bytes,
        reads_path(listing.request, "models"@, request_url, extra_headers),
{
}

/// The address of a path is that of the provider with the version behind it: a
/// sign, `client_version=` and the version. The sign is `&` where the provider's
/// address has a query already, and `?` where it has none.
pub proof fn addresses_end_with_the_version<
    T,
    P,
    A,
    M,
    B: FnOnce(&str, &str) -> Request,
>(
    build_request: B,
    path: &str,
    client_version: &str,
    made: Request,
    url: String,
)
    requires
        call_ensures(
            ModelsClient::<T, P, A, M>::request_url_for_path::<B>,
            (build_request, path, client_version),
            url,
        ),
        forall|request: Request| #[trigger]
            build_request.ensures(("GET", path), request) ==> request == made,
    ensures
        (exists|i: int| 0 <= i < made.url@.len() && #[trigger] made.url@[i] == '?') ==> url@
            == made.url@ + "&client_version="@ + client_version@,
        (forall|i: int| 0 <= i < made.url@.len() ==> #[trigger] made.url@[i] != '?') ==> url@
            == made.url@ + "?client_version="@ + client_version@,
{
    lemma_versioned(made.url@, client_version@);
}

proof fn lemma_versioned(url: Seq<char>, version: Seq<char>)
    ensures
        (exists|i: int| 0 <= i < url.len() && #[trigger] url[i] == '?') ==> super::versioned_url(
            url,
            version,
        ) == url + "&client_version="@ + version,
        (forall|i: int| 0 <= i < url.len() ==> #[trigger] url[i] != '?') ==> super::versioned_url(
            url,
            version,
        ) == url + "?client_version="@ + version,
{
    reveal_strlit("&");
    reveal_strlit("?");
    reveal_strlit("client_version=");
    reveal_strlit("&client_version=");
    reveal_strlit("?client_version=");
    assert("&"@ + "client_version="@ =~= "&client_version="@);
    assert("?"@ + "client_version="@ =~= "?client_version="@);
    assert(url + "&"@ + "client_version="@ + version =~= url + ("&"@ + "client_version="@)
        + version);
    assert(url + "?"@ + "client_version="@ + version =~= url + ("?"@ + "client_version="@)
        + version);
}

/// The address of the list of models is that of the provider's path `models`,
/// with the version behind it.
pub proof fn the_list_is_at_the_path_models<
    T,
    P,
    A,
    M,
    B: FnOnce(&str, &str) -> Request,
>(
    build_request: B,
    client_version: &str,
    made: Request,
    url: String,
    path: &'static str,
)
    requires
        call_ensures(
            ModelsClient::<T, P, A, M>::request_url::<B>,
            (build_request, client_version),
            url,
        ),
        call_ensures(ModelsClient::<T, P, A, M>::path, (), path),
        forall|request: Request| #[trigger]
            build_request.ensures(("GET", path), request) ==> request == made,
    ensures
        path@ == "models"@,
        (exists|i: int| 0 <= i < made.url@.len() && #[trigger] made.url@[i] == '?') ==> url@
            == made.url@ + "&client_version="@ + client_version@,
        (forall|i: int| 0 <= i < made.url@.len() ==> #[trigger] made.url@[i] != '?') ==> url@
            == made.url@ + "?client_version="@ + client_version@,
{
    lemma_versioned(made.url@, client_version@);
}

/// A fetch sends a request to its own address and leaves the rest of it alone.
pub proof fn configured_requests_go_to_the_fetch(fetch: MetadataRequest, req: &mut Request)
    requires
        call_ensures(MetadataRequest::configure, (&fetch, req), ()),
    ensures
        final(req).url@ == fetch.request_url@,
        final(req).method@ == old(req).method@,
        final(req).headers == old(req).headers,
        final(req).body == old(req).body,
        final(req).timeout == old(req).timeout,
{
}

/// Adding the version to a request changes its address alone: the version is
/// put behind it, and behind whatever was added before.
pub proof fn versions_are_added_behind_the_address<T, P, A, M>(
    req: &mut Request,
    client_version: &str,
)
    requires
        call_ensures(
            ModelsClient::<T, P, A, M>::append_client_version_query,
            (req, client_version),
            (),
        ),
    ensures
        (exists|i: int| 0 <= i < old(req).url@.len() && #[trigger] old(req).url@[i] == '?')
            ==> final(req).url@ == old(req).url@ + "&client_version="@ + client_version@,
        (forall|i: int| 0 <= i < old(req).url@.len() ==> #[trigger] old(req).url@[i] != '?')
            ==> final(req).url@ == old(req).url@ + "?client_version="@ + client_version@,
        final(req).method@ == old(req).method@,
        final(req).headers == old(req).headers,
        final(req).body == old(req).body,
        final(req).timeout == old(req).timeout,
{
    lemma_versioned(old(req).url@, client_version@);
}

/// A client keeps what it was made of; telemetry is all that can be changed, and
/// it is what was given last.
pub proof fn clients_keep_their_session<T, P, A, M>(
    transport: T,
    provider: P,
    auth: A,
    telemetry: Option<M>,
    client: ModelsClient<T, P, A, M>,
    changed: ModelsClient<T, P, A, M>,
    session: &EndpointSession<T, P, A, M>,
    changed_session: &EndpointSession<T, P, A, M>,
)
    requires
        call_ensures(ModelsClient::<T, P, A, M>::new, (transport, provider, auth), client),
        call_ensures(ModelsClient::<T, P, A, M>::with_telemetry, (client, telemetry), changed),
        call_ensures(ModelsClient::<T, P, A, M>::session, (&client,), session),
        call_ensures(ModelsClient::<T, P, A, M>::session, (&changed,), changed_session),
    ensures
        session.transport == transport,
        session.provider == provider,
        session.auth == auth,
        session.request_telemetry is None,
        changed_session.transport == transport,
        changed_session.provider == provider,
        changed_session.auth == auth,
        changed_session.request_telemetry == telemetry,
{
}

} // verus!
