//! What holds of requests and their answers.

use vstd::prelude::*;
use vstd::utf8::{encode_utf8, valid_utf8};

use super::error_body::{read_limited_error_body, ErrorBodyProgress, LimitedErrorBody};
use super::{
    chunk, http_error, request_body_for_trace, request_trace, success, HttpClient,
    OutgoingRequest, PreparedBody, Request, RequestBody, ReqwestTransport, Response, StreamStep,
    TransportError,
};
use crate::text;
use crate::text_laws;

verus! {

/// What each chunk brought, up to the first `n`.
pub open spec fn pieces(chunks: Seq<Result<Vec<u8>, TransportError>>, n: nat) -> Seq<Seq<u8>> {
    Seq::new(n, |i: int| (chunks[i]->Ok_0)@)
}

/// The bytes of the first `n` chunks, one after the other.
pub open spec fn whole(chunks: Seq<Result<Vec<u8>, TransportError>>, n: nat) -> Seq<u8> {
    pieces(chunks, n).flatten()
}

/// How many bytes the first `n` chunks brought.
pub open spec fn length_of(chunks: Seq<Result<Vec<u8>, TransportError>>, n: nat) -> int {
    pieces(chunks, n).fold_left(0int, |total: int, piece: Seq<u8>| total + piece.len())
}

/// All of the first `n` chunks came.
pub open spec fn all_came(chunks: Seq<Result<Vec<u8>, TransportError>>, n: nat) -> bool {
    n <= chunks.len() && forall|i: int| 0 <= i < n ==> #[trigger] chunks[i] is Ok
}

pub(crate) proof fn lemma_whole(chunks: Seq<Result<Vec<u8>, TransportError>>, n: nat)
    ensures
        chunk::joined(chunks, n) == whole(chunks, n),
        chunk::joined(chunks, n).len() == length_of(chunks, n),
    decreases n,
{
    if n == 0 {
        assert(pieces(chunks, n) =~= Seq::empty());
    } else {
        lemma_whole(chunks, (n - 1) as nat);
        let now = pieces(chunks, n);
        assert(now.drop_last() =~= pieces(chunks, (n - 1) as nat));
        now.lemma_flatten_and_flatten_alt_are_equivalent();
        now.drop_last().lemma_flatten_and_flatten_alt_are_equivalent();
    }
}

/// The bytes of every chunk stand in the whole, behind those of the chunks
/// before it.
pub proof fn every_chunk_stands_in_the_whole(
    chunks: Seq<Result<Vec<u8>, TransportError>>,
    n: nat,
    k: int,
)
    requires
        0 <= k < n,
    ensures
        whole(chunks, n).len() == length_of(chunks, n),
        length_of(chunks, (k + 1) as nat) == length_of(chunks, k as nat) + (
        chunks[k]->Ok_0)@.len(),
        length_of(chunks, (k + 1) as nat) <= length_of(chunks, n),
        whole(chunks, n).subrange(
            length_of(chunks, k as nat),
            length_of(chunks, (k + 1) as nat),
        ) == (chunks[k]->Ok_0)@,
{
    lemma_whole(chunks, n);
    lemma_whole(chunks, k as nat);
    lemma_whole(chunks, (k + 1) as nat);
    chunk::lemma_joined_grows(chunks, (k + 1) as nat, n);
    let upto = chunk::joined(chunks, (k + 1) as nat);
    let before = chunk::joined(chunks, k as nat);
    assert(upto == before + (chunks[k]->Ok_0)@);
    assert(whole(chunks, n).take(upto.len() as int) == upto);
    assert(whole(chunks, n).subrange(before.len() as int, upto.len() as int) =~= whole(
        chunks,
        n,
    ).take(upto.len() as int).subrange(before.len() as int, upto.len() as int));
    assert(upto.subrange(before.len() as int, upto.len() as int) =~= (chunks[k]->Ok_0)@);
}

/// The text is what the bytes encode; there is none exactly when the bytes
/// encode no text.
pub open spec fn is_text_of(bytes: Seq<u8>, body: Option<String>) -> bool {
    match body {
        Some(t) => encode_utf8(t@) == bytes,
        None => !valid_utf8(bytes),
    }
}

pub(crate) proof fn lemma_text_of(bytes: Seq<u8>, body: Option<String>)
    requires
        text::viewed(body) == text::utf8_text(bytes),
    ensures
        is_text_of(bytes, body),
{
    if let Some(t) = body {
        text_laws::texts_are_what_bytes_encode(bytes, t@);
    }
}

/// An error body is the text of the first `max_bytes` bytes that came; bytes
/// after these do not matter.
pub proof fn error_bodies_begin_what_came(
    chunks: Vec<Result<Vec<u8>, TransportError>>,
    max_bytes: usize,
    body: Option<String>,
    n: nat,
)
    requires
        call_ensures(read_limited_error_body, (chunks, max_bytes), body),
        all_came(chunks@, n),
        length_of(chunks@, n) >= max_bytes,
    ensures
        is_text_of(whole(chunks@, n).take(max_bytes as int), body),
{
    lemma_whole(chunks@, n);
    assert(chunk::arrived(chunks@, n));
    assert(chunk::joined(chunks@, n).len() >= max_bytes);
    lemma_text_of(whole(chunks@, n).take(max_bytes as int), body);
}

/// An error body that fits is the text of everything that came.
pub proof fn short_error_bodies_are_whole(
    chunks: Vec<Result<Vec<u8>, TransportError>>,
    max_bytes: usize,
    body: Option<String>,
)
    requires
        call_ensures(read_limited_error_body, (chunks, max_bytes), body),
        all_came(chunks@, chunks@.len()),
        length_of(chunks@, chunks@.len()) <= max_bytes,
    ensures
        is_text_of(whole(chunks@, chunks@.len()), body),
{
    lemma_whole(chunks@, chunks@.len());
    assert(chunk::arrived(chunks@, chunks@.len()));
    lemma_text_of(whole(chunks@, chunks@.len()), body);
}

/// A chunk that is lost while there is still room leaves no error body.
pub proof fn a_lost_chunk_leaves_no_error_body(
    chunks: Vec<Result<Vec<u8>, TransportError>>,
    max_bytes: usize,
    body: Option<String>,
    n: nat,
)
    requires
        call_ensures(read_limited_error_body, (chunks, max_bytes), body),
        all_came(chunks@, n),
        n < chunks@.len(),
        chunks@[n as int] is Err,
        length_of(chunks@, n) < max_bytes,
    ensures
        body is None,
{
    lemma_whole(chunks@, n);
    assert(chunk::arrived(chunks@, n));
    assert(chunk::joined(chunks@, n).len() < max_bytes);
}

/// Reading begins with nothing, and is over at once where nothing may come.
pub proof fn reading_begins_empty(max_bytes: usize, progress: ErrorBodyProgress)
    requires
        call_ensures(LimitedErrorBody::start, (max_bytes,), progress),
    ensures
        match progress {
            ErrorBodyProgress::More(reading) => max_bytes > 0 && reading.gathered().len() == 0
                && reading.bound() == max_bytes,
            ErrorBodyProgress::Done(body) => max_bytes == 0 && (body matches Some(t) && t@.len()
                == 0),
        },
{
    if let ErrorBodyProgress::Done(body) = progress {
        assert(text::utf8_text(Seq::empty()) == Some(Seq::<char>::empty()));
    }
}

/// A chunk is added to what was read. Reading goes on while there is room, and
/// ends with exactly as many bytes as may come.
pub proof fn reading_adds_chunks_up_to_the_bound(
    reading: LimitedErrorBody,
    part: Vec<u8>,
    progress: ErrorBodyProgress,
)
    requires
        call_ensures(LimitedErrorBody::step, (reading, Some(Ok(part))), progress),
    ensures
        match progress {
            ErrorBodyProgress::More(next) => {
                &&& reading.gathered().len() + part@.len() < reading.bound()
                &&& next.gathered() == reading.gathered() + part@
                &&& next.bound() == reading.bound()
            },
            ErrorBodyProgress::Done(body) => {
                &&& reading.gathered().len() + part@.len() >= reading.bound()
                &&& is_text_of((reading.gathered() + part@).take(reading.bound() as int), body)
            },
        },
{
    let all = reading.gathered() + part@;
    if let ErrorBodyProgress::Done(body) = progress {
        if all.len() == reading.bound() {
            assert(all.take(reading.bound() as int) =~= all);
        }
        lemma_text_of(all.take(reading.bound() as int), body);
    }
}

/// At the end of a body its text is what was read; after a loss there is none.
pub proof fn reading_ends_with_what_was_read(
    reading: LimitedErrorBody,
    lost: TransportError,
    at_end: ErrorBodyProgress,
    after_loss: ErrorBodyProgress,
)
    requires
        call_ensures(LimitedErrorBody::step, (reading, None), at_end),
        call_ensures(LimitedErrorBody::step, (reading, Some(Err(lost))), after_loss),
    ensures
        at_end matches ErrorBodyProgress::Done(body) && is_text_of(reading.gathered(), body),
        after_loss matches ErrorBodyProgress::Done(body) && body is None,
{
    if let ErrorBodyProgress::Done(body) = at_end {
        lemma_text_of(reading.gathered(), body);
    }
}

/// The code point of a character that may stand in the name of a method.
pub open spec fn is_method_code(code: int) -> bool {
    ||| 48 <= code <= 57
    ||| 65 <= code <= 90
    ||| 97 <= code <= 122
    ||| code == 33
    ||| 35 <= code <= 39
    ||| code == 42
    ||| code == 43
    ||| code == 45
    ||| code == 46
    ||| code == 94
    ||| code == 95
    ||| code == 96
    ||| code == 124
    ||| code == 126
}

/// What goes out for a request: its own address and time limit, the headers and
/// the bytes that were prepared, and the method it names, or `GET` where it
/// names none.
pub proof fn requests_go_out_as_prepared(
    req: Request,
    ready: PreparedBody,
    result: Result<OutgoingRequest, TransportError>,
)
    requires
        call_ensures(ReqwestTransport::build, (req, Ok(ready)), result),
    ensures
        result matches Ok(out) && {
            &&& out.url@ == req.url@
            &&& out.timeout == req.timeout
            &&& out.headers == ready.headers
            &&& out.body == ready.body
            &&& out.method@ == (if req.method@.len() > 0 && (forall|i: int|
                0 <= i < req.method@.len() ==> is_method_code(#[trigger] req.method@[i] as int)) {
                req.method@
            } else {
                "GET"@
            })
        },
{
    let name = req.method@;
    if super::is_method_name(name) {
        assert forall|i: int| 0 <= i < name.len() implies is_method_code(
            #[trigger] name[i] as int,
        ) by {
            assert(super::is_method_char(name[i]));
        }
    }
    if forall|i: int| 0 <= i < name.len() ==> is_method_code(#[trigger] name[i] as int) {
        assert forall|i: int| 0 <= i < name.len() implies super::is_method_char(
            #[trigger] name[i],
        ) by {
            assert(is_method_code(name[i] as int));
        }
    }
}

/// A request whose body cannot be prepared does not go out.
pub proof fn unprepared_requests_stay(
    req: Request,
    reason: String,
    result: Result<OutgoingRequest, TransportError>,
)
    requires
        call_ensures(ReqwestTransport::build, (req, Err(reason)), result),
    ensures
        result matches Err(TransportError::Build(told)) && told@ == reason@,
{
}

/// A request that ran out of time failed for that; any other failure is told in
/// the client's words.
pub proof fn failures_are_told_apart(timeout: bool, message: String, error: TransportError)
    requires
        call_ensures(ReqwestTransport::map_error, (timeout, message), error),
    ensures
        timeout ==> error is Timeout,
        !timeout ==> (error matches TransportError::Network(told) && told@ == message@),
{
}

/// What a trace shows of a body: JSON as it is written, encoded JSON as text,
/// the length of anything else, and nothing where there is none.
pub proof fn traces_show_bodies_by_kind(req: Request, shown: String)
    requires
        call_ensures(request_body_for_trace, (&req,), shown),
    ensures
        req.body is None ==> shown@.len() == 0,
        req.body matches Some(RequestBody::Json(value)) ==> shown@ == super::json_text(value),
        req.body matches Some(RequestBody::EncodedJson(bytes)) ==> shown@ == text::utf8_lossy(
            bytes@,
        ),
        req.body matches Some(RequestBody::Raw(bytes)) ==> shown@ == "<raw body: "@ + text::decimal(
            bytes@.len(),
        ) + " bytes>"@,
{
}

/// A request is traced exactly when its client traces and someone listens, and
/// then by its method, its address and what is shown of its body.
pub proof fn traces_name_method_address_and_body(
    transport: ReqwestTransport,
    req: Request,
    trace_enabled: bool,
    shown: String,
    line: Option<String>,
)
    requires
        call_ensures(ReqwestTransport::trace_request, (&transport, &req, trace_enabled), line),
        call_ensures(request_body_for_trace, (&req,), shown),
    ensures
        line is Some <==> transport.sender().request_logging && trace_enabled,
        line matches Some(told) ==> told@ == req.method@ + " to "@ + req.url@ + ": "@ + shown@,
{
}

/// A line is put together from its parts, in order.
pub proof fn trace_lines_join_their_parts(req: Request, shown: &str, line: String)
    requires
        call_ensures(request_trace, (&req, shown), line),
    ensures
        line@ == req.method@ + " to "@ + req.url@ + ": "@ + shown@,
{
}

/// An answer is a response exactly when its status is from 200 to 299, and it is
/// handed on as it came.
pub proof fn successful_answers_are_handed_on(
    url: String,
    status: u16,
    headers: http::HeaderMap<http::HeaderValue>,
    body: Vec<u8>,
    result: Result<Response, TransportError>,
)
    requires
        call_ensures(ReqwestTransport::execute_outcome, (url, status, headers, body), result),
    ensures
        result is Ok <==> 200 <= status <= 299,
        result matches Ok(response) ==> response.status == status && response.headers == headers
            && response.body@ == body@,
{
}

/// Any other answer is an error that keeps the status, the address, the headers
/// and, where the body is text, the body.
pub proof fn other_answers_are_kept_in_the_error(
    url: String,
    status: u16,
    headers: http::HeaderMap<http::HeaderValue>,
    body: Vec<u8>,
    result: Result<Response, TransportError>,
)
    requires
        call_ensures(ReqwestTransport::execute_outcome, (url, status, headers, body), result),
        !(200 <= status <= 299),
    ensures
        result matches Err(TransportError::Http { status: code, url: place, headers: kept, body: shown })
            && {
            &&& code == status
            &&& place matches Some(address) && address@ == url@
            &&& kept == Some(headers)
            &&& is_text_of(body@, shown)
        },
{
    if let Err(TransportError::Http { body: shown, .. }) = result {
        lemma_text_of(body@, shown);
    }
}

/// The error of an answer holds what it was made of.
pub proof fn http_errors_hold_their_parts(
    status: u16,
    url: String,
    headers: http::HeaderMap<http::HeaderValue>,
    body: Option<String>,
    error: TransportError,
)
    requires
        call_ensures(http_error, (status, url, headers, body), error),
    ensures
        error matches TransportError::Http { status: code, url: place, headers: kept, body: shown }
            && code == status && place == Some(url) && kept == Some(headers) && shown == body,
{
}

/// Success is a status from 200 to 299.
pub proof fn success_is_a_range(status: u16, yes: bool)
    requires
        call_ensures(success, (status,), yes),
    ensures
        yes <==> 200 <= status <= 299,
{
}

/// The body of a streaming answer goes to the caller exactly when the request
/// succeeded. Otherwise as much of it is read as the last bound allows, and all
/// of it where no bound was ever set.
pub proof fn streams_are_delivered_or_read_up_to_the_bound(
    client: HttpClient,
    plain: ReqwestTransport,
    first: usize,
    second: usize,
    bounded: ReqwestTransport,
    rebounded: ReqwestTransport,
    status: u16,
    plain_step: StreamStep,
    bounded_step: StreamStep,
    rebounded_step: StreamStep,
)
    requires
        call_ensures(ReqwestTransport::from_http_client, (client,), plain),
        call_ensures(ReqwestTransport::with_max_stream_error_body_bytes, (plain, first), bounded),
        call_ensures(
            ReqwestTransport::with_max_stream_error_body_bytes,
            (bounded, second),
            rebounded,
        ),
        call_ensures(ReqwestTransport::stream_step, (&plain, status), plain_step),
        call_ensures(ReqwestTransport::stream_step, (&bounded, status), bounded_step),
        call_ensures(ReqwestTransport::stream_step, (&rebounded, status), rebounded_step),
    ensures
        200 <= status <= 299 ==> plain_step is Deliver && bounded_step is Deliver
            && rebounded_step is Deliver,
        !(200 <= status <= 299) ==> plain_step is ReadAll && bounded_step
            == StreamStep::ReadLimited(first) && rebounded_step == StreamStep::ReadLimited(second),
{
}

/// A bare client is used as it is, and its requests are traced.
pub proof fn bare_clients_are_traced(bare: reqwest::Client, client: HttpClient)
    requires
        call_ensures(HttpClient::new, (bare,), client),
    ensures
        client.client == bare,
        client.request_logging,
{
}

/// A transport keeps the client it was made with, whatever bound it is given.
/// Made of a bare client it traces its requests.
pub proof fn transports_keep_their_client(
    client: HttpClient,
    bare: reqwest::Client,
    max_bytes: usize,
    made: ReqwestTransport,
    fresh: ReqwestTransport,
    bounded: ReqwestTransport,
    used: &reqwest::Client,
)
    requires
        call_ensures(ReqwestTransport::from_http_client, (client,), made),
        call_ensures(ReqwestTransport::new, (bare,), fresh),
        call_ensures(
            ReqwestTransport::with_max_stream_error_body_bytes,
            (made, max_bytes),
            bounded,
        ),
        call_ensures(ReqwestTransport::client, (&bounded,), used),
    ensures
        made.sender() == client,
        bounded.sender() == client,
        *used == client.client,
        fresh.sender().client == bare,
        fresh.sender().request_logging,
        fresh.error_body_bound() is None,
{
}

} // verus!
