//! What a fetch makes of the answer to its request.

use vstd::prelude::*;

use super::{ApiError, MetadataRequest};
use crate::headers;
use crate::models::ModelInfo;
use crate::text;
use crate::transport::{chunk, Response, StreamResponse, TransportError};

verus! {

/// A fetch of a body with its entity tag.
#[derive(Debug)]
pub struct MetadataFetch {
    pub request: MetadataRequest,
}

/// What a fetch gives for that answer: its body and its entity tag.
pub open spec fn is_found(
    reply: Result<Response, ApiError>,
    result: Result<(Vec<u8>, Option<String>), ApiError>,
) -> bool {
    match reply {
        Ok(response) => result matches Ok(found) && found.0 == response.body && text::viewed(
            found.1,
        ) == headers::etag_of(response.headers),
        Err(error) => result == Err::<(Vec<u8>, Option<String>), _>(error),
    }
}

fn body_and_tag(reply: Result<Response, ApiError>) -> (result: Result<
    (Vec<u8>, Option<String>),
    ApiError,
>)
    ensures
        is_found(reply, result),
{
    match reply {
        Ok(response) => {
            let tag = headers::etag(&response.headers);
            Ok((response.body, tag))
        },
        Err(error) => Err(error),
    }
}

impl MetadataFetch {
    /// The body and the entity tag of the answer.
    pub fn finish(self, reply: Result<Response, ApiError>) -> (result: Result<
        (Vec<u8>, Option<String>),
        ApiError,
    >)
        ensures
            is_found(reply, result),
    {
        body_and_tag(reply)
    }
}

/// What is said of a body that outgrows every length.
pub open spec fn overflow_message() -> Seq<char> {
    "model metadata response size overflowed"@
}

/// What is said of a body of more than `max_bytes`.
pub open spec fn too_large_message(max_bytes: usize) -> Seq<char> {
    "model metadata response exceeds maximum size of "@ + text::decimal(max_bytes as nat)
        + " bytes"@
}

/// What is said of a body that would be so long, where that is too long.
pub open spec fn length_error(len: nat, max_bytes: usize) -> Seq<char> {
    if len > usize::MAX {
        overflow_message()
    } else {
        too_large_message(max_bytes)
    }
}

/// The body of a limited fetch while it arrives.
#[derive(Debug)]
pub struct LimitedBody {
    body: Vec<u8>,
    etag: Option<String>,
    max_bytes: usize,
}

impl LimitedBody {
    #[verifier::type_invariant]
    spec fn is_within_limit(&self) -> bool {
        self.body@.len() <= self.max_bytes
    }

    /// The bytes that have arrived.
    pub closed spec fn gathered(&self) -> Seq<u8> {
        self.body@
    }

    /// The entity tag of the response.
    pub closed spec fn tag(&self) -> Option<Seq<char>> {
        text::viewed(self.etag)
    }

    /// How many bytes may arrive.
    pub closed spec fn limit(&self) -> usize {
        self.max_bytes
    }

    /// Takes the next chunk, or says why the fetch fails at it.
    pub fn accept(self, chunk: Result<Vec<u8>, TransportError>) -> (result: Result<Self, ApiError>)
        ensures
            match chunk {
                Err(error) => result == Err::<Self, _>(ApiError::Transport(error)),
                Ok(bytes) => match result {
                    Ok(next) => {
                        &&& next.gathered() == self.gathered() + bytes@
                        &&& next.gathered().len() <= self.limit()
                        &&& next.tag() == self.tag()
                        &&& next.limit() == self.limit()
                    },
                    Err(ApiError::Stream(message)) => {
                        &&& self.gathered().len() + bytes@.len() > self.limit()
                        &&& message@ == length_error(
                            self.gathered().len() + bytes@.len(),
                            self.limit(),
                        )
                    },
                    Err(ApiError::Transport(_)) => false,
                },
            },
    {
        proof {
            use_type_invariant(&self);
        }
        let bytes = match chunk {
            Ok(bytes) => bytes,
            Err(error) => return Err(ApiError::Transport(error)),
        };
        let max_bytes: usize = self.max_bytes;
        let etag = self.etag;
        let mut body = self.body;
        let next_len: usize = match body.len().checked_add(bytes.len()) {
            Some(next_len) => next_len,
            None => {
                return Err(
                    ApiError::Stream("model metadata response size overflowed".to_owned()),
                );
            },
        };
        if next_len > max_bytes {
            let most = text::decimal_text(max_bytes as u64);
            return Err(
                ApiError::Stream(
                    "model metadata response exceeds maximum size of ".to_owned().concat(
                        most.as_str(),
                    ).concat(" bytes"),
                ),
            );
        }
        let ghost before = body@;
        body.extend_from_slice(bytes.as_slice());
        assert(body@ =~= before + bytes@);
        Ok(LimitedBody { body, etag, max_bytes })
    }

    /// The body and the entity tag, at the end of the response.
    pub fn finish(self) -> (found: (Vec<u8>, Option<String>))
        ensures
            found.0@ == self.gathered(),
            found.0@.len() <= self.limit(),
            text::viewed(found.1) == self.tag(),
    {
        proof {
            use_type_invariant(&self);
        }
        (self.body, self.etag)
    }
}

/// A fetch of a body with its entity tag that refuses a body of more than
/// `max_bytes` as soon as it outgrows them.
#[derive(Debug)]
pub struct LimitedFetch {
    pub request: MetadataRequest,
    pub max_bytes: usize,
}

/// The fetch goes well up to the chunk after the first `n`, and that chunk is
/// the first that it cannot take.
pub open spec fn fails_at(
    chunks: Seq<Result<Vec<u8>, TransportError>>,
    max_bytes: usize,
    n: nat,
) -> bool {
    &&& n < chunks.len()
    &&& chunk::arrived(chunks, n)
    &&& chunk::joined(chunks, n).len() <= max_bytes
    &&& chunks[n as int] is Ok ==> chunk::joined(chunks, n + 1).len() > max_bytes
}

/// The fetch can take every chunk.
pub open spec fn fits(chunks: Seq<Result<Vec<u8>, TransportError>>, max_bytes: usize) -> bool {
    &&& chunk::arrived(chunks, chunks.len())
    &&& chunk::joined(chunks, chunks.len()).len() <= max_bytes
}

/// What a limited fetch gives for a body that comes in these chunks.
pub open spec fn is_limited_outcome(
    chunks: Seq<Result<Vec<u8>, TransportError>>,
    tag: Option<Seq<char>>,
    max_bytes: usize,
    result: Result<(Vec<u8>, Option<String>), ApiError>,
) -> bool {
    match result {
        Ok(found) => {
            &&& fits(chunks, max_bytes)
            &&& found.0@ == chunk::joined(chunks, chunks.len())
            &&& text::viewed(found.1) == tag
        },
        Err(ApiError::Transport(error)) => exists|n: nat| #[trigger]
            fails_at(chunks, max_bytes, n) && chunks[n as int] == Err::<Vec<u8>, _>(error),
        Err(ApiError::Stream(message)) => exists|n: nat| #[trigger]
            fails_at(chunks, max_bytes, n) && chunks[n as int] is Ok && message@ == length_error(
                chunk::joined(chunks, n + 1).len(),
                max_bytes,
            ),
    }
}

/// A fetch cannot fail at two different chunks, nor at a chunk of a body that it
/// can take: every body has one outcome.
pub proof fn limited_outcome_is_settled(
    chunks: Seq<Result<Vec<u8>, TransportError>>,
    max_bytes: usize,
    n: nat,
)
    requires
        fails_at(chunks, max_bytes, n),
    ensures
        !fits(chunks, max_bytes),
        forall|m: nat| #[trigger] fails_at(chunks, max_bytes, m) ==> m == n,
{
    if fits(chunks, max_bytes) {
        assert(chunks[n as int] is Ok);
        chunk::lemma_joined_grows(chunks, n + 1, chunks.len());
    }
    assert forall|m: nat| #[trigger] fails_at(chunks, max_bytes, m) implies m == n by {
        if m < n {
            assert(chunks[m as int] is Ok);
            chunk::lemma_joined_grows(chunks, m + 1, n);
        }
        if n < m {
            assert(chunks[n as int] is Ok);
            chunk::lemma_joined_grows(chunks, n + 1, m);
        }
    }
}

impl LimitedFetch {
    /// Before the first chunk of a response with these headers.
    pub fn begin(self, headers: &http::HeaderMap<http::HeaderValue>) -> (body: LimitedBody)
        ensures
            body.gathered() == Seq::<u8>::empty(),
            body.tag() == headers::etag_of(*headers),
            body.limit() == self.max_bytes,
    {
        LimitedBody {
            body: Vec::new(),
            etag: headers::etag(headers),
            max_bytes: self.max_bytes,
        }
    }

    /// The body and the entity tag of a response whose chunks are at hand.
    pub fn collect(
        self,
        reply: Result<StreamResponse<Vec<Result<Vec<u8>, TransportError>>>, ApiError>,
    ) -> (result: Result<(Vec<u8>, Option<String>), ApiError>)
        ensures
            match reply {
                Ok(response) => is_limited_outcome(
                    response.bytes@,
                    headers::etag_of(response.headers),
                    self.max_bytes,
                    result,
                ),
                Err(error) => result == Err::<(Vec<u8>, Option<String>), _>(error),
            },
    {
        match reply {
            Ok(response) => self.gather(&response.headers, response.bytes),
            Err(error) => Err(error),
        }
    }

    fn gather(
        self,
        headers: &http::HeaderMap<http::HeaderValue>,
        chunks: Vec<Result<Vec<u8>, TransportError>>,
    ) -> (result: Result<(Vec<u8>, Option<String>), ApiError>)
        ensures
            is_limited_outcome(chunks@, headers::etag_of(*headers), self.max_bytes, result),
    {
        let ghost all = chunks@;
        let ghost max_bytes = self.max_bytes;
        let mut body = self.begin(headers);
        let ghost tag = body.tag();
        let ghost mut count: nat = 0;
        for part in it: chunks
            invariant
                it.seq() == all,
                count == it.index(),
                chunk::arrived(all, count),
                body.gathered() == chunk::joined(all, count),
                body.gathered().len() <= max_bytes,
                body.limit() == max_bytes == self.max_bytes,
                body.tag() == tag,
        {
            assert(part == all[count as int]);
            assert(part is Ok ==> chunk::joined(all, count + 1) == chunk::joined(
                all,
                count,
            ) + (part->Ok_0)@);
            match body.accept(part) {
                Ok(next) => {
                    body = next;
                },
                Err(error) => {
                    assert(fails_at(all, max_bytes, count));
                    return Err(error);
                },
            }
            proof {
                count = count + 1;
            }
        }
        Ok(body.finish())
    }
}

/// A fetch of the models that a provider lists.
#[derive(Debug)]
pub struct ModelsFetch {
    pub request: MetadataRequest,
}

/// What is said of a body that could not be decoded.
pub open spec fn decode_message(reason: Seq<char>, body: Seq<u8>) -> Seq<char> {
    "failed to decode models response: "@ + reason + "; body: "@ + text::utf8_lossy(body)
}

/// What listing models gives, where decoding the body gave `decoded`.
pub open spec fn is_listing(
    decoded: Result<Vec<ModelInfo>, String>,
    body: Seq<u8>,
    tag: Option<Seq<char>>,
    result: Result<(Vec<ModelInfo>, Option<String>), ApiError>,
) -> bool {
    match decoded {
        Ok(models) => result matches Ok(found) && found.0 == models && text::viewed(found.1)
            == tag,
        Err(reason) => result matches Err(ApiError::Stream(message)) && message@ == decode_message(
            reason@,
            body,
        ),
    }
}

/// The line for a body that could not be decoded, where `shown` is what it
/// shows of the body.
pub fn decode_failure(reason: &str, shown: &str) -> (message: String)
    ensures
        message@ == "failed to decode models response: "@ + reason@ + "; body: "@ + shown@,
{
    "failed to decode models response: ".to_owned().concat(reason).concat("; body: ").concat(shown)
}

impl ModelsFetch {
    /// The models and the entity tag of a body that was decoded.
    pub fn listing(
        decoded: Result<Vec<ModelInfo>, String>,
        body: &[u8],
        tag: Option<String>,
    ) -> (result: Result<(Vec<ModelInfo>, Option<String>), ApiError>)
        ensures
            is_listing(decoded, body@, text::viewed(tag), result),
    {
        match decoded {
            Ok(models) => Ok((models, tag)),
            Err(reason) => {
                let shown = text::lossy_text(body);
                Err(ApiError::Stream(decode_failure(reason.as_str(), shown.as_str())))
            },
        }
    }

    /// The models and the entity tag of the answer. `decode` reads the body.
    pub fn finish<D: FnOnce(&[u8]) -> Result<Vec<ModelInfo>, String>>(
        self,
        reply: Result<Response, ApiError>,
        decode: D,
    ) -> (result: Result<(Vec<ModelInfo>, Option<String>), ApiError>)
        requires
            forall|body: &[u8]|
                reply matches Ok(response) && body@ == response.body@
                    ==> #[trigger] decode.requires((body,)),
        ensures
            match reply {
                Ok(response) => exists|body: &[u8], decoded: Result<Vec<ModelInfo>, String>| #[trigger]
                    decode.ensures((body,), decoded) && body@ == response.body@ && is_listing(
                        decoded,
                        response.body@,
                        headers::etag_of(response.headers),
                        result,
                    ),
                Err(error) => result == Err::<(Vec<ModelInfo>, Option<String>), _>(error),
            },
    {
        let (body, tag) = match body_and_tag(reply) {
            Ok(found) => found,
            Err(error) => return Err(error),
        };
        let bytes = body.as_slice();
        let decoded = decode(bytes);
        assert(decode.ensures((bytes,), decoded));
        Self::listing(decoded, bytes, tag)
    }
}

} // verus!
