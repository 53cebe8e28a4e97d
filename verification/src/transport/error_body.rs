//! The body that goes into an error, read up to a bound.

use vstd::prelude::*;

use super::{chunk, TransportError};
use crate::text;

verus! {

/// An error body that is being read: what has come so far, and how much may
/// come.
#[derive(Debug)]
pub struct LimitedErrorBody {
    bytes: Vec<u8>,
    max_bytes: usize,
}

/// How far the reading of an error body has come.
#[derive(Debug)]
pub enum ErrorBodyProgress {
    /// The next chunk is wanted.
    More(LimitedErrorBody),
    /// This is the body, where it has a text.
    Done(Option<String>),
}

impl LimitedErrorBody {
    #[verifier::type_invariant]
    spec fn has_room(&self) -> bool {
        self.bytes@.len() < self.max_bytes
    }

    /// The bytes that have come so far.
    pub closed spec fn gathered(&self) -> Seq<u8> {
        self.bytes@
    }

    /// How many bytes may come.
    pub closed spec fn bound(&self) -> usize {
        self.max_bytes
    }

    /// Before the first chunk of a body of which at most `max_bytes` are read.
    pub fn start(max_bytes: usize) -> (progress: ErrorBodyProgress)
        ensures
            is_progress(Seq::empty(), max_bytes, progress),
    {
        let room: usize = if max_bytes < 8192 {
            max_bytes
        } else {
            8192
        };
        Self::progress(Vec::with_capacity(room), max_bytes)
    }

    /// Goes on with the next chunk: one that came, one that failed to come, or
    /// the end of the body.
    pub fn step(self, next: Option<Result<Vec<u8>, TransportError>>) -> (progress:
        ErrorBodyProgress)
        ensures
            match next {
                Some(Ok(chunk)) => is_progress(
                    up_to(self.gathered() + chunk@, self.bound()),
                    self.bound(),
                    progress,
                ),
                Some(Err(_)) => progress == ErrorBodyProgress::Done(None),
                None => progress matches ErrorBodyProgress::Done(body) && text::viewed(body)
                    == text::utf8_text(self.gathered()),
            },
    {
        proof {
            use_type_invariant(&self);
        }
        let max_bytes: usize = self.max_bytes;
        let mut bytes = self.bytes;
        match next {
            Some(Ok(chunk)) => {
                let ghost before = bytes@;
                let remaining: usize = max_bytes - bytes.len();
                let copy_len: usize = if remaining < chunk.len() {
                    remaining
                } else {
                    chunk.len()
                };
                bytes.extend_from_slice(vstd::slice::slice_subrange(chunk.as_slice(), 0, copy_len));
                assert(bytes@ =~= up_to(before + chunk@, max_bytes));
                Self::progress(bytes, max_bytes)
            },
            Some(Err(_)) => ErrorBodyProgress::Done(None),
            None => ErrorBodyProgress::Done(text::text_from_utf8(bytes)),
        }
    }

    fn progress(bytes: Vec<u8>, max_bytes: usize) -> (progress: ErrorBodyProgress)
        requires
            bytes@.len() <= max_bytes,
        ensures
            is_progress(bytes@, max_bytes, progress),
    {
        if bytes.len() < max_bytes {
            ErrorBodyProgress::More(LimitedErrorBody { bytes, max_bytes })
        } else {
            ErrorBodyProgress::Done(text::text_from_utf8(bytes))
        }
    }
}

/// The first `max_bytes` of the bytes, or all of them where there are fewer.
pub open spec fn up_to(bytes: Seq<u8>, max_bytes: usize) -> Seq<u8> {
    if bytes.len() <= max_bytes {
        bytes
    } else {
        bytes.take(max_bytes as int)
    }
}

/// With these bytes at hand the reading has come so far: it goes on while there
/// is room, and is done with the text of the bytes when there is none.
pub open spec fn is_progress(
    bytes: Seq<u8>,
    max_bytes: usize,
    progress: ErrorBodyProgress,
) -> bool {
    match progress {
        ErrorBodyProgress::More(body) => {
            &&& bytes.len() < max_bytes
            &&& body.gathered() == bytes
            &&& body.bound() == max_bytes
        },
        ErrorBodyProgress::Done(body) => {
            &&& bytes.len() >= max_bytes
            &&& text::viewed(body) == text::utf8_text(bytes)
        },
    }
}

/// Reads an error body from its chunks, up to `max_bytes` of it.
///
/// Chunks after the bound are not looked at. A chunk that failed to come before
/// the bound was reached leaves no body at all, and so do bytes that are no
/// text.
pub fn read_limited_error_body(
    chunks: Vec<Result<Vec<u8>, TransportError>>,
    max_bytes: usize,
) -> (body: Option<String>)
    ensures
        forall|n: nat|
            #![trigger chunk::joined(chunks@, n)]
            chunk::arrived(chunks@, n) && chunk::joined(chunks@, n).len() >= max_bytes ==> text::viewed(body)
                == text::utf8_text(chunk::joined(chunks@, n).take(max_bytes as int)),
        forall|n: nat|
            #![trigger chunk::joined(chunks@, n)]
            chunk::arrived(chunks@, n) && n < chunks@.len() && chunks@[n as int] is Err && chunk::joined(
                chunks@,
                n,
            ).len() < max_bytes ==> body is None,
        chunk::arrived(chunks@, chunks@.len()) && chunk::joined(chunks@, chunks@.len()).len() <= max_bytes
            ==> text::viewed(body) == text::utf8_text(chunk::joined(chunks@, chunks@.len())),
        body matches Some(t) ==> text::byte_count(t@) <= max_bytes,
{
    let ghost all = chunks@;
    let mut reading = match LimitedErrorBody::start(max_bytes) {
        ErrorBodyProgress::More(reading) => reading,
        ErrorBodyProgress::Done(body) => {
            proof {
                text::lemma_text_bytes(Seq::empty());
                assert forall|n: nat| #[trigger] chunk::joined(all, n).take(0) == Seq::<u8>::empty() by {
                    assert(chunk::joined(all, n).take(0) =~= Seq::<u8>::empty());
                }
                assert(chunk::joined(all, all.len()).len() <= 0 ==> chunk::joined(all, all.len())
                    =~= Seq::<u8>::empty());
            }
            return body;
        },
    };
    let ghost mut count: nat = 0;
    for part in it: chunks
        invariant
            it.seq() == all,
            count == it.index(),
            chunk::arrived(all, count),
            reading.gathered() == chunk::joined(all, count),
            reading.bound() == max_bytes,
            chunk::joined(all, count).len() < max_bytes,
    {
        assert(part == all[count as int]);
        let ghost failed = part is Err;
        match reading.step(Some(part)) {
            ErrorBodyProgress::More(next) => {
                proof {
                    assert(!failed);
                    assert(chunk::joined(all, count + 1) == chunk::joined(all, count) + (all[count as int]->Ok_0)@);
                }
                reading = next;
            },
            ErrorBodyProgress::Done(body) => {
                proof {
                    if !failed {
                        assert(chunk::joined(all, count + 1) == chunk::joined(all, count)
                            + (all[count as int]->Ok_0)@);
                        text::lemma_text_bytes(up_to(chunk::joined(all, count + 1), max_bytes));
                    }
                    lemma_done(all, max_bytes, count, failed, text::viewed(body));
                }
                return body;
            },
        }
        proof {
            count = count + 1;
        }
    }
    assert forall|n: nat| chunk::arrived(all, n) implies #[trigger] chunk::joined(all, n).len() < max_bytes by {
        chunk::lemma_joined_grows(all, n, count);
    }
    proof {
        text::lemma_text_bytes(chunk::joined(all, count));
    }
    match reading.step(None) {
        ErrorBodyProgress::Done(body) => body,
        ErrorBodyProgress::More(_) => None,
    }
}

/// The reading ended at the chunk after the first `count`: it failed, or it
/// filled the body.
proof fn lemma_done(
    all: Seq<Result<Vec<u8>, TransportError>>,
    max_bytes: usize,
    count: nat,
    failed: bool,
    body: Option<Seq<char>>,
)
    requires
        count < all.len(),
        chunk::arrived(all, count),
        chunk::joined(all, count).len() < max_bytes,
        failed == all[count as int] is Err,
        failed ==> body is None,
        !failed ==> chunk::joined(all, count + 1).len() >= max_bytes && body == text::utf8_text(
            up_to(chunk::joined(all, count + 1), max_bytes),
        ),
    ensures
        forall|n: nat|
            #![trigger chunk::joined(all, n)]
            chunk::arrived(all, n) && chunk::joined(all, n).len() >= max_bytes ==> body == text::utf8_text(
                chunk::joined(all, n).take(max_bytes as int),
            ),
        forall|n: nat|
            #![trigger chunk::joined(all, n)]
            chunk::arrived(all, n) && n < all.len() && all[n as int] is Err && chunk::joined(all, n).len()
                < max_bytes ==> body is None,
        chunk::arrived(all, all.len()) && chunk::joined(all, all.len()).len() <= max_bytes ==> body
            == text::utf8_text(chunk::joined(all, all.len())),
{
    assert forall|n: nat|
        chunk::arrived(all, n) && (#[trigger] chunk::joined(all, n)).len() >= max_bytes implies body
        == text::utf8_text(chunk::joined(all, n).take(max_bytes as int)) by {
        if n <= count {
            chunk::lemma_joined_grows(all, n, count);
        } else {
            assert(all[count as int] is Ok);
            chunk::lemma_joined_grows(all, count + 1, n);
            let short = chunk::joined(all, count + 1);
            assert(chunk::joined(all, n).take(max_bytes as int) =~= short.take(max_bytes as int)) by {
                assert(chunk::joined(all, n).take(short.len() as int) == short);
                assert forall|i: int| 0 <= i < max_bytes implies chunk::joined(all, n)[i] == short[i] by {
                    assert(chunk::joined(all, n).take(short.len() as int)[i] == short[i]);
                }
            }
            assert(up_to(short, max_bytes) =~= short.take(max_bytes as int));
        }
    }
    assert forall|n: nat|
        chunk::arrived(all, n) && n < all.len() && all[n as int] is Err && (#[trigger] chunk::joined(
            all,
            n,
        )).len() < max_bytes implies body is None by {
        if !failed {
            if n <= count {
                if n < count {
                    assert(all[n as int] is Ok);
                }
            } else {
                chunk::lemma_joined_grows(all, count + 1, n);
            }
        }
    }
    if chunk::arrived(all, all.len()) && chunk::joined(all, all.len()).len() <= max_bytes {
        assert(all[count as int] is Ok);
        chunk::lemma_joined_grows(all, count + 1, all.len());
        assert(chunk::joined(all, all.len()).take(chunk::joined(all, count + 1).len() as int) =~= chunk::joined(
            all,
            all.len(),
        ));
    }
}

} // verus!
