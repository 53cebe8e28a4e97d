//! A body that comes in chunks, each of which may fail to come.

use vstd::prelude::*;

use super::TransportError;

verus! {

/// The first `n` chunks all arrived.
pub open spec fn arrived(chunks: Seq<Result<Vec<u8>, TransportError>>, n: nat) -> bool {
    &&& n <= chunks.len()
    &&& forall|i: int| 0 <= i < n ==> #[trigger] chunks[i] is Ok
}

/// The bytes of the first `n` chunks, one after the other.
pub open spec fn joined(chunks: Seq<Result<Vec<u8>, TransportError>>, n: nat) -> Seq<u8>
    decreases n,
{
    if n == 0 {
        Seq::empty()
    } else {
        joined(chunks, (n - 1) as nat) + (chunks[n - 1]->Ok_0)@
    }
}

/// More chunks only add bytes at the end.
pub(crate) proof fn lemma_joined_grows(
    chunks: Seq<Result<Vec<u8>, TransportError>>,
    n: nat,
    m: nat,
)
    requires
        n <= m,
    ensures
        joined(chunks, n).len() <= joined(chunks, m).len(),
        joined(chunks, m).take(joined(chunks, n).len() as int) == joined(chunks, n),
    decreases m,
{
    if n < m {
        lemma_joined_grows(chunks, n, (m - 1) as nat);
        let k = joined(chunks, n).len() as int;
        assert(joined(chunks, m).take(k) =~= joined(chunks, (m - 1) as nat).take(k));
    } else {
        assert(joined(chunks, m).take(joined(chunks, n).len() as int) =~= joined(chunks, n));
    }
}

} // verus!
