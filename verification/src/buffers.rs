//! What the two writers share: joined byte slices, the largest size of a Python object,
//! and the capacity of a byte vector.
use vstd::prelude::*;

verus! {

/// The bytes of all the buffers, one after the other.
pub open spec fn concat_all(bufs: Seq<Seq<u8>>) -> Seq<u8>
    decreases bufs.len(),
{
    if bufs.len() == 0 {
        Seq::empty()
    } else {
        concat_all(bufs.drop_last()) + bufs.last()
    }
}

/// The contents of a list of byte slices.
pub open spec fn slices_view(bufs: Seq<&[u8]>) -> Seq<Seq<u8>> {
    bufs.map_values(|b: &[u8]| b@)
}

/// The largest size that a Python object may have.
pub open spec fn max_size() -> int {
    isize::MAX as int
}

/// Joining one more buffer appends it.
pub(crate) proof fn lemma_concat_all_push(bufs: Seq<Seq<u8>>, i: int)
    requires
        0 <= i < bufs.len(),
    ensures
        concat_all(bufs.take(i + 1)) == concat_all(bufs.take(i)) + bufs[i],
{
    assert(bufs.take(i + 1).drop_last() =~= bufs.take(i));
}

/// The first buffers joined are no longer than all of them joined.
pub(crate) proof fn lemma_concat_prefix_len(bufs: Seq<Seq<u8>>, k: int)
    requires
        0 <= k <= bufs.len(),
    ensures
        concat_all(bufs.take(k)).len() <= concat_all(bufs).len(),
    decreases bufs.len() - k,
{
    if k < bufs.len() {
        lemma_concat_all_push(bufs, k);
        lemma_concat_prefix_len(bufs, k + 1);
    } else {
        assert(bufs.take(k) =~= bufs);
    }
}

/// `Vec::capacity`: the number of elements the vector can hold without reallocating,
/// which the documentation of `Vec` guarantees to be at least its length. What it is beyond
/// that depends on the allocator and is left unsaid.
#[verifier::external_body]
pub(crate) fn vec_capacity(v: &Vec<u8>) -> (c: usize)
    ensures
        c >= v@.len(),
{
    v.capacity()
}

} // verus!
