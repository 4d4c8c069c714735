//! The storage laws: what holds of any sequence of store operations,
//! stated over the store's mathematical content and proved once for all
//! inputs. Each operation's own contract describes one step; these laws
//! relate the steps to one another.

use vstd::prelude::*;

use crate::store::ContentStore;

verus! {

/// The total length of a sequence of blobs.
pub open spec fn sum_lens(blobs: Seq<Seq<u8>>) -> int
    decreases blobs.len(),
{
    if blobs.len() == 0 {
        0
    } else {
        sum_lens(blobs.drop_last()) + blobs.last().len()
    }
}

/// Metrics consistency: over any run of uploads whose identifiers were all
/// fresh (no collisions), the item count grows by exactly the number of
/// uploads and the byte total by exactly the sum of their sizes, on top of
/// whatever the store held before. `chain` is the row of store states the
/// run passes through; each step is described by the upload contract.
pub proof fn lemma_gauges_after_fresh_uploads(
    chain: Seq<ContentStore>,
    ids: Seq<Seq<char>>,
    blobs: Seq<Seq<u8>>,
)
    requires
        chain.len() == ids.len() + 1,
        blobs.len() == ids.len(),
        forall|i: int|
            0 <= i < ids.len() ==> ({
                &&& !(#[trigger] chain[i]).contents().contains_key(ids[i])
                &&& chain[i + 1].contents() == chain[i].contents().insert(ids[i], blobs[i])
                &&& chain[i + 1].item_count() == chain[i].item_count() + 1
                &&& chain[i + 1].total_bytes() == chain[i].total_bytes() + blobs[i].len()
            }),
    ensures
        chain.last().item_count() == chain[0].item_count() + ids.len(),
        chain.last().total_bytes() == chain[0].total_bytes() + sum_lens(blobs),
    decreases ids.len(),
{
    if ids.len() > 0 {
        let n = ids.len() as int;
        assert(forall|i: int|
            0 <= i < n ==> #[trigger] chain.drop_last()[i] == chain[i]);
        assert(forall|i: int|
            0 <= i < n - 1 ==> #[trigger] ids.drop_last()[i] == ids[i]);
        assert(forall|i: int|
            0 <= i < n - 1 ==> #[trigger] blobs.drop_last()[i] == blobs[i]);
        lemma_gauges_after_fresh_uploads(chain.drop_last(), ids.drop_last(), blobs.drop_last());
        assert(chain.drop_last().last() == chain[n - 1]);
        assert(chain.last() == chain[n]);
    }
}

/// Round trip: a store into which content was just filed under an
/// identifier answers a read of that identifier with exactly that content.
pub proof fn lemma_round_trip(pre: ContentStore, post: ContentStore, id: Seq<char>, b: Seq<u8>)
    requires
        post.contents() == pre.contents().insert(id, b),
    ensures
        post.contents().contains_key(id),
        post.contents()[id] == b,
{
}

/// Overwrite: filing content twice under one identifier leaves a store
/// equal to one where only the second upload ever happened; no trace of the
/// first content remains.
pub proof fn lemma_overwrite(
    m: Map<Seq<char>, Seq<u8>>,
    id: Seq<char>,
    first: Seq<u8>,
    second: Seq<u8>,
)
    ensures
        m.insert(id, first).insert(id, second) == m.insert(id, second),
{
    assert(m.insert(id, first).insert(id, second) =~= m.insert(id, second));
}

/// Not-found symmetry, never written: an identifier absent from the store
/// is reported `NotFound` by read and delete alike, which both answer by
/// key presence and nothing else.
pub proof fn lemma_never_written(id: Seq<char>)
    ensures
        !Map::<Seq<char>, Seq<u8>>::empty().contains_key(id),
{
}

/// Not-found symmetry, already deleted: right after a delete of an
/// identifier, that identifier is absent, so read and delete both report
/// `NotFound` for it.
pub proof fn lemma_deleted_is_absent(pre: ContentStore, post: ContentStore, id: Seq<char>)
    requires
        post.contents() == pre.contents().remove(id),
    ensures
        !post.contents().contains_key(id),
{
}

} // verus!
