//! Spec-level description of the ownership indices: which identifiers an
//! append-only index holds for a given owner, in insertion order.
//!
//! Records live in arenas where the record with identifier `i` sits at
//! position `i - 1`, so an index is characterized by the sequence of owner
//! keys read off the arena in order.

use vstd::prelude::*;

verus! {

/// An identifier is valid when it names a position of an arena with `count`
/// records: identifiers start at 1, and 0 is the reserved "unassigned" value.
pub open spec fn valid_id(id: u64, count: nat) -> bool {
    1 <= id && id <= count
}

/// The identifiers `i + 1` of the positions `i` of `keys` that hold `k`,
/// in ascending order: the contents of an append-only index for owner `k`
/// over an arena whose record at position `i` is owned by `keys[i]`.
pub open spec fn ids_matching(keys: Seq<u64>, k: u64) -> Seq<u64>
    decreases keys.len(),
{
    if keys.len() == 0 {
        Seq::empty()
    } else {
        let prefix = ids_matching(keys.drop_last(), k);
        if keys.last() == k {
            prefix.push(keys.len() as u64)
        } else {
            prefix
        }
    }
}

/// The identifiers `1, 2, .., n`: the contents of an index every record of
/// an arena of `n` records was appended to.
pub open spec fn id_sequence(n: nat) -> Seq<u64> {
    Seq::new(n, |i: int| (i + 1) as u64)
}

/// Every identifier an index holds names a record of the arena owned by `k`,
/// and the index is strictly ascending.
pub proof fn lemma_ids_matching_props(keys: Seq<u64>, k: u64)
    requires
        keys.len() <= u64::MAX,
    ensures
        forall|j: int| #![trigger ids_matching(keys, k)[j]]
            0 <= j < ids_matching(keys, k).len() ==> {
                &&& valid_id(ids_matching(keys, k)[j], keys.len())
                &&& keys[ids_matching(keys, k)[j] - 1] == k
            },
        forall|i: int, j: int|
            0 <= i < j < ids_matching(keys, k).len()
                ==> #[trigger] ids_matching(keys, k)[i] < #[trigger] ids_matching(keys, k)[j],
    decreases keys.len(),
{
    if keys.len() > 0 {
        let prefix = ids_matching(keys.drop_last(), k);
        let ids = ids_matching(keys, k);
        lemma_ids_matching_props(keys.drop_last(), k);
        assert(forall|i: int| 0 <= i < keys.len() - 1 ==> keys.drop_last()[i] == keys[i]);
        assert forall|j: int| 0 <= j < ids.len() implies {
            &&& valid_id(ids[j], keys.len())
            &&& keys[ids[j] - 1] == k
        } by {
            if j < prefix.len() {
                assert(ids[j] == prefix[j]);
                assert(keys.drop_last()[prefix[j] - 1] == keys[prefix[j] - 1]);
            } else {
                assert(keys.last() == k);
                assert(ids[j] == keys.len() as u64);
            }
        }
        assert forall|i: int, j: int| 0 <= i < j < ids.len() implies ids[i] < ids[j] by {
            assert(ids[i] == prefix[i]);
            if j < prefix.len() {
                assert(ids[j] == prefix[j]);
            } else {
                assert(valid_id(prefix[i], keys.drop_last().len()));
                assert(ids[j] == keys.len() as u64);
            }
        }
    }
}

/// Appending a record owned by `x` to the arena extends exactly the index of
/// owner `x`, with the new record's identifier; other indices are unchanged.
pub proof fn lemma_ids_matching_push(keys: Seq<u64>, k: u64, x: u64)
    ensures
        ids_matching(keys.push(x), k) == if x == k {
            ids_matching(keys, k).push((keys.len() + 1) as u64)
        } else {
            ids_matching(keys, k)
        },
{
    assert(keys.push(x).drop_last() =~= keys);
    assert(keys.push(x).last() == x);
}

} // verus!
