//! An ownership index: owner key -> append-only sequence of identifiers,
//! stored as an association list whose abstract value is a `Map`. An absent
//! owner behaves as the empty sequence.

use vstd::prelude::*;

verus! {

/// The map an association list stands for, later entries shadowing earlier
/// ones (well-formed lists have no two entries under one key).
pub open spec fn entries_map(s: Seq<(u64, Vec<u64>)>) -> Map<u64, Seq<u64>>
    decreases s.len(),
{
    if s.len() == 0 {
        Map::empty()
    } else {
        entries_map(s.drop_last()).insert(s.last().0, s.last().1@)
    }
}

/// What an index holds for owner `k`: its sequence when the key is present,
/// the empty sequence otherwise.
pub open spec fn index_seq(m: Map<u64, Seq<u64>>, k: u64) -> Seq<u64> {
    if m.contains_key(k) {
        m[k]
    } else {
        Seq::empty()
    }
}

/// A key is in the map exactly when some entry holds it, and the map then
/// returns that entry's sequence (keys are distinct).
proof fn lemma_entries_map_props(s: Seq<(u64, Vec<u64>)>)
    requires
        forall|i: int, j: int| 0 <= i < j < s.len() ==> (#[trigger] s[i]).0 != (#[trigger] s[j]).0,
    ensures
        forall|k: u64| #[trigger] entries_map(s).contains_key(k)
            <==> exists|i: int| 0 <= i < s.len() && (#[trigger] s[i]).0 == k,
        forall|i: int| 0 <= i < s.len()
            ==> entries_map(s).contains_key((#[trigger] s[i]).0) && entries_map(s)[s[i].0] == s[i].1@,
    decreases s.len(),
{
    if s.len() > 0 {
        lemma_entries_map_props(s.drop_last());
        assert(forall|i: int| 0 <= i < s.len() - 1 ==> s.drop_last()[i] == s[i]);
        assert forall|k: u64| #[trigger] entries_map(s).contains_key(k)
            implies exists|i: int| 0 <= i < s.len() && (#[trigger] s[i]).0 == k by {
            if k == s.last().0 {
                assert(0 <= s.len() - 1 < s.len() && (s[s.len() - 1]).0 == k);
            } else {
                assert(entries_map(s.drop_last()).contains_key(k));
                let i = choose|i: int|
                    0 <= i < s.drop_last().len() && (#[trigger] s.drop_last()[i]).0 == k;
                assert(0 <= i < s.len() && (s[i]).0 == k);
            }
        }
        assert forall|i: int| 0 <= i < s.len()
            implies entries_map(s).contains_key((#[trigger] s[i]).0)
                && entries_map(s)[s[i].0] == s[i].1@ by {
            if i < s.len() - 1 {
                assert(s.drop_last()[i] == s[i]);
                assert((s[i]).0 != (s[s.len() - 1]).0);
            }
        }
    }
}

/// Replacing the entry that holds key `v.0` with `v` is, abstractly, one map
/// insertion under that key.
proof fn lemma_entries_map_update(s: Seq<(u64, Vec<u64>)>, i: int, v: (u64, Vec<u64>))
    requires
        forall|i: int, j: int| 0 <= i < j < s.len() ==> (#[trigger] s[i]).0 != (#[trigger] s[j]).0,
        0 <= i < s.len(),
        (s[i]).0 == v.0,
    ensures
        entries_map(s.update(i, v)) == entries_map(s).insert(v.0, v.1@),
    decreases s.len(),
{
    let s2 = s.update(i, v);
    if i == s.len() - 1 {
        assert(s2.drop_last() =~= s.drop_last());
        assert(entries_map(s.drop_last()).insert(s.last().0, s.last().1@).insert(v.0, v.1@)
            =~= entries_map(s.drop_last()).insert(v.0, v.1@));
    } else {
        assert(s2.drop_last() =~= s.drop_last().update(i, v));
        assert(s.drop_last()[i] == s[i]);
        lemma_entries_map_update(s.drop_last(), i, v);
        assert((s[i]).0 != (s[s.len() - 1]).0);
        assert(entries_map(s.drop_last()).insert(v.0, v.1@).insert(s.last().0, s.last().1@)
            =~= entries_map(s.drop_last()).insert(s.last().0, s.last().1@).insert(v.0, v.1@));
    }
}

fn copy_ids(v: &Vec<u64>) -> (r: Vec<u64>)
    ensures
        r@ == v@,
{
    let mut r: Vec<u64> = Vec::new();
    let n = v.len();
    let mut i: usize = 0;
    while i < n
        invariant
            n == v@.len(),
            0 <= i <= n,
            r@ == v@.subrange(0, i as int),
        decreases n - i,
    {
        r.push(v[i]);
        proof {
            assert(r@ =~= v@.subrange(0, i + 1));
        }
        i = i + 1;
    }
    proof {
        assert(r@ =~= v@);
    }
    r
}

/// One ownership index.
pub struct IdIndex {
    pub entries: Vec<(u64, Vec<u64>)>,
}

impl View for IdIndex {
    type V = Map<u64, Seq<u64>>;

    open spec fn view(&self) -> Map<u64, Seq<u64>> {
        entries_map(self.entries@)
    }
}

impl IdIndex {
    /// No two entries hold the same owner key.
    pub open spec fn wf(&self) -> bool {
        forall|i: int, j: int|
            0 <= i < j < self.entries@.len()
                ==> (#[trigger] self.entries@[i]).0 != (#[trigger] self.entries@[j]).0
    }

    pub fn new() -> (r: IdIndex)
        ensures
            r.wf(),
            r@ == Map::<u64, Seq<u64>>::empty(),
    {
        IdIndex { entries: Vec::new() }
    }

    /// The identifiers recorded for `owner`, in insertion order; empty when
    /// nothing was ever recorded for it.
    #[verifier::loop_isolation(false)]
    pub fn get_ids(&self, owner: u64) -> (r: Vec<u64>)
        requires
            self.wf(),
        ensures
            r@ == index_seq(self@, owner),
    {
        proof {
            lemma_entries_map_props(self.entries@);
        }
        let n = self.entries.len();
        let mut i: usize = 0;
        while i < n
            invariant
                n == self.entries@.len(),
                0 <= i <= n,
                forall|j: int| 0 <= j < i ==> (#[trigger] self.entries@[j]).0 != owner,
            decreases n - i,
        {
            if self.entries[i].0 == owner {
                return copy_ids(&self.entries[i].1);
            }
            i = i + 1;
        }
        Vec::new()
    }

    /// Records `id` as the newest entry of `owner`'s sequence, creating the
    /// owner's entry when this is its first identifier.
    #[verifier::loop_isolation(false)]
    pub fn append(&mut self, owner: u64, id: u64)
        requires
            old(self).wf(),
        ensures
            final(self).wf(),
            final(self)@ == old(self)@.insert(owner, index_seq(old(self)@, owner).push(id)),
    {
        proof {
            lemma_entries_map_props(self.entries@);
        }
        let n = self.entries.len();
        let mut i: usize = 0;
        while i < n
            invariant
                self.entries@ == old(self).entries@,
                n == self.entries@.len(),
                0 <= i <= n,
                forall|j: int| 0 <= j < i ==> (#[trigger] self.entries@[j]).0 != owner,
            decreases n - i,
        {
            if self.entries[i].0 == owner {
                let mut e = self.entries.remove(i);
                e.1.push(id);
                self.entries.insert(i, e);
                proof {
                    let s = old(self).entries@;
                    let e2 = (owner, e.1);
                    assert(self.entries@ =~= s.update(i as int, e2));
                    lemma_entries_map_update(s, i as int, e2);
                    assert(e2.1@ =~= index_seq(old(self)@, owner).push(id));
                }
                return;
            }
            i = i + 1;
        }
        let mut ids: Vec<u64> = Vec::new();
        ids.push(id);
        self.entries.push((owner, ids));
        proof {
            let s = old(self).entries@;
            assert(self.entries@.drop_last() =~= s);
            assert(!old(self)@.contains_key(owner));
            assert(self.entries@.last().1@ =~= index_seq(old(self)@, owner).push(id));
        }
    }
}

} // verus!
