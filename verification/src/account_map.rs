//! The reverse mapping account -> identifier that anchors authorization for
//! one role: each account holds at most one identifier, and lookups scan an
//! association list whose abstract value is a `Map`.

use vstd::prelude::*;
use crate::types::AccountId;

verus! {

/// The map an association list stands for, later entries shadowing earlier
/// ones (well-formed lists have no two entries under one key).
pub open spec fn pairs_map(s: Seq<(AccountId, u64)>) -> Map<u64, u64>
    decreases s.len(),
{
    if s.len() == 0 {
        Map::empty()
    } else {
        pairs_map(s.drop_last()).insert(s.last().0, s.last().1)
    }
}

/// A key is in the map exactly when some entry holds it, and the map then
/// returns that entry's value (keys are distinct).
proof fn lemma_pairs_map_props(s: Seq<(AccountId, u64)>)
    requires
        forall|i: int, j: int| 0 <= i < j < s.len() ==> (#[trigger] s[i]).0 != (#[trigger] s[j]).0,
    ensures
        forall|a: u64| #[trigger] pairs_map(s).contains_key(a)
            <==> exists|i: int| 0 <= i < s.len() && (#[trigger] s[i]).0 == a,
        forall|i: int| 0 <= i < s.len()
            ==> pairs_map(s).contains_key((#[trigger] s[i]).0) && pairs_map(s)[s[i].0] == s[i].1,
    decreases s.len(),
{
    if s.len() > 0 {
        lemma_pairs_map_props(s.drop_last());
        assert(forall|i: int| 0 <= i < s.len() - 1 ==> s.drop_last()[i] == s[i]);
        assert forall|a: u64| #[trigger] pairs_map(s).contains_key(a)
            implies exists|i: int| 0 <= i < s.len() && (#[trigger] s[i]).0 == a by {
            if a == s.last().0 {
                assert(0 <= s.len() - 1 < s.len() && (s[s.len() - 1]).0 == a);
            } else {
                assert(pairs_map(s.drop_last()).contains_key(a));
                let i = choose|i: int|
                    0 <= i < s.drop_last().len() && (#[trigger] s.drop_last()[i]).0 == a;
                assert(0 <= i < s.len() && (s[i]).0 == a);
            }
        }
        assert forall|i: int| 0 <= i < s.len()
            implies pairs_map(s).contains_key((#[trigger] s[i]).0) && pairs_map(s)[s[i].0] == s[i].1 by {
            if i < s.len() - 1 {
                assert(s.drop_last()[i] == s[i]);
                assert((s[i]).0 != (s[s.len() - 1]).0);
            }
        }
    }
}

/// One role's account -> identifier registry.
pub struct AccountMap {
    pub entries: Vec<(AccountId, u64)>,
}

impl View for AccountMap {
    type V = Map<u64, u64>;

    open spec fn view(&self) -> Map<u64, u64> {
        pairs_map(self.entries@)
    }
}

impl AccountMap {
    /// No two entries register the same account.
    pub open spec fn wf(&self) -> bool {
        forall|i: int, j: int|
            0 <= i < j < self.entries@.len()
                ==> (#[trigger] self.entries@[i]).0 != (#[trigger] self.entries@[j]).0
    }

    pub fn new() -> (r: AccountMap)
        ensures
            r.wf(),
            r@ == Map::<u64, u64>::empty(),
    {
        AccountMap { entries: Vec::new() }
    }

    #[verifier::loop_isolation(false)]
    pub fn contains(&self, account: AccountId) -> (r: bool)
        requires
            self.wf(),
        ensures
            r == self@.contains_key(account),
    {
        proof {
            lemma_pairs_map_props(self.entries@);
        }
        let n = self.entries.len();
        let mut i: usize = 0;
        while i < n
            invariant
                n == self.entries@.len(),
                0 <= i <= n,
                forall|j: int| 0 <= j < i ==> (#[trigger] self.entries@[j]).0 != account,
            decreases n - i,
        {
            if self.entries[i].0 == account {
                return true;
            }
            i = i + 1;
        }
        false
    }

    #[verifier::loop_isolation(false)]
    pub fn get(&self, account: AccountId) -> (r: Option<u64>)
        requires
            self.wf(),
        ensures
            match r {
                Some(id) => self@.contains_key(account) && self@[account] == id,
                None => !self@.contains_key(account),
            },
    {
        proof {
            lemma_pairs_map_props(self.entries@);
        }
        let n = self.entries.len();
        let mut i: usize = 0;
        while i < n
            invariant
                n == self.entries@.len(),
                0 <= i <= n,
                forall|j: int| 0 <= j < i ==> (#[trigger] self.entries@[j]).0 != account,
            decreases n - i,
        {
            if self.entries[i].0 == account {
                return Some(self.entries[i].1);
            }
            i = i + 1;
        }
        None
    }

    pub fn insert(&mut self, account: AccountId, id: u64)
        requires
            old(self).wf(),
            !old(self)@.contains_key(account),
        ensures
            final(self).wf(),
            final(self)@ == old(self)@.insert(account, id),
    {
        proof {
            lemma_pairs_map_props(self.entries@);
        }
        self.entries.push((account, id));
        proof {
            assert(self.entries@.drop_last() =~= old(self).entries@);
        }
    }
}

} // verus!
