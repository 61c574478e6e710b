//! The per-app permission store: decisions by origin, keys unique.

use vstd::prelude::*;

use crate::model::{all_ask, PerOriginPermissions};

verus! {

/// The decisions stored for one origin.
#[derive(Clone, Debug)]
pub struct OriginEntry {
    pub origin: String,
    pub permissions: PerOriginPermissions,
}

/// The mapping that a sequence of entries describes; a later entry for an origin wins.
pub open spec fn entries_map(s: Seq<OriginEntry>) -> Map<Seq<char>, PerOriginPermissions>
    decreases s.len(),
{
    if s.len() == 0 {
        Map::empty()
    } else {
        entries_map(s.drop_last()).insert(s.last().origin@, s.last().permissions)
    }
}

/// No two entries name the same origin.
pub open spec fn origins_unique(s: Seq<OriginEntry>) -> bool {
    forall|i: int, j: int| 0 <= i < j < s.len() ==> (#[trigger] s[i]).origin@ != (#[trigger] s[j]).origin@
}

pub proof fn lemma_contains(s: Seq<OriginEntry>, k: Seq<char>)
    ensures
        entries_map(s).contains_key(k) <==> exists|i: int| 0 <= i < s.len() && (#[trigger] s[i]).origin@ == k,
    decreases s.len(),
{
    if s.len() > 0 {
        lemma_contains(s.drop_last(), k);
        if entries_map(s.drop_last()).contains_key(k) {
            let i = choose|i: int| 0 <= i < s.drop_last().len() && (#[trigger] s.drop_last()[i]).origin@ == k;
            assert(s[i] == s.drop_last()[i]);
        }
        if exists|i: int| 0 <= i < s.len() && (#[trigger] s[i]).origin@ == k {
            let i = choose|i: int| 0 <= i < s.len() && (#[trigger] s[i]).origin@ == k;
            if i < s.len() - 1 {
                assert(s.drop_last()[i] == s[i]);
            }
        }
    }
}

proof fn lemma_index(s: Seq<OriginEntry>, i: int)
    requires
        origins_unique(s),
        0 <= i < s.len(),
    ensures
        entries_map(s).contains_key(s[i].origin@),
        entries_map(s)[s[i].origin@] == s[i].permissions,
    decreases s.len(),
{
    if i < s.len() - 1 {
        assert(s.drop_last()[i] == s[i]);
        assert(origins_unique(s.drop_last()));
        lemma_index(s.drop_last(), i);
        assert(s[i].origin@ != s[s.len() - 1].origin@);
    }
}

proof fn lemma_update(s: Seq<OriginEntry>, i: int, e: OriginEntry)
    requires
        origins_unique(s),
        0 <= i < s.len(),
        s[i].origin@ == e.origin@,
    ensures
        origins_unique(s.update(i, e)),
        entries_map(s.update(i, e)) == entries_map(s).insert(e.origin@, e.permissions),
    decreases s.len(),
{
    let t = s.update(i, e);
    assert(origins_unique(t)) by {
        assert forall|a: int, b: int| 0 <= a < b < t.len() implies (#[trigger] t[a]).origin@ != (
        #[trigger] t[b]).origin@ by {
            assert(s[a].origin@ != s[b].origin@);
        }
    }
    if i == s.len() - 1 {
        assert(t.drop_last() =~= s.drop_last());
        assert(entries_map(t) =~= entries_map(s).insert(e.origin@, e.permissions));
    } else {
        assert(t.drop_last() =~= s.drop_last().update(i, e));
        assert(origins_unique(s.drop_last()));
        lemma_update(s.drop_last(), i, e);
        assert(s[i].origin@ != s.last().origin@);
        assert(entries_map(t) =~= entries_map(s).insert(e.origin@, e.permissions));
    }
}

pub proof fn lemma_len(s: Seq<OriginEntry>)
    requires
        origins_unique(s),
    ensures
        entries_map(s).dom().len() == s.len(),
        entries_map(s).dom().finite(),
    decreases s.len(),
{
    if s.len() > 0 {
        let p = s.drop_last();
        assert(origins_unique(p));
        lemma_len(p);
        lemma_contains(p, s.last().origin@);
        if entries_map(p).contains_key(s.last().origin@) {
            let i = choose|i: int| 0 <= i < p.len() && (#[trigger] p[i]).origin@ == s.last().origin@;
            assert(s[i] == p[i]);
        }
    }
}

/// The permission decisions of one web app, by origin.
#[derive(Clone, Debug)]
pub struct PermissionStore {
    pub origins: Vec<OriginEntry>,
}

impl Default for PermissionStore {
    fn default() -> (r: PermissionStore)
        ensures
            r.wf(),
            r.view() == Map::<Seq<char>, PerOriginPermissions>::empty(),
    {
        PermissionStore::new()
    }
}

impl PermissionStore {
    pub open spec fn view(&self) -> Map<Seq<char>, PerOriginPermissions> {
        entries_map(self.origins@)
    }

    pub open spec fn wf(&self) -> bool {
        origins_unique(self.origins@)
    }

    /// An empty store.
    pub fn new() -> (r: PermissionStore)
        ensures
            r.wf(),
            r.view() == Map::<Seq<char>, PerOriginPermissions>::empty(),
    {
        PermissionStore { origins: Vec::new() }
    }

    /// The number of origins with decisions.
    pub fn len(&self) -> (r: usize)
        requires
            self.wf(),
        ensures
            r == self.view().dom().len(),
    {
        proof {
            lemma_len(self.origins@);
        }
        self.origins.len()
    }

    fn position(&self, origin: &str) -> (r: Option<usize>)
        ensures
            r matches Some(i) ==> i < self.origins@.len() && self.origins@[i as int].origin@
                == origin@,
            r is None ==> forall|i: int|
                0 <= i < self.origins@.len() ==> (#[trigger] self.origins@[i]).origin@ != origin@,
    {
        let key = String::from_str(origin);
        let mut i: usize = 0;
        while i < self.origins.len()
            invariant
                key@ == origin@,
                i <= self.origins@.len(),
                forall|k: int| 0 <= k < i ==> (#[trigger] self.origins@[k]).origin@ != origin@,
            decreases self.origins@.len() - i,
        {
            if self.origins[i].origin == key {
                return Some(i);
            }
            i = i + 1;
        }
        None
    }

    /// The decisions for `origin`, where it has any.
    pub fn get(&self, origin: &str) -> (r: Option<PerOriginPermissions>)
        requires
            self.wf(),
        ensures
            r is Some <==> self.view().contains_key(origin@),
            r matches Some(p) ==> p == self.view()[origin@],
    {
        proof {
            lemma_contains(self.origins@, origin@);
        }
        match self.position(origin) {
            Some(i) => {
                proof {
                    lemma_index(self.origins@, i as int);
                }
                Some(self.origins[i].permissions)
            },
            None => None,
        }
    }

    /// The decisions for `origin`, added with every capability set to Ask where the
    /// origin has none yet.
    pub fn get_or_default_mut(&mut self, origin: &str) -> (r: &mut PerOriginPermissions)
        requires
            old(self).wf(),
        ensures
            *r == (if old(self).view().contains_key(origin@) {
                old(self).view()[origin@]
            } else {
                all_ask()
            }),
            final(self).wf(),
            final(self).view() == old(self).view().insert(origin@, *final(r)),
    {
        proof {
            lemma_contains(self.origins@, origin@);
        }
        let i = match self.position(origin) {
            Some(i) => {
                proof {
                    lemma_index(self.origins@, i as int);
                }
                i
            },
            None => {
                let ghost before = self.origins@;
                self.origins.push(
                    OriginEntry { origin: String::from_str(origin), permissions: PerOriginPermissions::default() },
                );
                proof {
                    assert(self.origins@.drop_last() =~= before);
                    assert(origins_unique(self.origins@)) by {
                        assert forall|a: int, b: int|
                            0 <= a < b < self.origins@.len() implies (#[trigger] self.origins@[a]).origin@
                            != (#[trigger] self.origins@[b]).origin@ by {
                            if b < before.len() {
                                assert(before[a].origin@ != before[b].origin@);
                            } else {
                                assert(self.origins@[a] == before[a]);
                            }
                        }
                    }
                }
                self.origins.len() - 1
            },
        };
        let ghost s = self.origins@;
        let ghost m0 = old(self).view();
        proof {
            lemma_index(s, i as int);
            assert(entries_map(s) == m0.insert(origin@, s[i as int].permissions)) by {
                if m0.contains_key(origin@) {
                    assert(s == old(self).origins@);
                    assert(m0.insert(origin@, s[i as int].permissions) =~= m0);
                }
            }
        }
        proof {
            assert forall|e: OriginEntry| e.origin@ == s[i as int].origin@ implies #[trigger] entries_map(
                s.update(i as int, e),
            ) == m0.insert(origin@, e.permissions) && origins_unique(s.update(i as int, e)) by {
                lemma_update(s, i as int, e);
                assert(m0.insert(origin@, s[i as int].permissions).insert(origin@, e.permissions)
                    =~= m0.insert(origin@, e.permissions));
            }
        }
        &mut self.origins[i].permissions
    }
}

} // verus!
