//! An association table with unique integer keys, read both as a
//! mathematical map (for membership and lookup) and as the sequence of its
//! entries (for ordered scans). It backs the peer-agent registry and each
//! agent's table of pending block requests.

use vstd::prelude::*;

verus! {

pub struct IdMap<V> {
    entries: Vec<(u64, V)>,
}

impl<V> IdMap<V> {
    /// The entries, oldest insertion first.
    pub closed spec fn entries_seq(&self) -> Seq<(u64, V)> {
        self.entries@
    }

    /// No key occurs twice.
    pub open spec fn wf(&self) -> bool {
        forall|i: int, j: int|
            0 <= i < j < self.entries_seq().len() ==> (#[trigger] self.entries_seq()[i]).0 != (
            #[trigger] self.entries_seq()[j]).0
    }

    pub open spec fn len_spec(&self) -> nat {
        self.entries_seq().len()
    }

    pub open spec fn contains_key_spec(&self, k: u64) -> bool {
        exists|i: int| 0 <= i < self.entries_seq().len() && (#[trigger] self.entries_seq()[i]).0 == k
    }

    /// The index at which a present key sits.
    pub open spec fn index_of(&self, k: u64) -> int {
        choose|i: int| 0 <= i < self.entries_seq().len() && (#[trigger] self.entries_seq()[i]).0 == k
    }

    pub open spec fn spec_get(&self, k: u64) -> V
        recommends
            self.contains_key_spec(k),
    {
        self.entries_seq()[self.index_of(k)].1
    }

    /// A present key's index is the one the entries show.
    pub proof fn lemma_index_of_unique(&self, k: u64, i: int)
        requires
            self.wf(),
            0 <= i < self.entries_seq().len(),
            self.entries_seq()[i].0 == k,
        ensures
            self.index_of(k) == i,
            self.contains_key_spec(k),
    {
    }
}

impl<V> View for IdMap<V> {
    type V = Map<u64, V>;

    closed spec fn view(&self) -> Map<u64, V> {
        Map::new(|k: u64| self.contains_key_spec(k), |k: u64| self.spec_get(k))
    }
}

impl<V> IdMap<V> {
    /// The map view reads exactly as membership and lookup do.
    pub proof fn lemma_view_agrees(&self, k: u64)
        ensures
            self@.dom().contains(k) == self.contains_key_spec(k),
            self.contains_key_spec(k) ==> self@[k] == self.spec_get(k),
    {
    }

    /// With unique keys, the table's length is the size of its domain.
    pub proof fn lemma_len_is_dom_card(&self)
        requires
            self.wf(),
        ensures
            self@.dom().finite(),
            self@.dom().len() == self.len_spec(),
    {
        let s = self.entries_seq();
        lemma_keys_card::<V>(s);
        assert(self@.dom() =~= keys_of::<V>(s));
    }

    pub fn new() -> (r: IdMap<V>)
        ensures
            r.wf(),
            r@ == Map::<u64, V>::empty(),
            r.entries_seq() == Seq::<(u64, V)>::empty(),
    {
        let r = IdMap { entries: Vec::new() };
        proof {
            assert(r@ =~= Map::<u64, V>::empty());
        }
        r
    }

    pub fn len(&self) -> (r: usize)
        ensures
            r == self.len_spec(),
    {
        self.entries.len()
    }

    fn find_index(&self, k: u64) -> (r: Option<usize>)
        requires
            self.wf(),
        ensures
            match r {
                Some(i) => {
                    &&& i < self.entries_seq().len()
                    &&& self.entries_seq()[i as int].0 == k
                    &&& self.contains_key_spec(k)
                    &&& self.index_of(k) == i
                },
                None => !self.contains_key_spec(k),
            },
    {
        let n = self.entries.len();
        let mut i: usize = 0;
        while i < n
            invariant
                n == self.entries_seq().len(),
                i <= n,
                self.wf(),
                forall|j: int| 0 <= j < i ==> (#[trigger] self.entries_seq()[j]).0 != k,
            decreases n - i,
        {
            if self.entries[i].0 == k {
                proof {
                    self.lemma_index_of_unique(k, i as int);
                }
                return Some(i);
            }
            i += 1;
        }
        None
    }

    /// The position of a key's entry, for indexed access.
    pub fn find_key_index(&self, k: u64) -> (r: Option<usize>)
        requires
            self.wf(),
        ensures
            match r {
                Some(i) => {
                    &&& i < self.entries_seq().len()
                    &&& self.entries_seq()[i as int].0 == k
                    &&& self.index_of(k) == i
                    &&& self@.dom().contains(k)
                    &&& self.entries_seq()[i as int].1 == self@[k]
                },
                None => !self.contains_key_spec(k) && !self@.dom().contains(k),
            },
    {
        proof {
            self.lemma_view_agrees(k);
        }
        self.find_index(k)
    }

    pub fn contains_key(&self, k: u64) -> (r: bool)
        requires
            self.wf(),
        ensures
            r == self.contains_key_spec(k),
    {
        self.find_index(k).is_some()
    }

    pub fn get(&self, k: u64) -> (r: Option<&V>)
        requires
            self.wf(),
        ensures
            match r {
                Some(v) => {
                    &&& self.contains_key_spec(k) && *v == self.spec_get(k)
                    &&& self@.dom().contains(k) && *v == self@[k]
                },
                None => !self.contains_key_spec(k) && !self@.dom().contains(k),
            },
    {
        proof {
            self.lemma_view_agrees(k);
        }
        match self.find_index(k) {
            Some(i) => Some(&self.entries[i].1),
            None => None,
        }
    }

    /// Insert, replacing any entry already under the key.
    pub fn insert(&mut self, k: u64, v: V)
        requires
            old(self).wf(),
        ensures
            final(self).wf(),
            final(self)@ == old(self)@.insert(k, v),
            old(self).contains_key_spec(k) ==> {
                &&& final(self).entries_seq() == old(self).entries_seq().update(
                    old(self).index_of(k),
                    (k, v),
                )
                &&& final(self).len_spec() == old(self).len_spec()
            },
            !old(self).contains_key_spec(k) ==> {
                &&& final(self).entries_seq() == old(self).entries_seq().push((k, v))
                &&& final(self).len_spec() == old(self).len_spec() + 1
            },
    {
        let ghost prior = *self;
        match self.find_index(k) {
            Some(i) => {
                let slot = &mut self.entries[i];
                *slot = (k, v);
            }
            None => {
                self.entries.push((k, v));
            }
        }
        proof {
            assert forall|x: u64| final(self).contains_key_spec(x) implies (x == k
                || prior.contains_key_spec(x)) by {
                let i = final(self).index_of(x);
                if final(self).entries_seq()[i].0 == x && x != k {
                    assert(prior.entries_seq()[i].0 == x);
                }
            }
            assert forall|x: u64|
                x != k && prior.contains_key_spec(x) implies final(self).contains_key_spec(x)
                && final(self).spec_get(x) == prior.spec_get(x) by {
                let i = prior.index_of(x);
                assert(final(self).entries_seq()[i].0 == x);
                final(self).lemma_index_of_unique(x, i);
            }
            assert(final(self).contains_key_spec(k)) by {
                if prior.contains_key_spec(k) {
                    assert(final(self).entries_seq()[prior.index_of(k)].0 == k);
                } else {
                    assert(final(self).entries_seq()[prior.entries_seq().len() as int].0 == k);
                }
            }
            assert(final(self).spec_get(k) == v) by {
                if prior.contains_key_spec(k) {
                    final(self).lemma_index_of_unique(k, prior.index_of(k));
                } else {
                    final(self).lemma_index_of_unique(k, prior.entries_seq().len() as int);
                }
            }
            assert(final(self)@ =~= prior@.insert(k, v));
        }
    }

    /// Remove the entry under the key, if any.
    pub fn remove(&mut self, k: u64) -> (r: Option<V>)
        requires
            old(self).wf(),
        ensures
            final(self).wf(),
            final(self)@ == old(self)@.remove(k),
            match r {
                Some(v) => {
                    &&& old(self).contains_key_spec(k)
                    &&& v == old(self).spec_get(k)
                    &&& old(self)@.dom().contains(k) && v == old(self)@[k]
                    &&& final(self).entries_seq() == old(self).entries_seq().remove(
                        old(self).index_of(k),
                    )
                    &&& final(self).len_spec() + 1 == old(self).len_spec()
                },
                None => {
                    &&& !old(self).contains_key_spec(k)
                    &&& !old(self)@.dom().contains(k)
                    &&& *final(self) == *old(self)
                },
            },
    {
        proof {
            self.lemma_view_agrees(k);
        }
        let ghost prior = *self;
        match self.find_index(k) {
            Some(i) => {
                let (_, v) = self.entries.remove(i);
                proof {
                    let s_old = prior.entries_seq();
                    let s_new = final(self).entries_seq();
                    let idx = i as int;
                    assert forall|x: u64| final(self).contains_key_spec(x) implies
                        prior.contains_key_spec(x) && x != k by {
                        let j = final(self).index_of(x);
                        let jo = if j < idx { j } else { j + 1 };
                        assert(s_old[jo].0 == x);
                        prior.lemma_index_of_unique(x, jo);
                    }
                    assert forall|x: u64|
                        prior.contains_key_spec(x) && x != k implies final(self).contains_key_spec(
                        x,
                    ) && final(self).spec_get(x) == prior.spec_get(x) by {
                        let j = prior.index_of(x);
                        let jn = if j < idx { j } else { j - 1 };
                        assert(s_new[jn].0 == x);
                        final(self).lemma_index_of_unique(x, jn);
                    }
                    assert(final(self).wf()) by {
                        assert forall|a: int, b: int|
                            0 <= a < b < s_new.len() implies s_new[a].0 != s_new[b].0 by {
                            let ao = if a < idx { a } else { a + 1 };
                            let bo = if b < idx { b } else { b + 1 };
                            assert(s_new[a] == s_old[ao]);
                            assert(s_new[b] == s_old[bo]);
                        }
                    }
                    assert(final(self)@ =~= prior@.remove(k));
                }
                Some(v)
            }
            None => {
                proof {
                    assert(final(self)@ =~= prior@.remove(k));
                }
                None
            }
        }
    }

    pub fn key_at(&self, i: usize) -> (r: u64)
        requires
            i < self.len_spec(),
        ensures
            r == self.entries_seq()[i as int].0,
    {
        self.entries[i].0
    }

    pub fn value_at(&self, i: usize) -> (r: &V)
        requires
            i < self.len_spec(),
        ensures
            *r == self.entries_seq()[i as int].1,
    {
        &self.entries[i].1
    }

    /// Borrow one entry's value for in-place mutation. The key stays; only
    /// that entry's value changes.
    pub fn value_at_mut(&mut self, i: usize) -> (r: &mut V)
        requires
            i < old(self).len_spec(),
        ensures
            *r == old(self).entries_seq()[i as int].1,
            final(self).entries_seq() == old(self).entries_seq().update(
                i as int,
                (old(self).entries_seq()[i as int].0, *final(r)),
            ),
    {
        let entry = &mut self.entries[i];
        &mut entry.1
    }

    /// Take every entry out, leaving the table empty.
    pub fn drain(&mut self) -> (r: Vec<(u64, V)>)
        requires
            old(self).wf(),
        ensures
            final(self).wf(),
            final(self)@ == Map::<u64, V>::empty(),
            final(self).len_spec() == 0,
            r@ == old(self).entries_seq(),
    {
        let mut out = Vec::new();
        core::mem::swap(&mut out, &mut self.entries);
        proof {
            assert(final(self)@ =~= Map::<u64, V>::empty());
        }
        out
    }
}

/// The set of keys that a run of entries carries.
pub open spec fn keys_of<V>(s: Seq<(u64, V)>) -> Set<u64> {
    Set::new(|k: u64| exists|i: int| 0 <= i < s.len() && (#[trigger] s[i]).0 == k)
}

/// A run of entries with pairwise-distinct keys carries exactly as many
/// keys as it has entries.
pub proof fn lemma_keys_card<V>(s: Seq<(u64, V)>)
    requires
        forall|i: int, j: int| 0 <= i < j < s.len() ==> (#[trigger] s[i]).0 != (#[trigger] s[j]).0,
    ensures
        keys_of::<V>(s).finite(),
        keys_of::<V>(s).len() == s.len(),
    decreases s.len(),
{
    if s.len() == 0 {
        assert(keys_of::<V>(s) =~= Set::<u64>::empty());
    } else {
        let prefix = s.drop_last();
        lemma_keys_card::<V>(prefix);
        let last = s.last().0;
        assert forall|k: u64| keys_of::<V>(prefix).contains(k) implies keys_of::<V>(s).contains(k)
            by {
            let i = choose|i: int| 0 <= i < prefix.len() && (#[trigger] prefix[i]).0 == k;
            assert(s[i].0 == k);
        }
        assert(!keys_of::<V>(prefix).contains(last));
        assert forall|k: u64| keys_of::<V>(s).contains(k) implies keys_of::<V>(prefix).insert(
            last,
        ).contains(k) by {
            let i = choose|i: int| 0 <= i < s.len() && (#[trigger] s[i]).0 == k;
            if i < s.len() - 1 {
                assert(prefix[i].0 == k);
            }
        }
        assert(keys_of::<V>(s).contains(last)) by {
            assert(s[s.len() - 1].0 == last);
        }
        assert(keys_of::<V>(s) =~= keys_of::<V>(prefix).insert(last));
    }
}

/// Mutating one entry's value in place updates the map view at that entry's
/// key and leaves every other key untouched.
pub proof fn lemma_view_after_value_update<V>(prior: IdMap<V>, updated: IdMap<V>, i: int, v: V)
    requires
        prior.wf(),
        0 <= i < prior.entries_seq().len(),
        updated.entries_seq() == prior.entries_seq().update(i, (prior.entries_seq()[i].0, v)),
    ensures
        updated.wf(),
        updated@ == prior@.insert(prior.entries_seq()[i].0, v),
        updated.len_spec() == prior.len_spec(),
    {
        let k = prior.entries_seq()[i].0;
        assert forall|x: u64| updated.contains_key_spec(x) implies prior.contains_key_spec(x) by {
            let j = updated.index_of(x);
            assert(prior.entries_seq()[j].0 == x);
        }
        assert forall|x: u64| prior.contains_key_spec(x) implies updated.contains_key_spec(x) by {
            let j = prior.index_of(x);
            assert(updated.entries_seq()[j].0 == x);
        }
        assert(updated.contains_key_spec(k)) by {
            assert(updated.entries_seq()[i].0 == k);
        }
        updated.lemma_index_of_unique(k, i);
        assert forall|x: u64| prior.contains_key_spec(x) && x != k implies updated.spec_get(x)
            == prior.spec_get(x) by {
            let j = prior.index_of(x);
            prior.lemma_index_of_unique(x, j);
            updated.lemma_index_of_unique(x, j);
        }
        assert(updated@ =~= prior@.insert(k, v));
    }

} // verus!
