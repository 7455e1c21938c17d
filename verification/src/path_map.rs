use vstd::prelude::*;
use crate::cache::{distinct_keys, keyed_view};
use crate::text::str_eq;

verus! {

/// The map a list of keyed values with distinct keys stands for.
pub open spec fn keyed_map<V>(s: Seq<(Seq<char>, V)>) -> Map<Seq<char>, V>
    decreases s.len(),
{
    if s.len() == 0 {
        Map::empty()
    } else {
        keyed_map(s.drop_last()).insert(s.last().0, s.last().1)
    }
}

proof fn lemma_map_dom<V>(s: Seq<(Seq<char>, V)>)
    ensures
        forall|k: Seq<char>|
            #[trigger] keyed_map(s).dom().contains(k) <==> exists|j: int| 0 <= j < s.len() && s[j].0 == k,
    decreases s.len(),
{
    if s.len() > 0 {
        let init = s.drop_last();
        lemma_map_dom(init);
        assert forall|k: Seq<char>| #[trigger] keyed_map(s).dom().contains(k) implies exists|j: int|
            0 <= j < s.len() && s[j].0 == k by {
            if k != s.last().0 {
                assert(keyed_map(init).dom().contains(k));
                let j = choose|j: int| 0 <= j < init.len() && init[j].0 == k;
                assert(s[j].0 == k);
            } else {
                assert(s[s.len() - 1].0 == k);
            }
        }
        assert forall|k: Seq<char>| (exists|j: int| 0 <= j < s.len() && s[j].0 == k) implies #[trigger] keyed_map(
            s,
        ).dom().contains(k) by {
            let j = choose|j: int| 0 <= j < s.len() && s[j].0 == k;
            if j < s.len() - 1 {
                assert(init[j].0 == k);
                assert(keyed_map(init).dom().contains(k));
            }
        }
    }
}

proof fn lemma_map_at<V>(s: Seq<(Seq<char>, V)>, i: int)
    requires
        distinct_keys(s),
        0 <= i < s.len(),
    ensures
        keyed_map(s).dom().contains(s[i].0),
        keyed_map(s)[s[i].0] == s[i].1,
    decreases s.len(),
{
    if i < s.len() - 1 {
        let init = s.drop_last();
        assert(distinct_keys(init)) by {
            assert forall|a: int, b: int| 0 <= a < b < init.len() implies init[a].0 != init[b].0 by {
                assert(init[a] == s[a]);
                assert(init[b] == s[b]);
            }
        }
        lemma_map_at(init, i);
        assert(init[i] == s[i]);
        assert(s[i].0 != s[s.len() - 1].0);
    }
}

proof fn lemma_map_update<V>(s: Seq<(Seq<char>, V)>, i: int, v: V)
    requires
        distinct_keys(s),
        0 <= i < s.len(),
    ensures
        distinct_keys(s.update(i, (s[i].0, v))),
        keyed_map(s.update(i, (s[i].0, v))) == keyed_map(s).insert(s[i].0, v),
    decreases s.len(),
{
    let upd = s.update(i, (s[i].0, v));
    assert forall|a: int, b: int| 0 <= a < b < upd.len() implies upd[a].0 != upd[b].0 by {
        assert(upd[a].0 == s[a].0);
        assert(upd[b].0 == s[b].0);
    }
    let init = s.drop_last();
    assert(distinct_keys(init)) by {
        assert forall|a: int, b: int| 0 <= a < b < init.len() implies init[a].0 != init[b].0 by {
            assert(init[a] == s[a]);
            assert(init[b] == s[b]);
        }
    }
    if i == s.len() - 1 {
        assert(upd.drop_last() =~= init);
        assert(keyed_map(upd) =~= keyed_map(s).insert(s[i].0, v));
    } else {
        lemma_map_update(init, i, v);
        assert(upd.drop_last() =~= init.update(i, (s[i].0, v)));
        assert(s[i].0 != s.last().0);
        assert(keyed_map(upd) =~= keyed_map(s).insert(s[i].0, v));
    }
}

proof fn lemma_map_remove<V>(s: Seq<(Seq<char>, V)>, i: int)
    requires
        distinct_keys(s),
        0 <= i < s.len(),
    ensures
        distinct_keys(s.remove(i)),
        keyed_map(s.remove(i)) == keyed_map(s).remove(s[i].0),
    decreases s.len(),
{
    let r = s.remove(i);
    assert forall|a: int, b: int| 0 <= a < b < r.len() implies r[a].0 != r[b].0 by {
        let a2 = if a < i { a } else { a + 1 };
        let b2 = if b < i { b } else { b + 1 };
        assert(r[a] == s[a2]);
        assert(r[b] == s[b2]);
    }
    let init = s.drop_last();
    assert(distinct_keys(init)) by {
        assert forall|a: int, b: int| 0 <= a < b < init.len() implies init[a].0 != init[b].0 by {
            assert(init[a] == s[a]);
            assert(init[b] == s[b]);
        }
    }
    if i == s.len() - 1 {
        assert(r =~= init);
        lemma_map_dom(init);
        assert forall|j: int| 0 <= j < init.len() implies init[j].0 != s[i].0 by {
            assert(init[j] == s[j]);
        }
        assert(!keyed_map(init).dom().contains(s[i].0));
        assert(keyed_map(r) =~= keyed_map(s).remove(s[i].0));
    } else {
        lemma_map_remove(init, i);
        assert(r =~= init.remove(i).push(s.last()));
        assert(r.drop_last() =~= init.remove(i));
        assert(r.last() == s.last());
        assert(s[i].0 != s.last().0);
        assert(init[i] == s[i]);
        assert(keyed_map(r) == keyed_map(init.remove(i)).insert(s.last().0, s.last().1));
        assert(keyed_map(r) =~= keyed_map(s).remove(s[i].0));
    }
}

/// A map keyed by path text (the order entries were added in is kept but not relied on).
pub struct PathMap<V> {
    entries: Vec<(String, V)>,
}

impl<V> View for PathMap<V> {
    type V = Map<Seq<char>, V>;

    closed spec fn view(&self) -> Map<Seq<char>, V> {
        keyed_map(keyed_view(self.entries@))
    }
}

impl<V> PathMap<V> {
    #[verifier::type_invariant]
    spec fn keys_distinct(self) -> bool {
        distinct_keys(keyed_view(self.entries@))
    }

    /// An empty map.
    pub fn new() -> (r: Self)
        ensures
            r@ == Map::<Seq<char>, V>::empty(),
    {
        let r = PathMap { entries: Vec::new() };
        assert(keyed_view(r.entries@) =~= Seq::<(Seq<char>, V)>::empty());
        r
    }

    fn position(&self, key: &str) -> (r: Option<usize>)
        ensures
            r matches Some(i) ==> i < self.entries@.len() && keyed_view(self.entries@)[i as int].0
                == key@,
            r is None ==> !self@.dom().contains(key@),
    {
        let mut i: usize = 0;
        while i < self.entries.len()
            invariant
                i <= self.entries@.len(),
                forall|j: int| 0 <= j < i ==> keyed_view(self.entries@)[j].0 != key@,
            decreases self.entries.len() - i,
        {
            if str_eq(self.entries[i].0.as_str(), key) {
                return Some(i);
            }
            i = i + 1;
        }
        proof {
            lemma_map_dom(keyed_view(self.entries@));
        }
        None
    }

    /// The value kept under `key`, if any.
    pub fn get(&self, key: &str) -> (r: Option<&V>)
        ensures
            r matches Some(v) ==> self@.dom().contains(key@) && self@[key@] == *v,
            r is None ==> !self@.dom().contains(key@),
    {
        proof {
            use_type_invariant(self);
        }
        match self.position(key) {
            Some(i) => {
                proof {
                    lemma_map_at(keyed_view(self.entries@), i as int);
                }
                Some(&self.entries[i].1)
            },
            None => None,
        }
    }

    /// Whether a value is kept under `key`.
    pub fn contains_key(&self, key: &str) -> (r: bool)
        ensures
            r == self@.dom().contains(key@),
    {
        self.get(key).is_some()
    }

    /// Keeps `value` under `key`, replacing what was kept there.
    pub fn insert(&mut self, key: String, value: V)
        ensures
            final(self)@ == old(self)@.insert(key@, value),
    {
        proof {
            use_type_invariant(&*self);
        }
        let mut v: Vec<(String, V)> = Vec::new();
        std::mem::swap(&mut v, &mut self.entries);
        let ghost s = keyed_view(v@);
        let tmp = PathMap { entries: v };
        let pos = tmp.position(key.as_str());
        let PathMap { entries: mut v } = tmp;
        match pos {
            Some(i) => {
                let ghost k = s[i as int].0;
                proof {
                    lemma_map_update(s, i as int, value);
                }
                v.set(i, (key, value));
                assert(keyed_view(v@) =~= s.update(i as int, (k, value)));
            },
            None => {
                v.push((key, value));
                proof {
                    lemma_map_dom(s);
                    assert(keyed_view(v@) =~= s.push((key@, value)));
                    assert(keyed_view(v@).drop_last() =~= s);
                    assert forall|a: int, b: int| 0 <= a < b < keyed_view(v@).len() implies keyed_view(
                        v@,
                    )[a].0 != keyed_view(v@)[b].0 by {
                        if b == s.len() {
                            assert(keyed_view(v@)[a] == s[a]);
                        } else {
                            assert(keyed_view(v@)[a] == s[a]);
                            assert(keyed_view(v@)[b] == s[b]);
                        }
                    }
                }
            },
        }
        self.entries = v;
    }

    /// Drops the value kept under `key`, if any.
    pub fn remove(&mut self, key: &str)
        ensures
            final(self)@ == old(self)@.remove(key@),
    {
        proof {
            use_type_invariant(&*self);
        }
        let mut v: Vec<(String, V)> = Vec::new();
        std::mem::swap(&mut v, &mut self.entries);
        let ghost s = keyed_view(v@);
        let tmp = PathMap { entries: v };
        let pos = tmp.position(key);
        let PathMap { entries: mut v } = tmp;
        match pos {
            Some(i) => {
                proof {
                    lemma_map_remove(s, i as int);
                }
                let _old = v.remove(i);
                assert(keyed_view(v@) =~= s.remove(i as int));
            },
            None => {
                assert(keyed_map(s) =~= keyed_map(s).remove(key@));
            },
        }
        self.entries = v;
    }

    /// Drops every value.
    pub fn clear(&mut self)
        ensures
            final(self)@ == Map::<Seq<char>, V>::empty(),
    {
        self.entries = Vec::new();
        assert(keyed_view(self.entries@) =~= Seq::<(Seq<char>, V)>::empty());
    }

    /// Number of keys.
    pub fn len(&self) -> (r: usize)
        ensures
            r == self@.dom().len(),
    {
        proof {
            use_type_invariant(self);
            lemma_map_len(keyed_view(self.entries@));
        }
        self.entries.len()
    }
}

proof fn lemma_map_len<V>(s: Seq<(Seq<char>, V)>)
    requires
        distinct_keys(s),
    ensures
        keyed_map(s).dom().finite(),
        keyed_map(s).dom().len() == s.len(),
    decreases s.len(),
{
    if s.len() > 0 {
        let init = s.drop_last();
        assert(distinct_keys(init)) by {
            assert forall|a: int, b: int| 0 <= a < b < init.len() implies init[a].0 != init[b].0 by {
                assert(init[a] == s[a]);
                assert(init[b] == s[b]);
            }
        }
        lemma_map_len(init);
        lemma_map_dom(init);
        assert forall|j: int| 0 <= j < init.len() implies init[j].0 != s.last().0 by {
            assert(init[j] == s[j]);
        }
        assert(!keyed_map(init).dom().contains(s.last().0));
    }
}

} // verus!
