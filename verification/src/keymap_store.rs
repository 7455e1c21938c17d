use vstd::prelude::*;
use crate::text::{str_chars, chars_eq};

verus! {

/// Map of key/value pairs where a later pair overrides an earlier one with the same key.
pub open spec fn pairs_to_map(pairs: Seq<(Seq<char>, Seq<char>)>) -> Map<Seq<char>, Seq<char>>
    decreases pairs.len(),
{
    if pairs.len() == 0 {
        Map::empty()
    } else {
        pairs_to_map(pairs.drop_last()).insert(pairs.last().0, pairs.last().1)
    }
}

/// `base` with every pair of `pairs` inserted in order (later pairs win).
pub open spec fn insert_all(
    base: Map<Seq<char>, Seq<char>>,
    pairs: Seq<(Seq<char>, Seq<char>)>,
) -> Map<Seq<char>, Seq<char>>
    decreases pairs.len(),
{
    if pairs.len() == 0 {
        base
    } else {
        insert_all(base, pairs.drop_last()).insert(pairs.last().0, pairs.last().1)
    }
}

/// No key occurs twice among the pairs.
pub open spec fn unique_keys(pairs: Seq<(Seq<char>, Seq<char>)>) -> bool {
    forall|i: int, j: int| 0 <= i < j < pairs.len() ==> pairs[i].0 != pairs[j].0
}

/// The view of owned string pairs.
pub open spec fn string_pairs_view(v: Seq<(String, String)>) -> Seq<(Seq<char>, Seq<char>)> {
    v.map_values(|p: (String, String)| (p.0@, p.1@))
}

/// First value stored under `key` in `pairs`, if any.
pub open spec fn pairs_lookup(pairs: Seq<(Seq<char>, Seq<char>)>, key: Seq<char>) -> Option<
    Seq<char>,
>
    decreases pairs.len(),
{
    if pairs.len() == 0 {
        None
    } else if pairs[0].0 == key {
        Some(pairs[0].1)
    } else {
        pairs_lookup(pairs.drop_first(), key)
    }
}

/// Index of the first pair with `key` in `v`, if any.
pub fn find_key(v: &Vec<(String, String)>, key: &str) -> (r: Option<usize>)
    ensures
        r matches Some(i) ==> i < v.len() && v@[i as int].0@ == key@ && forall|k: int|
            0 <= k < i ==> v@[k].0@ != key@,
        r is None ==> forall|k: int| 0 <= k < v.len() ==> v@[k].0@ != key@,
{
    let kc = str_chars(key);
    let mut i: usize = 0;
    while i < v.len()
        invariant
            i <= v.len(),
            kc@ == key@,
            forall|k: int| 0 <= k < i ==> v@[k].0@ != key@,
        decreases v.len() - i,
    {
        let c = str_chars(v[i].0.as_str());
        if chars_eq(&c, &kc) {
            return Some(i);
        }
        i = i + 1;
    }
    None
}

proof fn lemma_pairs_lookup_first(pairs: Seq<(Seq<char>, Seq<char>)>, key: Seq<char>, i: int)
    requires
        0 <= i <= pairs.len(),
        forall|k: int| 0 <= k < i ==> pairs[k].0 != key,
    ensures
        pairs_lookup(pairs, key) == pairs_lookup(pairs.subrange(i, pairs.len() as int), key),
    decreases i,
{
    if i > 0 {
        lemma_pairs_lookup_first(pairs.drop_first(), key, i - 1);
        assert(pairs.drop_first().subrange(i - 1, pairs.len() - 1) == pairs.subrange(
            i,
            pairs.len() as int,
        ));
    } else {
        assert(pairs.subrange(0, pairs.len() as int) == pairs);
    }
}

/// The value of the first pair whose key is `key` (what `Properties::get` returns).
pub fn pairs_get<'a>(v: &'a Vec<(String, String)>, key: &str) -> (r: Option<&'a String>)
    ensures
        r matches Some(s) ==> pairs_lookup(string_pairs_view(v@), key@) == Some(s@),
        r is None ==> pairs_lookup(string_pairs_view(v@), key@) is None,
{
    let ghost pv = string_pairs_view(v@);
    match find_key(v, key) {
        Some(i) => {
            proof {
                lemma_pairs_lookup_first(pv, key@, i as int);
                assert(pv.subrange(i as int, pv.len() as int)[0] == pv[i as int]);
            }
            Some(&v[i].1)
        },
        None => {
            proof {
                lemma_pairs_lookup_first(pv, key@, pv.len() as int);
                assert(pv.subrange(pv.len() as int, pv.len() as int).len() == 0);
            }
            None
        },
    }
}

/// Key bindings: action name to key description, each name at most once.
#[derive(Clone, Debug)]
pub struct KeyMap {
    entries: Vec<(String, String)>,
}

impl View for KeyMap {
    type V = Map<Seq<char>, Seq<char>>;

    closed spec fn view(&self) -> Map<Seq<char>, Seq<char>> {
        pairs_to_map(string_pairs_view(self.entries@))
    }
}

impl KeyMap {
    /// Each action name is bound at most once.
    pub closed spec fn wf(self) -> bool {
        unique_keys(string_pairs_view(self.entries@))
    }

    /// The bindings in the order they are kept (and saved).
    pub closed spec fn pair_seq(self) -> Seq<(Seq<char>, Seq<char>)> {
        string_pairs_view(self.entries@)
    }

    /// The kept order lists each binding once and stands for the map.
    pub proof fn lemma_pair_seq(self)
        requires
            self.wf(),
        ensures
            unique_keys(self.pair_seq()),
            pairs_to_map(self.pair_seq()) == self@,
    {
    }

    /// No binding.
    pub fn new() -> (r: Self)
        ensures
            r.wf(),
            r@ == Map::<Seq<char>, Seq<char>>::empty(),
            r.pair_seq().len() == 0,
    {
        let r = KeyMap { entries: Vec::new() };
        assert(string_pairs_view(r.entries@) =~= Seq::<(Seq<char>, Seq<char>)>::empty());
        r
    }

    /// The binding of `key`, if any.
    pub fn get(&self, key: &str) -> (r: Option<&String>)
        requires
            self.wf(),
        ensures
            r matches Some(s) ==> self@.dom().contains(key@) && self@[key@] == s@,
            r is None ==> !self@.dom().contains(key@),
    {
        let ghost pv = string_pairs_view(self.entries@);
        match find_key(&self.entries, key) {
            Some(i) => {
                proof {
                    lemma_unique_map_at(pv, i as int);
                }
                Some(&self.entries[i].1)
            },
            None => {
                proof {
                    lemma_map_dom(pv);
                    if pv.len() > 0 {
                        assert(pv.map_values(|p: (Seq<char>, Seq<char>)| p.0)[0] == pv[0].0);
                    }
                    if self@.dom().contains(key@) {
                        let j = choose|j: int| 0 <= j < pv.len() && pv[j].0 == key@;
                        assert(self.entries@[j].0@ == key@);
                    }
                }
                None
            },
        }
    }

    /// Binds `key` to `value`, replacing an earlier binding of `key` in place.
    pub fn insert(&mut self, key: String, value: String)
        requires
            old(self).wf(),
        ensures
            final(self).wf(),
            final(self)@ == old(self)@.insert(key@, value@),
            old(self)@.dom().contains(key@) ==> final(self).pair_seq().len() == old(
                self,
            ).pair_seq().len(),
            !old(self)@.dom().contains(key@) ==> final(self).pair_seq() == old(
                self,
            ).pair_seq().push((key@, value@)),
    {
        let ghost pv = string_pairs_view(self.entries@);
        match find_key(&self.entries, key.as_str()) {
            Some(i) => {
                proof {
                    lemma_unique_map_update(pv, i as int, value@);
                    lemma_unique_map_at(pv, i as int);
                }
                self.entries.set(i, (key, value));
                proof {
                    assert(string_pairs_view(self.entries@) =~= pv.update(
                        i as int,
                        (pv[i as int].0, value@),
                    ));
                }
            },
            None => {
                proof {
                    lemma_map_dom(pv);
                    assert forall|j: int| 0 <= j < pv.len() implies pv[j].0 != key@ by {
                        assert(self.entries@[j].0@ != key@);
                    }
                    if old(self)@.dom().contains(key@) {
                        let j = choose|j: int| 0 <= j < pv.len() && pv[j].0 == key@;
                        assert(false);
                    }
                }
                self.entries.push((key, value));
                proof {
                    assert(string_pairs_view(self.entries@) =~= pv.push((key@, value@)));
                    assert(string_pairs_view(self.entries@).drop_last() =~= pv);
                }
            },
        }
    }

    /// Number of bindings.
    pub fn len(&self) -> (r: usize)
        ensures
            r == self.pair_seq().len(),
    {
        self.entries.len()
    }

    /// The bindings in their kept order.
    pub fn pairs(&self) -> (r: &Vec<(String, String)>)
        ensures
            string_pairs_view(r@) == self.pair_seq(),
    {
        &self.entries
    }
}

proof fn lemma_map_dom(pairs: Seq<(Seq<char>, Seq<char>)>)
    ensures
        forall|k: Seq<char>|
            pairs_to_map(pairs).dom().contains(k) <==> exists|j: int|
                0 <= j < pairs.len() && pairs[j].0 == k,
    decreases pairs.len(),
{
    if pairs.len() > 0 {
        lemma_map_dom(pairs.drop_last());
        assert forall|k: Seq<char>|
            pairs_to_map(pairs).dom().contains(k) implies exists|j: int|
                0 <= j < pairs.len() && pairs[j].0 == k by {
            if k != pairs.last().0 {
                assert(pairs_to_map(pairs.drop_last()).dom().contains(k));
                let j = choose|j: int|
                    0 <= j < pairs.drop_last().len() && pairs.drop_last()[j].0 == k;
                assert(pairs[j].0 == k);
            } else {
                assert(pairs[pairs.len() - 1].0 == k);
            }
        }
        assert forall|k: Seq<char>|
            (exists|j: int| 0 <= j < pairs.len() && pairs[j].0 == k) implies pairs_to_map(
                pairs,
            ).dom().contains(k) by {
            let j = choose|j: int| 0 <= j < pairs.len() && pairs[j].0 == k;
            if j < pairs.len() - 1 {
                assert(pairs.drop_last()[j].0 == k);
                assert(pairs_to_map(pairs.drop_last()).dom().contains(k));
            }
        }
    }
}

proof fn lemma_unique_map_at(pairs: Seq<(Seq<char>, Seq<char>)>, i: int)
    requires
        unique_keys(pairs),
        0 <= i < pairs.len(),
    ensures
        pairs_to_map(pairs).dom().contains(pairs[i].0),
        pairs_to_map(pairs)[pairs[i].0] == pairs[i].1,
    decreases pairs.len(),
{
    if i < pairs.len() - 1 {
        lemma_unique_map_at(pairs.drop_last(), i);
        assert(pairs.drop_last()[i] == pairs[i]);
        assert(pairs[i].0 != pairs.last().0);
    }
}

proof fn lemma_unique_map_update(pairs: Seq<(Seq<char>, Seq<char>)>, i: int, v: Seq<char>)
    requires
        unique_keys(pairs),
        0 <= i < pairs.len(),
    ensures
        unique_keys(pairs.update(i, (pairs[i].0, v))),
        pairs_to_map(pairs.update(i, (pairs[i].0, v))) == pairs_to_map(pairs).insert(
            pairs[i].0,
            v,
        ),
    decreases pairs.len(),
{
    let upd = pairs.update(i, (pairs[i].0, v));
    assert forall|a: int, b: int| 0 <= a < b < upd.len() implies upd[a].0 != upd[b].0 by {
        assert(upd[a].0 == pairs[a].0);
        assert(upd[b].0 == pairs[b].0);
    }
    if i == pairs.len() - 1 {
        assert(upd.drop_last() == pairs.drop_last());
        lemma_map_dom(pairs.drop_last());
        assert(pairs_to_map(upd) =~= pairs_to_map(pairs).insert(pairs[i].0, v));
    } else {
        lemma_unique_map_update(pairs.drop_last(), i, v);
        assert(upd.drop_last() == pairs.drop_last().update(i, (pairs[i].0, v)));
        assert(pairs[i].0 != pairs.last().0);
        assert(pairs_to_map(upd) =~= pairs_to_map(pairs).insert(pairs[i].0, v));
    }
}

} // verus!
