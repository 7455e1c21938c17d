use vstd::prelude::*;
use crate::rotation::Rotation;
use crate::text::{
    decimal, parse_unsigned, is_digit, str_chars, string_of, decimal_chars, parse_unsigned_chars,
    lemma_decimal_digits, law_parse_decimal_roundtrip, str_eq,
};
use crate::config::strings_view;

verus! {

/// Most textures the cache keeps.
pub const CACHE_MAX: usize = 16;

/// Pages requested ahead of the current one.
pub const PREFETCH_AHEAD: usize = 3;

/// Pages requested behind the current one.
pub const PREFETCH_BEHIND: usize = 2;


/// A decode request handed to a worker.
pub struct LoadRequest {
    pub index: usize,
    /// Key the result is filed under in the cache.
    pub key: String,
    pub archive_path: String,
    pub entry_name: String,
    pub rotation: Rotation,
    pub max_dim: u32,
    pub linear_filter: bool,
}

/// Length of the text before the first `sep` at or after `i` (the whole rest when none).
pub open spec fn head_end(s: Seq<char>, sep: char, i: nat) -> nat
    decreases s.len() - i,
{
    if i >= s.len() || s[i as int] == sep {
        i
    } else {
        head_end(s, sep, i + 1)
    }
}

/// The text before the first `:` of a key, which is the first piece `str::split(':')` yields.
pub open spec fn key_head(k: Seq<char>) -> Seq<char> {
    k.take(head_end(k, ':', 0) as int)
}

/// The page index a cache key names: its head read as a `usize`, or 0 when it is no number.
pub open spec fn key_index(k: Seq<char>) -> nat {
    match parse_unsigned(key_head(k), usize::MAX as nat) {
        Some(n) => n,
        None => 0,
    }
}

/// The cache key of page `index` showing `entry`: `"{index}:{entry}"`.
pub open spec fn cache_key(index: nat, entry: Seq<char>) -> Seq<char> {
    decimal(index) + seq![':'] + entry
}

/// The page index encoded at the front of a cache key (0 when there is none).
pub fn key_to_index(key: &str) -> (r: usize)
    ensures
        r == key_index(key@),
{
    let v = str_chars(key);
    let mut head: Vec<char> = Vec::new();
    let mut i: usize = 0;
    while i < v.len() && v[i] != ':'
        invariant
            i <= v.len(),
            v@ == key@,
            head@ == v@.take(i as int),
            forall|k: int| 0 <= k < i ==> v@[k] != ':',
            head_end(v@, ':', 0) == head_end(v@, ':', i as nat),
        decreases v.len() - i,
    {
        head.push(v[i]);
        i = i + 1;
        assert(head@ =~= v@.take(i as int));
    }
    assert(head_end(v@, ':', i as nat) == i);
    let parsed = parse_unsigned_chars(&head, usize::MAX as u64);
    match parsed {
        Some(n) => n as usize,
        None => 0,
    }
}

/// The cache key of page `index` showing `entry_name`.
pub fn make_cache_key(index: usize, entry_name: &str) -> (r: String)
    ensures
        r@ == cache_key(index as nat, entry_name@),
{
    let mut v = decimal_chars(index as u64);
    v.push(':');
    let name = str_chars(entry_name);
    let mut i: usize = 0;
    let ghost start = v@;
    while i < name.len()
        invariant
            i <= name.len(),
            name@ == entry_name@,
            start == decimal(index as nat).push(':'),
            v@ == start + name@.take(i as int),
        decreases name.len() - i,
    {
        v.push(name[i]);
        i = i + 1;
        assert(v@ =~= start + name@.take(i as int));
    }
    assert(name@.take(i as int) =~= name@);
    assert(start + entry_name@ =~= cache_key(index as nat, entry_name@));
    string_of(&v)
}

proof fn lemma_head_end_digits(s: Seq<char>, i: nat)
    requires
        i <= s.len(),
        forall|k: int| i <= k < s.len() ==> is_digit(#[trigger] s[k]),
    ensures
        head_end(s, ':', i) == s.len(),
    decreases s.len() - i,
{
    if i < s.len() {
        assert(is_digit(s[i as int]));
        lemma_head_end_digits(s, i + 1);
    }
}

proof fn lemma_head_end_prefix(s: Seq<char>, t: Seq<char>, i: nat)
    requires
        i <= s.len(),
        forall|k: int| i <= k < s.len() ==> #[trigger] s[k] != ':',
    ensures
        head_end(s + seq![':'] + t, ':', i) == s.len(),
    decreases s.len() - i,
{
    let w = s + seq![':'] + t;
    if i < s.len() {
        assert(w[i as int] == s[i as int]);
        lemma_head_end_prefix(s, t, i + 1);
    } else {
        assert(w[i as int] == ':');
    }
}

/// The index written into a cache key is the one read back from it.
pub proof fn law_key_index_roundtrip(index: nat, entry: Seq<char>)
    requires
        index <= usize::MAX,
    ensures
        key_index(cache_key(index, entry)) == index,
{
    let d = decimal(index);
    lemma_decimal_digits(index);
    assert forall|k: int| 0 <= k < d.len() implies #[trigger] d[k] != ':' by {
        assert(is_digit(d[k]));
    }
    lemma_head_end_prefix(d, entry, 0);
    assert(key_head(cache_key(index, entry)) =~= d);
    law_parse_decimal_roundtrip(index, usize::MAX as nat);
}

/// Keys whose page index lies in `lo..hi`.
pub open spec fn key_in_range(k: Seq<char>, lo: nat, hi: nat) -> bool {
    lo <= key_index(k) && key_index(k) < hi
}

// ── pending requests ────────────────────────────────────────────────────────────

/// Keys of the decode requests still in flight (so that none is sent twice).
pub struct PendingSet(Vec<String>);

impl View for PendingSet {
    type V = Set<Seq<char>>;

    closed spec fn view(&self) -> Set<Seq<char>> {
        strings_view(self.0@).to_set()
    }
}

impl PendingSet {
    pub fn new() -> (r: Self)
        ensures
            r@ == Set::<Seq<char>>::empty(),
    {
        let r = PendingSet(Vec::new());
        assert(r@ =~= Set::<Seq<char>>::empty());
        r
    }

    fn position(&self, key: &str) -> (r: Option<usize>)
        ensures
            r matches Some(i) ==> i < self.0@.len() && self.0@[i as int]@ == key@,
            r is None ==> !self@.contains(key@),
    {
        let mut i: usize = 0;
        while i < self.0.len()
            invariant
                i <= self.0@.len(),
                forall|k: int| 0 <= k < i ==> self.0@[k]@ != key@,
            decreases self.0.len() - i,
        {
            if str_eq(self.0[i].as_str(), key) {
                return Some(i);
            }
            i = i + 1;
        }
        assert(!strings_view(self.0@).contains(key@)) by {
            if strings_view(self.0@).contains(key@) {
                let k = choose|k: int| 0 <= k < strings_view(self.0@).len() && strings_view(self.0@)[k] == key@;
                assert(self.0@[k]@ == key@);
            }
        }
        None
    }

    /// Marks `key` as requested.
    pub fn insert(&mut self, key: String)
        ensures
            final(self)@ == old(self)@.insert(key@),
    {
        match self.position(key.as_str()) {
            Some(i) => {
                assert(strings_view(self.0@)[i as int] == key@);
                assert(self@.contains(key@));
                assert(self@ =~= self@.insert(key@));
            },
            None => {
                let ghost before = strings_view(self.0@);
                self.0.push(key);
                assert(strings_view(self.0@) =~= before.push(key@));
                assert forall|k: Seq<char>| #[trigger] self@.contains(k) == old(self)@.insert(key@).contains(k) by {
                    if before.push(key@).contains(k) && k != key@ {
                        let j = choose|j: int| 0 <= j < before.push(key@).len() && before.push(key@)[j] == k;
                        assert(before[j] == k);
                    }
                    if before.contains(k) {
                        let j = choose|j: int| 0 <= j < before.len() && before[j] == k;
                        assert(before.push(key@)[j] == k);
                    }
                    if k == key@ {
                        assert(before.push(key@)[before.len() as int] == k);
                    }
                }
                assert(self@ =~= old(self)@.insert(key@));
            },
        }
    }

    /// Forgets `key`.
    pub fn remove(&mut self, key: &str)
        ensures
            final(self)@ == old(self)@.remove(key@),
    {
        let ghost before = strings_view(self.0@);
        let mut kept: Vec<String> = Vec::new();
        let mut i: usize = 0;
        while i < self.0.len()
            invariant
                i <= self.0@.len(),
                before == strings_view(self.0@),
                forall|k: Seq<char>| #[trigger] strings_view(kept@).contains(k) <==> (k != key@ && before.take(i as int).contains(k)),
            decreases self.0.len() - i,
        {
            let ghost kv = strings_view(kept@);
            if !str_eq(self.0[i].as_str(), key) {
                kept.push(self.0[i].clone());
                assert(strings_view(kept@) =~= kv.push(before[i as int]));
            } else {
                assert(strings_view(kept@) == kv);
            }
            proof {
                assert(before.take(i + 1) =~= before.take(i as int).push(before[i as int]));
                assert forall|k: Seq<char>| #[trigger] strings_view(kept@).contains(k) <==> (k != key@ && before.take(i + 1).contains(k)) by {
                    let t = before.take(i as int);
                    if strings_view(kept@).contains(k) {
                        let j = choose|j: int| 0 <= j < strings_view(kept@).len() && strings_view(kept@)[j] == k;
                        if j < kv.len() {
                            assert(kv[j] == k);
                            assert(kv.contains(k));
                            let m = choose|m: int| 0 <= m < t.len() && t[m] == k;
                            assert(before.take(i + 1)[m] == k);
                        } else {
                            assert(before.take(i + 1)[i as int] == k);
                        }
                    }
                    if k != key@ && before.take(i + 1).contains(k) {
                        let t1 = before.take(i + 1);
                        let m = choose|m: int| 0 <= m < t1.len() && t1[m] == k;
                        if m < i {
                            assert(t[m] == k);
                            assert(t.contains(k));
                            assert(kv.contains(k));
                            let j = choose|j: int| 0 <= j < kv.len() && kv[j] == k;
                            assert(strings_view(kept@)[j] == k);
                        } else {
                            assert(strings_view(kept@)[kv.len() as int] == k);
                        }
                    }
                }
            }
            i = i + 1;
        }
        assert(before.take(i as int) =~= before);
        self.0 = kept;
        assert forall|k: Seq<char>| #[trigger] self@.contains(k) == old(self)@.remove(key@).contains(k) by {
        }
        assert(self@ =~= old(self)@.remove(key@));
    }

    /// Whether `key` is marked as requested.
    pub fn contains(&self, key: &str) -> (r: bool)
        ensures
            r == self@.contains(key@),
    {
        match self.position(key) {
            Some(i) => {
                assert(strings_view(self.0@)[i as int] == key@);
                true
            },
            None => false,
        }
    }

    /// Keeps only the keys whose page index lies in `lo..hi`.
    pub fn retain_range(&mut self, lo: usize, hi: usize)
        ensures
            final(self)@ == old(self)@.filter(|k: Seq<char>| key_in_range(k, lo as nat, hi as nat)),
    {
        let ghost before = strings_view(self.0@);
        let mut kept: Vec<String> = Vec::new();
        let mut i: usize = 0;
        while i < self.0.len()
            invariant
                i <= self.0@.len(),
                before == strings_view(self.0@),
                forall|k: Seq<char>| #[trigger] strings_view(kept@).contains(k) <==> (key_in_range(k, lo as nat, hi as nat) && before.take(i as int).contains(k)),
            decreases self.0.len() - i,
        {
            let ghost kv = strings_view(kept@);
            let idx = key_to_index(self.0[i].as_str());
            if lo <= idx && idx < hi {
                kept.push(self.0[i].clone());
                assert(strings_view(kept@) =~= kv.push(before[i as int]));
            } else {
                assert(strings_view(kept@) == kv);
            }
            proof {
                assert(before.take(i + 1) =~= before.take(i as int).push(before[i as int]));
                assert forall|k: Seq<char>| #[trigger] strings_view(kept@).contains(k) <==> (key_in_range(k, lo as nat, hi as nat) && before.take(i + 1).contains(k)) by {
                    let t = before.take(i as int);
                    if strings_view(kept@).contains(k) {
                        let j = choose|j: int| 0 <= j < strings_view(kept@).len() && strings_view(kept@)[j] == k;
                        if j < kv.len() {
                            assert(kv[j] == k);
                            assert(kv.contains(k));
                            let m = choose|m: int| 0 <= m < t.len() && t[m] == k;
                            assert(before.take(i + 1)[m] == k);
                        } else {
                            assert(before.take(i + 1)[i as int] == k);
                        }
                    }
                    if key_in_range(k, lo as nat, hi as nat) && before.take(i + 1).contains(k) {
                        let t1 = before.take(i + 1);
                        let m = choose|m: int| 0 <= m < t1.len() && t1[m] == k;
                        if m < i {
                            assert(t[m] == k);
                            assert(t.contains(k));
                            assert(kv.contains(k));
                            let j = choose|j: int| 0 <= j < kv.len() && kv[j] == k;
                            assert(strings_view(kept@)[j] == k);
                        } else {
                            assert(strings_view(kept@)[kv.len() as int] == k);
                        }
                    }
                }
            }
            i = i + 1;
        }
        assert(before.take(i as int) =~= before);
        self.0 = kept;
        assert(self@ =~= old(self)@.filter(|k: Seq<char>| key_in_range(k, lo as nat, hi as nat)));
    }

    /// Forgets every key.
    pub fn clear(&mut self)
        ensures
            final(self)@ == Set::<Seq<char>>::empty(),
    {
        self.0 = Vec::new();
        assert(self@ =~= Set::<Seq<char>>::empty());
    }
}

// ── texture cache ──────────────────────────────────────────────────────────────

/// No key occurs twice among the entries.
pub open spec fn distinct_keys<T>(s: Seq<(Seq<char>, T)>) -> bool {
    forall|i: int, j: int| 0 <= i < j < s.len() ==> s[i].0 != s[j].0
}

/// The entries without the one filed under `key`.
pub open spec fn without_key<T>(s: Seq<(Seq<char>, T)>, key: Seq<char>) -> Seq<(Seq<char>, T)> {
    s.filter(|e: (Seq<char>, T)| e.0 != key)
}

/// The entries whose key names a page in `lo..hi`.
pub open spec fn entries_in_range<T>(s: Seq<(Seq<char>, T)>, lo: nat, hi: nat) -> Seq<
    (Seq<char>, T),
> {
    s.filter(|e: (Seq<char>, T)| key_in_range(e.0, lo, hi))
}

/// Entries after `value` is filed under `key`: an older entry for `key` goes, the new
/// one becomes the most recent, and the oldest ones go while more than `CACHE_MAX` remain.
pub open spec fn lru_insert<T>(s: Seq<(Seq<char>, T)>, key: Seq<char>, value: T) -> Seq<
    (Seq<char>, T),
> {
    let t = without_key(s, key).push((key, value));
    if t.len() > CACHE_MAX {
        t.skip(t.len() - CACHE_MAX)
    } else {
        t
    }
}

/// The value filed under `key`, if any.
pub open spec fn entry_lookup<T>(s: Seq<(Seq<char>, T)>, key: Seq<char>) -> Option<T>
    decreases s.len(),
{
    if s.len() == 0 {
        None
    } else if s[0].0 == key {
        Some(s[0].1)
    } else {
        entry_lookup(s.drop_first(), key)
    }
}

/// Entries of a cache that keeps its promises: distinct keys, at most `CACHE_MAX` of them.
pub open spec fn cache_shape<T>(s: Seq<(Seq<char>, T)>) -> bool {
    distinct_keys(s) && s.len() <= CACHE_MAX
}

/// Least-recently-used cache of textures, keyed by cache key. The first entry is the oldest.
pub struct TextureCache<T> {
    entries: Vec<(String, T)>,
}

/// The entries of a vector of keyed values, keys taken by their text.
pub open spec fn keyed_view<T>(v: Seq<(String, T)>) -> Seq<(Seq<char>, T)> {
    v.map_values(|e: (String, T)| (e.0@, e.1))
}

impl<T> View for TextureCache<T> {
    type V = Seq<(Seq<char>, T)>;

    closed spec fn view(&self) -> Seq<(Seq<char>, T)> {
        keyed_view(self.entries@)
    }
}

proof fn lemma_without_absent<T>(s: Seq<(Seq<char>, T)>, key: Seq<char>)
    requires
        forall|j: int| 0 <= j < s.len() ==> s[j].0 != key,
    ensures
        without_key(s, key) == s,
    decreases s.len(),
{
    reveal(Seq::filter);
    if s.len() > 0 {
        lemma_without_absent(s.drop_last(), key);
        assert(s.drop_last().push(s.last()) == s);
    }
}

proof fn lemma_without_at<T>(s: Seq<(Seq<char>, T)>, key: Seq<char>, i: int)
    requires
        distinct_keys(s),
        0 <= i < s.len(),
        s[i].0 == key,
    ensures
        without_key(s, key) == s.remove(i),
    decreases s.len(),
{
    reveal(Seq::filter);
    let init = s.drop_last();
    if i == s.len() - 1 {
        assert forall|j: int| 0 <= j < init.len() implies init[j].0 != key by {
            assert(s[j].0 != s[i].0);
        }
        lemma_without_absent(init, key);
        assert(s.remove(i) =~= init);
    } else {
        assert(s.last().0 != key) by {
            assert(s[i].0 != s[s.len() - 1].0);
        }
        lemma_without_at(init, key, i);
        assert(s.remove(i) =~= init.remove(i).push(s.last()));
    }
}

proof fn lemma_without_shape<T>(s: Seq<(Seq<char>, T)>, key: Seq<char>)
    requires
        distinct_keys(s),
    ensures
        distinct_keys(without_key(s, key)),
        without_key(s, key).len() <= s.len(),
        forall|j: int| 0 <= j < without_key(s, key).len() ==> #[trigger] without_key(s, key)[j].0 != key,
{
    if exists|i: int| 0 <= i < s.len() && s[i].0 == key {
        let i = choose|i: int| 0 <= i < s.len() && s[i].0 == key;
        lemma_without_at(s, key, i);
        let r = s.remove(i);
        assert forall|j: int| 0 <= j < r.len() implies #[trigger] r[j].0 != key by {
            if j < i {
                assert(r[j] == s[j]);
                assert(s[j].0 != s[i].0);
            } else {
                assert(r[j] == s[j + 1]);
                assert(s[j + 1].0 != s[i].0);
            }
        }
        assert forall|a: int, b: int| 0 <= a < b < r.len() implies r[a].0 != r[b].0 by {
            let a2 = if a < i { a } else { a + 1 };
            let b2 = if b < i { b } else { b + 1 };
            assert(r[a] == s[a2]);
            assert(r[b] == s[b2]);
        }
    } else {
        lemma_without_absent(s, key);
    }
}

proof fn lemma_lookup_at<T>(s: Seq<(Seq<char>, T)>, i: int)
    requires
        distinct_keys(s),
        0 <= i < s.len(),
    ensures
        entry_lookup(s, s[i].0) == Some(s[i].1),
    decreases i,
{
    if i > 0 {
        let rest = s.drop_first();
        assert(s[0].0 != s[i].0);
        assert(rest[i - 1] == s[i]);
        assert(distinct_keys(rest)) by {
            assert forall|a: int, b: int| 0 <= a < b < rest.len() implies rest[a].0 != rest[b].0 by {
                assert(rest[a] == s[a + 1]);
                assert(rest[b] == s[b + 1]);
            }
        }
        lemma_lookup_at(rest, i - 1);
    }
}

proof fn lemma_lookup_absent<T>(s: Seq<(Seq<char>, T)>, key: Seq<char>)
    requires
        forall|j: int| 0 <= j < s.len() ==> s[j].0 != key,
    ensures
        entry_lookup(s, key) is None,
    decreases s.len(),
{
    if s.len() > 0 {
        assert(s[0].0 != key);
        let rest = s.drop_first();
        assert forall|j: int| 0 <= j < rest.len() implies rest[j].0 != key by {
            assert(rest[j] == s[j + 1]);
        }
        lemma_lookup_absent(rest, key);
    }
}

proof fn lemma_filter_shape<T>(s: Seq<(Seq<char>, T)>, lo: nat, hi: nat)
    requires
        cache_shape(s),
    ensures
        cache_shape(entries_in_range(s, lo, hi)),
{
    let p = |e: (Seq<char>, T)| key_in_range(e.0, lo, hi);
    let f = s.filter(p);
    broadcast use vstd::seq_lib::group_filter_ensures;
    assert(f.len() <= s.len());
    assert forall|a: int, b: int| 0 <= a < b < f.len() implies f[a].0 != f[b].0 by {
        lemma_filter_index_order(s, p, a, b);
    }
}

proof fn lemma_filter_index_order<T>(
    s: Seq<(Seq<char>, T)>,
    p: spec_fn((Seq<char>, T)) -> bool,
    a: int,
    b: int,
)
    requires
        distinct_keys(s),
        0 <= a < b < s.filter(p).len(),
    ensures
        s.filter(p)[a].0 != s.filter(p)[b].0,
    decreases s.len(),
{
    reveal(Seq::filter);
    broadcast use vstd::seq_lib::group_filter_ensures;
    let init = s.drop_last();
    assert(distinct_keys(init)) by {
        assert forall|x: int, y: int| 0 <= x < y < init.len() implies init[x].0 != init[y].0 by {
            assert(init[x] == s[x]);
            assert(init[y] == s[y]);
        }
    }
    let fi = init.filter(p);
    if p(s.last()) {
        if b < fi.len() {
            lemma_filter_index_order(init, p, a, b);
        } else {
            // the last element differs in key from everything before it
            assert(s.filter(p)[b] == s.last());
            assert(fi.contains(fi[a]));
            init.lemma_filter_contains_rev(p, fi[a]);
            assert(init.contains(fi[a]));
            let x = choose|x: int| 0 <= x < init.len() && init[x] == fi[a];
            assert(s[x] == fi[a]);
            assert(s[x].0 != s[s.len() - 1].0);
        }
    } else {
        lemma_filter_index_order(init, p, a, b);
    }
}

proof fn lemma_filter_last<T>(s: Seq<(Seq<char>, T)>, p: spec_fn((Seq<char>, T)) -> bool)
    requires
        s.len() > 0,
    ensures
        s.filter(p) == (if p(s.last()) {
            s.drop_last().filter(p).push(s.last())
        } else {
            s.drop_last().filter(p)
        }),
{
    reveal(Seq::filter);
}

/// Reading back what was just filed gives it, and the cache keeps its shape (distinct keys,
/// at most `CACHE_MAX` entries).
pub proof fn law_get_after_insert<T>(s: Seq<(Seq<char>, T)>, key: Seq<char>, value: T)
    requires
        cache_shape(s),
    ensures
        entry_lookup(lru_insert(s, key, value), key) == Some(value),
        cache_shape(lru_insert(s, key, value)),
{
    lemma_without_shape(s, key);
    let w = without_key(s, key);
    let t = w.push((key, value));
    assert(distinct_keys(t)) by {
        assert forall|a: int, b: int| 0 <= a < b < t.len() implies t[a].0 != t[b].0 by {
            if b == t.len() - 1 {
                assert(t[a] == w[a]);
            } else {
                assert(t[a] == w[a]);
                assert(t[b] == w[b]);
            }
        }
    }
    let r = lru_insert(s, key, value);
    let off: int = if t.len() > CACHE_MAX {
        t.len() - CACHE_MAX
    } else {
        0
    };
    assert(r =~= t.skip(off));
    assert(distinct_keys(r)) by {
        assert forall|a: int, b: int| 0 <= a < b < r.len() implies r[a].0 != r[b].0 by {
            assert(r[a] == t[a + off]);
            assert(r[b] == t[b + off]);
        }
    }
    assert(r[r.len() - 1] == (key, value));
    lemma_lookup_at(r, r.len() - 1);
}

impl<T> TextureCache<T> {
    #[verifier::type_invariant]
    spec fn well_kept(self) -> bool {
        cache_shape(keyed_view(self.entries@))
    }

    /// An empty cache.
    pub fn new() -> (r: Self)
        ensures
            r@ == Seq::<(Seq<char>, T)>::empty(),
    {
        let r = TextureCache { entries: Vec::new() };
        assert(r@ =~= Seq::<(Seq<char>, T)>::empty());
        r
    }

    fn position(v: &Vec<(String, T)>, key: &str) -> (r: Option<usize>)
        ensures
            r matches Some(i) ==> i < v@.len() && keyed_view(v@)[i as int].0 == key@,
            r is None ==> forall|j: int| 0 <= j < v@.len() ==> keyed_view(v@)[j].0 != key@,
    {
        let mut i: usize = 0;
        while i < v.len()
            invariant
                i <= v@.len(),
                forall|j: int| 0 <= j < i ==> keyed_view(v@)[j].0 != key@,
            decreases v.len() - i,
        {
            if str_eq(v[i].0.as_str(), key) {
                return Some(i);
            }
            i = i + 1;
        }
        None
    }

    /// Files `texture` under `key` as the most recent entry; an older entry for `key`
    /// goes, and the oldest entries go while more than `CACHE_MAX` remain.
    pub fn insert(&mut self, key: String, texture: T)
        ensures
            final(self)@ == lru_insert(old(self)@, key@, texture),
            cache_shape(final(self)@),
    {
        proof {
            use_type_invariant(&*self);
        }
        let mut v: Vec<(String, T)> = Vec::new();
        std::mem::swap(&mut v, &mut self.entries);
        let ghost s = keyed_view(v@);
        let ghost k = key@;
        match Self::position(&v, key.as_str()) {
            Some(i) => {
                let _old = v.remove(i);
                proof {
                    lemma_without_at(s, k, i as int);
                    assert(keyed_view(v@) =~= s.remove(i as int));
                }
            },
            None => {
                proof {
                    lemma_without_absent(s, k);
                }
            },
        }
        proof {
            lemma_without_shape(s, k);
        }
        let ghost w = without_key(s, k);
        assert(keyed_view(v@) == w);
        v.push((key, texture));
        let ghost t = w.push((k, texture));
        assert(keyed_view(v@) =~= t);
        assert(distinct_keys(t)) by {
            assert forall|a: int, b: int| 0 <= a < b < t.len() implies t[a].0 != t[b].0 by {
                if b == t.len() - 1 {
                    assert(w[a].0 != k);
                } else {
                    assert(t[a] == w[a]);
                    assert(t[b] == w[b]);
                }
            }
        }
        assert(t.skip(0) =~= t);
        while v.len() > CACHE_MAX
            invariant
                distinct_keys(t),
                v@.len() <= t.len(),
                v@.len() >= CACHE_MAX || v@.len() == t.len(),
                keyed_view(v@) == t.skip(t.len() - v@.len()),
            decreases v.len(),
        {
            let ghost prev = keyed_view(v@);
            let _oldest = v.remove(0);
            assert(keyed_view(v@) =~= prev.drop_first());
            assert(keyed_view(v@) =~= t.skip(t.len() - v@.len()));
        }
        proof {
            if t.len() <= CACHE_MAX {
                assert(t.skip(0) =~= t);
            }
            let r = keyed_view(v@);
            assert forall|a: int, b: int| 0 <= a < b < r.len() implies r[a].0 != r[b].0 by {
                let off = t.len() - v@.len();
                assert(r[a] == t[a + off]);
                assert(r[b] == t[b + off]);
            }
        }
        self.entries = v;
    }

    /// The texture filed under `key`, if any.
    pub fn get(&self, key: &str) -> (r: Option<&T>)
        ensures
            r matches Some(t) ==> entry_lookup(self@, key@) == Some(*t),
            r is None ==> entry_lookup(self@, key@) is None,
    {
        proof {
            use_type_invariant(self);
        }
        match Self::position(&self.entries, key) {
            Some(i) => {
                proof {
                    lemma_lookup_at(self@, i as int);
                }
                Some(&self.entries[i].1)
            },
            None => {
                proof {
                    lemma_lookup_absent(self@, key@);
                }
                None
            },
        }
    }

    /// Whether a texture is filed under `key`.
    pub fn contains(&self, key: &str) -> (r: bool)
        ensures
            r == (entry_lookup(self@, key@) is Some),
    {
        self.get(key).is_some()
    }

    /// Drops the entry filed under `key`, if any.
    pub fn remove(&mut self, key: &str)
        ensures
            final(self)@ == without_key(old(self)@, key@),
            cache_shape(final(self)@),
    {
        proof {
            use_type_invariant(&*self);
        }
        let mut v: Vec<(String, T)> = Vec::new();
        std::mem::swap(&mut v, &mut self.entries);
        let ghost s = keyed_view(v@);
        match Self::position(&v, key) {
            Some(i) => {
                let _old = v.remove(i);
                proof {
                    lemma_without_at(s, key@, i as int);
                    assert(keyed_view(v@) =~= s.remove(i as int));
                }
            },
            None => {
                proof {
                    lemma_without_absent(s, key@);
                }
            },
        }
        proof {
            lemma_without_shape(s, key@);
        }
        self.entries = v;
    }

    /// Drops every entry whose page index lies outside `lo..hi`.
    pub fn retain_range(&mut self, lo: usize, hi: usize)
        ensures
            final(self)@ == entries_in_range(old(self)@, lo as nat, hi as nat),
            cache_shape(final(self)@),
    {
        proof {
            use_type_invariant(&*self);
        }
        let mut v: Vec<(String, T)> = Vec::new();
        std::mem::swap(&mut v, &mut self.entries);
        let ghost s = keyed_view(v@);
        let mut kept: Vec<(String, T)> = Vec::new();
        let mut rest: Vec<(String, T)> = v;
        let ghost p = |e: (Seq<char>, T)| key_in_range(e.0, lo as nat, hi as nat);
        // walk from the back so that each entry can be moved out
        let ghost n = s.len();
        proof {
            assert(s.take(s.len() as int) =~= s);
            assert(keyed_view(kept@).reverse() =~= Seq::<(Seq<char>, T)>::empty());
            assert(s.filter(p) + Seq::<(Seq<char>, T)>::empty() =~= s.filter(p));
        }
        while rest.len() > 0
            invariant
                keyed_view(rest@) == s.take(rest@.len() as int),
                rest@.len() <= n,
                n == s.len(),
                p == (|e: (Seq<char>, T)| key_in_range(e.0, lo as nat, hi as nat)),
                s.take(rest@.len() as int).filter(p) + keyed_view(kept@).reverse() == s.filter(p),
            decreases rest.len(),
        {
            let ghost before = keyed_view(rest@);
            let e = rest.pop().unwrap();
            let idx = key_to_index(e.0.as_str());
            proof {
                reveal(Seq::filter);
                assert(keyed_view(rest@) =~= before.drop_last());
                assert(s.take(rest@.len() as int) =~= before.drop_last());
                assert(before.last() == (e.0@, e.1));
            }
            if lo <= idx && idx < hi {
                let ghost kv = keyed_view(kept@);
                kept.push(e);
                proof {
                    assert(keyed_view(kept@) =~= kv.push(before.last()));
                    assert(keyed_view(kept@).reverse() =~= seq![before.last()] + kv.reverse());
                    lemma_filter_last(before, p);
                    assert(p(before.last()));
                    assert(before.filter(p) == before.drop_last().filter(p).push(before.last()));
                    assert(before.drop_last().filter(p).push(before.last()) + kv.reverse()
                        =~= before.drop_last().filter(p) + (seq![before.last()] + kv.reverse()));
                }
            } else {
                proof {
                    lemma_filter_last(before, p);
                    assert(!p(before.last()));
                    assert(before.filter(p) == before.drop_last().filter(p));
                }
            }
        }
        proof {
            assert(s.take(0).filter(p) =~= Seq::<(Seq<char>, T)>::empty()) by {
                reveal(Seq::filter);
            }
            assert(keyed_view(kept@).reverse() =~= s.filter(p));
        }
        // put the entries back in their earlier order
        let mut out: Vec<(String, T)> = Vec::new();
        while kept.len() > 0
            invariant
                keyed_view(out@) + keyed_view(kept@).reverse() == s.filter(p),
            decreases kept.len(),
        {
            let ghost kv = keyed_view(kept@);
            let ghost ov = keyed_view(out@);
            let e = kept.pop().unwrap();
            out.push(e);
            proof {
                assert(keyed_view(kept@) =~= kv.drop_last());
                assert(keyed_view(out@) =~= ov.push(kv.last()));
                assert(kv.reverse() =~= seq![kv.last()] + kv.drop_last().reverse());
                assert(ov.push(kv.last()) + kv.drop_last().reverse() =~= ov + (seq![kv.last()]
                    + kv.drop_last().reverse()));
            }
        }
        proof {
            assert(keyed_view(out@) =~= s.filter(p));
            assert(s.filter(p) == entries_in_range(s, lo as nat, hi as nat));
            lemma_filter_shape(s, lo as nat, hi as nat);
        }
        self.entries = out;
    }

    /// Number of entries; never more than `CACHE_MAX`, whatever was done to the cache.
    pub fn len(&self) -> (r: usize)
        ensures
            r == self@.len(),
            r <= CACHE_MAX,
            distinct_keys(self@),
    {
        proof {
            use_type_invariant(self);
        }
        self.entries.len()
    }

    /// Drops every entry.
    pub fn clear(&mut self)
        ensures
            final(self)@ == Seq::<(Seq<char>, T)>::empty(),
    {
        self.entries = Vec::new();
        assert(self@ =~= Seq::<(Seq<char>, T)>::empty());
    }
}

} // verus!
