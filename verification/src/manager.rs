use vstd::prelude::*;
use crate::cache::{TextureCache, PendingSet, make_cache_key, cache_key, entry_lookup, entries_in_range, key_in_range, PREFETCH_AHEAD, PREFETCH_BEHIND};
use crate::config::{Config, FilterMode, strings_view};
use crate::sorting::{sort_entries, stably_sorted};
use crate::nav_tree::{ArchiveReader, ImageEntry, NavTree, clean_path, clean_path_of, path_parent, path_file_name, parent_of, last_name_of, siblings_listed, neighbour};
use crate::file_kinds::{is_image_name, image_extensions, has_extension};
use crate::paging::{next_step, prev_step, next_step_of, prev_step_of, next_looks, prev_looks, last_page_index, last_page_of};
use crate::path_map::PathMap;
use crate::rotation::Rotation;
use crate::startup::opt_view;
use crate::text::{str_chars, str_eq};

verus! {

/// A page to decode, handed to a worker.
pub struct DecodeRequest {
    pub index: usize,
    /// Key the result is filed under.
    pub key: String,
    pub archive_path: String,
    pub entry_name: String,
    /// Position inside the archive, for archive kinds that read entries by position.
    pub entry_index: Option<usize>,
    pub rotation: Rotation,
    pub max_dim: u32,
    pub filter_mode: FilterMode,
    /// Cache generation the request belongs to; older ones are dropped.
    pub generation: u64,
}

/// Pages around the target that are kept or fetched: `lo..hi`, two steps behind and four
/// ahead (a step being two pages in manga mode), held to the listing.
pub open spec fn prefetch_lo(target: nat, manga: bool) -> nat {
    let back = PREFETCH_BEHIND * (if manga {
        2nat
    } else {
        1nat
    });
    if target >= back {
        (target - back) as nat
    } else {
        0
    }
}

pub open spec fn prefetch_hi(target: nat, len: nat, manga: bool) -> nat {
    let ahead = (PREFETCH_AHEAD + 1) * (if manga {
        2nat
    } else {
        1nat
    });
    if target + ahead < len {
        (target + ahead) as nat
    } else {
        len
    }
}

/// Order pages are requested in: the target (and the page after it in manga mode) first,
/// then `lo..hi` in order.
pub open spec fn prefetch_order(target: nat, len: nat, manga: bool) -> Seq<nat> {
    let lo = prefetch_lo(target, manga);
    let hi = prefetch_hi(target, len, manga);
    let first = if manga {
        seq![target, target + 1]
    } else {
        seq![target]
    };
    first + Seq::new(
        if hi >= lo {
            (hi - lo) as nat
        } else {
            0
        },
        |k: int| (lo + k) as nat,
    )
}

/// Folding the request order: which pages get requested (index and key, in order) and
/// the in-flight keys afterwards. A page is skipped when it is past the listing, or when
/// its key is cached or already in flight.
pub open spec fn requested(
    order: Seq<nat>,
    n: int,
    names: Seq<Seq<char>>,
    cached: Set<Seq<char>>,
    pending: Set<Seq<char>>,
) -> (Seq<(nat, Seq<char>)>, Set<Seq<char>>)
    decreases n,
{
    if n <= 0 {
        (Seq::empty(), pending)
    } else {
        let prev = requested(order, n - 1, names, cached, pending);
        let idx = order[n - 1];
        if idx >= names.len() {
            prev
        } else {
            let key = cache_key(idx, names[idx as int]);
            if cached.contains(key) || prev.1.contains(key) {
                prev
            } else {
                (prev.0.push((idx, key)), prev.1.insert(key))
            }
        }
    }
}

/// Keys that have an entry in the cache.
pub open spec fn cached_keys<T>(s: Seq<(Seq<char>, T)>) -> Set<Seq<char>> {
    Set::new(|k: Seq<char>| entry_lookup(s, k) is Some)
}

/// A file name that lists as a page: it has one of the image extensions.
pub open spec fn image_name(p: Seq<char>) -> bool {
    exists|i: int| 0 <= i < image_extensions().len() && has_extension(p, #[trigger] image_extensions()[i])
}

/// Whether page `i` of `entries` has its texture in `cache`.
pub open spec fn page_cached<T>(cache: Seq<(Seq<char>, T)>, entries: Seq<Seq<char>>, i: int) -> bool {
    0 <= i < entries.len() && entry_lookup(cache, cache_key(i as nat, entries[i])) is Some
}

/// Whether the target page can be shown: its texture is there, and in manga mode,
/// when it is a portrait page that pairs with the one after it (any page but the
/// unshifted cover), that one's texture is there too.
pub open spec fn target_ready<T>(
    cache: Seq<(Seq<char>, T)>,
    entries: Seq<Seq<char>>,
    target: int,
    manga: bool,
    shift: bool,
    target_portrait: bool,
) -> bool {
    &&& page_cached(cache, entries, target)
    &&& (manga && (shift || target > 0) && target_portrait && target + 1 < entries.len()) ==> page_cached(
        cache,
        entries,
        target + 1,
    )
}

/// Whether a decode failure of page `index` is shown as the viewer's error: it
/// concerns the target page, or in manga mode the page paired with it.
pub fn failure_concerns_target(index: usize, target: usize, manga: bool) -> (b: bool)
    ensures
        b == (index == target || (manga && index == target + 1)),
{
    index == target || (manga && target < usize::MAX && index == target + 1)
}

/// Entry names of a listing.
pub open spec fn meta_names(m: Seq<ImageEntry>) -> Seq<Seq<char>> {
    m.map_values(|e: ImageEntry| e.name@)
}

/// The rotation kept for an entry (none kept: unrotated).
pub open spec fn rotation_for(rots: Map<Seq<char>, Rotation>, name: Seq<char>) -> Rotation {
    if rots.dom().contains(name) {
        rots[name]
    } else {
        Rotation::R0
    }
}

/// Index of the first entry whose name contains `focus`, or 0.
pub open spec fn focus_index(entries: Seq<Seq<char>>, focus: Seq<char>) -> nat
    decreases entries.len(),
{
    first_containing(entries, focus, 0)
}

pub open spec fn first_containing(entries: Seq<Seq<char>>, focus: Seq<char>, i: nat) -> nat
    decreases entries.len() - i,
{
    if i >= entries.len() {
        0
    } else if contains_text(entries[i as int], focus) {
        i
    } else {
        first_containing(entries, focus, i + 1)
    }
}

/// `str::contains`: `t` occurs in `s` at some position.
pub open spec fn contains_text(s: Seq<char>, t: Seq<char>) -> bool {
    exists|p: int| 0 <= p && p + t.len() <= s.len() && #[trigger] s.subrange(p, p + t.len()) == t
}

fn contains_chars(s: &Vec<char>, t: &Vec<char>) -> (r: bool)
    ensures
        r == contains_text(s@, t@),
{
    if t.len() > s.len() {
        assert forall|p: int| 0 <= p && p + t@.len() <= s@.len() implies #[trigger] s@.subrange(p, p + t@.len()) != t@ by {}
        return false;
    }
    let mut p: usize = 0;
    while p <= s.len() - t.len()
        invariant
            t@.len() <= s@.len(),
            p <= s@.len() - t@.len() + 1,
            forall|q: int| 0 <= q < p ==> #[trigger] s@.subrange(q, q + t@.len()) != t@,
        decreases s.len() - t.len() + 1 - p,
    {
        let mut k: usize = 0;
        let mut same = true;
        while k < t.len()
            invariant
                k <= t@.len(),
                p + t@.len() <= s@.len(),
                s@.len() <= usize::MAX,
                same == (forall|j: int| 0 <= j < k ==> s@[p + j] == t@[j]),
            decreases t.len() - k,
        {
            assert(p + k < s@.len());
            if s[p + k] != t[k] {
                same = false;
            }
            k = k + 1;
        }
        if same {
            assert(s@.subrange(p as int, p + t@.len()) =~= t@);
            return true;
        }
        assert(s@.subrange(p as int, p + t@.len()) != t@) by {
            let j = choose|j: int| 0 <= j < t@.len() && s@[p + j] != t@[j];
            assert(s@.subrange(p as int, p + t@.len())[j] == s@[p + j]);
        }
        p = p + 1;
    }
    false
}

/// The names of the entries of a listing, in order.
fn names_of(meta: &Vec<ImageEntry>) -> (names: Vec<String>)
    ensures
        strings_view(names@) == meta_names(meta@),
{
    let mut names: Vec<String> = Vec::new();
    let mut i: usize = 0;
    while i < meta.len()
        invariant
            i <= meta@.len(),
            strings_view(names@) == meta_names(meta@).take(i as int),
        decreases meta.len() - i,
    {
        let n = meta[i].name.clone();
        let ghost before = strings_view(names@);
        names.push(n);
        assert(strings_view(names@) =~= before.push(meta@[i as int].name@));
        i = i + 1;
        assert(strings_view(names@) =~= meta_names(meta@).take(i as int));
    }
    assert(meta_names(meta@).take(i as int) =~= meta_names(meta@));
    names
}

/// The first position at or after `i` where `s` holds `x`.
pub open spec fn first_position(s: Seq<Seq<char>>, x: Seq<char>, i: nat) -> Option<nat>
    decreases s.len() - i,
{
    if i >= s.len() {
        None
    } else if s[i as int] == x {
        Some(i)
    } else {
        first_position(s, x, i + 1)
    }
}

/// Where `x` first occurs in `names`.
fn position_of(names: &Vec<String>, x: &str) -> (r: Option<usize>)
    ensures
        match r {
            Some(p) => first_position(strings_view(names@), x@, 0) == Some(p as nat),
            None => first_position(strings_view(names@), x@, 0) is None,
        },
{
    let ghost s = strings_view(names@);
    let mut i: usize = 0;
    while i < names.len()
        invariant
            i <= names@.len(),
            s == strings_view(names@),
            first_position(s, x@, 0) == first_position(s, x@, i as nat),
        decreases names.len() - i,
    {
        assert(s[i as int] == names@[i as int]@);
        if str_eq(names[i].as_str(), x) {
            return Some(i);
        }
        i = i + 1;
    }
    None
}

/// The page shown first after a listing arrives: the first entry whose name contains the
/// name to focus on (0 when none does); else, when asked to open at the end, the last page
/// (see `last_page_index`); else the first page.
pub open spec fn start_index_of(
    entries: Seq<Seq<char>>,
    focus: Option<Seq<char>>,
    go_last: bool,
    manga: bool,
    shift: bool,
) -> nat {
    match focus {
        Some(f) => focus_index(entries, f),
        None => if go_last {
            last_page_of(entries.len(), manga, shift)
        } else {
            0
        },
    }
}

/// The page shown first after a listing arrives (see `start_index_of`).
pub fn start_index(
    entries: &Vec<String>,
    focus: Option<&str>,
    go_last: bool,
    manga: bool,
    shift: bool,
) -> (r: usize)
    ensures
        r == start_index_of(
            strings_view(entries@),
            match focus {
                Some(f) => Some(f@),
                None => None,
            },
            go_last,
            manga,
            shift,
        ),
{
    let ghost ev = strings_view(entries@);
    match focus {
        Some(f) => {
            let fc = str_chars(f);
            let mut i: usize = 0;
            while i < entries.len()
                invariant
                    i <= entries@.len(),
                    ev == strings_view(entries@),
                    fc@ == f@,
                    focus == Some(f),
                    first_containing(ev, f@, 0) == first_containing(ev, f@, i as nat),
                decreases entries.len() - i,
            {
                let e = str_chars(entries[i].as_str());
                assert(ev[i as int] == e@);
                if contains_chars(&e, &fc) {
                    assert(contains_text(ev[i as int], f@));
                    assert(first_containing(ev, f@, i as nat) == i);
                    return i;
                }
                i = i + 1;
            }
            0
        },
        None => {
            if go_last {
                last_page_index(entries.len(), manga, shift)
            } else {
                0
            }
        },
    }
}

/// Image list, position and cache bookkeeping of the open folder or archive.
pub struct Manager<T, R: ArchiveReader> {
    pub archive_path: Option<String>,
    pub entries: Vec<String>,
    pub entries_meta: Vec<ImageEntry>,
    /// The page shown.
    pub current: usize,
    /// The page being moved to (shown once it is loaded).
    pub target_index: usize,
    /// Rotation chosen for each entry, by entry name.
    pub rotations: PathMap<Rotation>,
    /// Open a folder at its end when moving backwards into it.
    pub open_from_end: bool,
    pub tree: NavTree<R>,
    /// Entry to show once the listing arrives.
    pub pending_focus: Option<String>,
    /// Show the last page once the listing arrives.
    pub pending_go_last: bool,
    /// A listing is being read.
    pub is_listing: bool,
    pub cache: TextureCache<T>,
    /// Keys of decode requests in flight.
    pub pending: PendingSet,
    /// Bumped whenever the cache is dropped, so that late results are recognised.
    pub generation: u64,
}

impl<T, R: ArchiveReader> Manager<T, R> {
    /// Nothing open, nothing cached.
    pub fn new(archive_reader: R) -> (r: Self)
        ensures
            r.archive_path is None,
            r.entries@.len() == 0,
            r.entries_meta@.len() == 0,
            r.current == 0,
            r.target_index == 0,
            r.rotations@ == Map::<Seq<char>, Rotation>::empty(),
            !r.open_from_end,
            r.pending_focus is None,
            !r.pending_go_last,
            !r.is_listing,
            r.cache@.len() == 0,
            r.pending@ == Set::<Seq<char>>::empty(),
            r.generation == 0,
    {
        Manager {
            archive_path: None,
            entries: Vec::new(),
            entries_meta: Vec::new(),
            current: 0,
            target_index: 0,
            rotations: PathMap::new(),
            open_from_end: false,
            tree: NavTree::new(archive_reader),
            pending_focus: None,
            pending_go_last: false,
            is_listing: false,
            cache: TextureCache::new(),
            pending: PendingSet::new(),
            generation: 0,
        }
    }

    /// Number of cached pages.
    pub fn cache_len(&self) -> (r: usize)
        ensures
            r == self.cache@.len(),
            r <= crate::cache::CACHE_MAX,
    {
        self.cache.len()
    }

    /// What turning forward does (see `go_next`), `r` telling whether it moved: `new` is
    /// `self` with the target moved by the page step when that stays in the listing.
    pub open spec fn next_turn<F: Fn(usize) -> bool>(
        self,
        new: Self,
        r: bool,
        manga: bool,
        shift: bool,
        is_spread: F,
    ) -> bool {
        &&& (exists|here: bool, after: bool|
            (next_looks(manga, shift, self.entries@.len() as nat, self.target_index as nat)
                ==> (call_ensures(is_spread, (self.target_index,), here) && (here
                || call_ensures(is_spread, ((self.target_index + 1) as usize,), after))))
                && r == (self.target_index + next_step_of(
                manga,
                shift,
                self.entries@.len() as nat,
                self.target_index as nat,
                here,
                after,
            ) < self.entries@.len()) && new.target_index == (if r {
                self.target_index + next_step_of(
                    manga,
                    shift,
                    self.entries@.len() as nat,
                    self.target_index as nat,
                    here,
                    after,
                )
            } else {
                self.target_index as int
            }))
        &&& (self.entries@.len() == 0 ==> !r)
        &&& (r ==> new.target_index < self.entries@.len())
        &&& (new.entries@ == self.entries@)
        &&& (new.current == self.current)
        &&& (new.cache@ == self.cache@)
        &&& (new.pending@ == self.pending@)
        &&& new.archive_path == self.archive_path
        &&& new.entries_meta@ == self.entries_meta@
        &&& new.rotations@ == self.rotations@
        &&& new.generation == self.generation
    }

    /// What turning back does (see `go_prev`), `r` telling whether it moved.
    pub open spec fn prev_turn<F: Fn(usize) -> bool>(
        self,
        new: Self,
        r: bool,
        manga: bool,
        shift: bool,
        is_spread: F,
    ) -> bool {
        &&& (r == (self.target_index != 0))
        &&& (r ==> exists|before: bool, before2: bool|
            (prev_looks(manga, shift, self.target_index as nat) ==> (call_ensures(
                is_spread,
                ((self.target_index - 1) as usize,),
                before,
            ) && call_ensures(is_spread, ((self.target_index - 2) as usize,), before2)))
                && new.target_index == (if self.target_index >= prev_step_of(
                manga,
                shift,
                self.target_index as nat,
                before,
                before2,
            ) {
                self.target_index - prev_step_of(
                    manga,
                    shift,
                    self.target_index as nat,
                    before,
                    before2,
                )
            } else {
                0
            }))
        &&& (!r ==> new.target_index == self.target_index)
        &&& (new.entries@ == self.entries@)
        &&& (new.current == self.current)
        &&& (new.cache@ == self.cache@)
        &&& (new.pending@ == self.pending@)
        &&& new.archive_path == self.archive_path
        &&& new.entries_meta@ == self.entries_meta@
        &&& new.rotations@ == self.rotations@
        &&& new.generation == self.generation
    }

    /// What prefetching around the target does (see `schedule_prefetch`), `r` being the
    /// requests handed out.
    pub open spec fn prefetched(
        self,
        new: Self,
        r: Seq<DecodeRequest>,
        filter_mode: FilterMode,
        manga: bool,
        max_dim: u32,
        indexed: bool,
    ) -> bool {
        &&& (self.archive_path is None || self.entries@.len() == 0 ==> r.len() == 0
            && new.cache@ == self.cache@ && new.pending@ == self.pending@)
        &&& (self.archive_path is Some && self.entries@.len() > 0 ==> ({
            let len = self.entries@.len() as nat;
            let target = self.target_index as nat;
            let names = meta_names(self.entries_meta@).take(
                if self.entries_meta@.len() < len {
                    self.entries_meta@.len() as int
                } else {
                    len as int
                },
            );
            let order = prefetch_order(target, len, manga);
            let res = requested(order, order.len() as int, names, cached_keys(self.cache@), self.pending@);
            let lo = prefetch_lo(target, manga);
            let hi = prefetch_hi(target, len, manga);
            &&& request_views(r) == res.0
            &&& forall|j: int| 0 <= j < r.len() ==> request_fits(
                #[trigger] r[j],
                self.archive_path->0@,
                self.entries_meta@,
                self.rotations@,
                indexed,
                max_dim,
                filter_mode,
                self.generation,
            )
            &&& new.pending@ == res.1.filter(|k: Seq<char>| key_in_range(k, lo, hi))
            &&& new.cache@ == entries_in_range(self.cache@, lo, hi)
        }))
        &&& (new.entries@ == self.entries@)
        &&& (new.target_index == self.target_index)
        &&& (new.current == self.current)
        &&& (new.generation == self.generation)
    }

    /// Moves the target forward by the page step (see `next_step`) when that stays inside
    /// the listing; says whether it moved.
    pub fn go_next(&mut self, manga: bool, shift: bool, is_spread: impl Fn(usize) -> bool) -> (r: bool)
        requires
            old(self).target_index < usize::MAX,
            forall|i: usize| call_requires(is_spread, (i,)),
        ensures
            old(self).next_turn(*final(self), r, manga, shift, is_spread),
    {
        if self.entries.len() == 0 {
            assert(!next_looks(manga, shift, 0, self.target_index as nat));
            assert(self.target_index + next_step_of(manga, shift, 0, self.target_index as nat, false, false) >= 0);
            return false;
        }
        let step = next_step(manga, shift, self.entries.len(), self.target_index, is_spread);
        if self.target_index < self.entries.len() && step < self.entries.len() - self.target_index {
            self.target_index = self.target_index + step;
            true
        } else {
            false
        }
    }

    /// Turns forward (see `go_next`) and, when the target moved, sends for the pages
    /// around it (see `schedule_prefetch`); gives whether it moved and the requests.
    pub fn next_page(
        &mut self,
        manga: bool,
        shift: bool,
        is_spread: impl Fn(usize) -> bool,
        filter_mode: FilterMode,
        max_dim: u32,
        indexed: bool,
    ) -> (r: (bool, Vec<DecodeRequest>))
        requires
            old(self).target_index < usize::MAX,
            forall|i: usize| call_requires(is_spread, (i,)),
        ensures
            exists|mid: Self|
                #[trigger] old(self).next_turn(mid, r.0, manga, shift, is_spread) && (r.0 ==> mid.prefetched(
                    *final(self),
                    r.1@,
                    filter_mode,
                    manga,
                    max_dim,
                    indexed,
                )) && (!r.0 ==> r.1@.len() == 0 && *final(self) == mid),
    {
        let moved = self.go_next(manga, shift, is_spread);
        let ghost mid = *self;
        assert(self.entries@.len() == self.entries.len());
        if moved {
            let reqs = self.schedule_prefetch(filter_mode, manga, max_dim, indexed);
            let result = (moved, reqs);
            assert(old(self).next_turn(mid, result.0, manga, shift, is_spread));
            result
        } else {
            let result = (moved, Vec::new());
            assert(old(self).next_turn(mid, result.0, manga, shift, is_spread));
            result
        }
    }

    /// Turns back (see `go_prev`) and, when the target moved, sends for the pages around
    /// it (see `schedule_prefetch`); gives whether it moved and the requests.
    pub fn prev_page(
        &mut self,
        manga: bool,
        shift: bool,
        is_spread: impl Fn(usize) -> bool,
        filter_mode: FilterMode,
        max_dim: u32,
        indexed: bool,
    ) -> (r: (bool, Vec<DecodeRequest>))
        requires
            old(self).target_index < usize::MAX,
            forall|i: usize| call_requires(is_spread, (i,)),
        ensures
            exists|mid: Self|
                #[trigger] old(self).prev_turn(mid, r.0, manga, shift, is_spread) && (r.0 ==> mid.prefetched(
                    *final(self),
                    r.1@,
                    filter_mode,
                    manga,
                    max_dim,
                    indexed,
                )) && (!r.0 ==> r.1@.len() == 0 && *final(self) == mid),
    {
        let moved = self.go_prev(manga, shift, is_spread);
        let ghost mid = *self;
        assert(self.entries@.len() == self.entries.len());
        if moved {
            assert(self.target_index < usize::MAX);
            let reqs = self.schedule_prefetch(filter_mode, manga, max_dim, indexed);
            let result = (moved, reqs);
            assert(old(self).prev_turn(mid, result.0, manga, shift, is_spread));
            result
        } else {
            let result = (moved, Vec::new());
            assert(old(self).prev_turn(mid, result.0, manga, shift, is_spread));
            result
        }
    }

    /// Moves the target back by the page step (see `prev_step`), stopping at the first page;
    /// says whether it moved (it does not at the first page).
    pub fn go_prev(&mut self, manga: bool, shift: bool, is_spread: impl Fn(usize) -> bool) -> (r: bool)
        requires
            forall|i: usize| call_requires(is_spread, (i,)),
        ensures
            old(self).prev_turn(*final(self), r, manga, shift, is_spread),
    {
        if self.target_index == 0 {
            return false;
        }
        let step = prev_step(manga, shift, self.target_index, is_spread);
        self.target_index = if self.target_index >= step {
            self.target_index - step
        } else {
            0
        };
        true
    }

    /// Drops every cached page and in-flight request, and starts a new cache generation.
    pub fn clear_cache(&mut self)
        ensures
            final(self).cache@.len() == 0,
            final(self).pending@ == Set::<Seq<char>>::empty(),
            final(self).generation == (if old(self).generation == u64::MAX {
                0
            } else {
                old(self).generation + 1
            }),
            final(self).entries@ == old(self).entries@,
            final(self).target_index == old(self).target_index,
            final(self).current == old(self).current,
            final(self).pending_focus == old(self).pending_focus,
            final(self).archive_path == old(self).archive_path,
            final(self).tree == old(self).tree,
            final(self).open_from_end == old(self).open_from_end,
    {
        self.cache.clear();
        self.pending.clear();
        self.generation = if self.generation == u64::MAX {
            0
        } else {
            self.generation + 1
        };
    }

    /// Drops the cached page and the in-flight request filed under `key`.
    pub fn invalidate(&mut self, key: &str)
        ensures
            final(self).cache@ == crate::cache::without_key(old(self).cache@, key@),
            final(self).pending@ == old(self).pending@.remove(key@),
            final(self).entries@ == old(self).entries@,
            final(self).target_index == old(self).target_index,
            final(self).current == old(self).current,
            final(self).rotations@ == old(self).rotations@,
            final(self).generation == old(self).generation,
    {
        self.cache.remove(key);
        self.pending.remove(key);
    }

    /// Invalidates for a changed entry; the key passed on is the entry name itself.
    pub fn invalidate_cache_for(&mut self, _index: usize, entry_name: &str)
        ensures
            final(self).cache@ == crate::cache::without_key(old(self).cache@, entry_name@),
            final(self).pending@ == old(self).pending@.remove(entry_name@),
            final(self).entries@ == old(self).entries@,
            final(self).target_index == old(self).target_index,
            final(self).current == old(self).current,
            final(self).rotations@ == old(self).rotations@,
    {
        self.invalidate(entry_name);
    }

    /// Starts reading a new listing of `base_path`: drops the cache and the old listing,
    /// goes to the first page, and remembers which entry (if any) to show and whether to
    /// open at the end.
    pub fn begin_listing(&mut self, base_path: String, start_name: Option<String>, go_last: bool)
        ensures
            final(self).cache@.len() == 0,
            final(self).pending@ == Set::<Seq<char>>::empty(),
            final(self).current == 0,
            final(self).target_index == 0,
            final(self).is_listing,
            final(self).pending_go_last == go_last,
            opt_view(final(self).archive_path) == Some(base_path@),
            final(self).entries_meta@.len() == 0,
            final(self).tree == old(self).tree,
            final(self).open_from_end == old(self).open_from_end,
            match start_name {
                Some(n) => strings_view(final(self).entries@) == seq![n@] && opt_view(
                    final(self).pending_focus,
                ) == Some(n@),
                None => final(self).entries@.len() == 0 && final(self).pending_focus
                    == old(self).pending_focus,
            },
    {
        self.clear_cache();
        self.entries = Vec::new();
        self.entries_meta = Vec::new();
        self.current = 0;
        self.target_index = 0;
        self.is_listing = true;
        self.pending_go_last = go_last;
        self.archive_path = Some(base_path);
        match start_name {
            Some(name) => {
                let mut v: Vec<String> = Vec::new();
                v.push(name.clone());
                assert(strings_view(v@) =~= seq![name@]);
                self.entries = v;
                self.pending_focus = Some(name);
            },
            None => {},
        }
    }

    /// Opens `path` (`is_file`: whether it is a file on disk): an image file opens its
    /// folder at that image, anything else opens as a listing of its own. The listing
    /// is begun (see `begin_listing`, opening at the end when so configured) and its
    /// base path is returned for the caller to read.
    pub fn open_path(&mut self, path: &str, is_file: bool) -> (base: String)
        ensures
            final(self).cache@.len() == 0,
            final(self).pending@ == Set::<Seq<char>>::empty(),
            final(self).current == 0,
            final(self).target_index == 0,
            final(self).is_listing,
            final(self).pending_go_last == old(self).open_from_end,
            final(self).entries_meta@.len() == 0,
            opt_view(final(self).archive_path) == Some(base@),
            ({
                let c = clean_path_of(path@);
                if is_file && image_name(c) {
                    &&& (base@ == c || parent_of(base@, c))
                    &&& ((final(self).pending_focus matches Some(n) && strings_view(final(self).entries@)
                        == seq![n@] && last_name_of(n@, c)) || (final(self).entries@.len() == 0
                        && final(self).pending_focus == old(self).pending_focus))
                } else {
                    &&& base@ == c
                    &&& final(self).entries@.len() == 0
                    &&& final(self).pending_focus == old(self).pending_focus
                }
            }),
    {
        let cleaned = clean_path(path);
        let (b, start) = if is_file && is_image_name(cleaned.as_str()) {
            let parent = match path_parent(cleaned.as_str()) {
                Some(q) => q,
                None => cleaned.clone(),
            };
            (parent, path_file_name(cleaned.as_str()))
        } else {
            (cleaned.clone(), None)
        };
        let go_last = self.open_from_end;
        let ret = b.clone();
        self.begin_listing(b, start, go_last);
        ret
    }

    /// Moves to the folder or archive `path`, to show the entry named like the last
    /// component of `focus_hint` (when there is one) or else, with `go_last`, the last
    /// page. The listing is begun and its path returned for the caller to read.
    pub fn move_to_dir(&mut self, path: &str, focus_hint: Option<&str>, go_last: bool) -> (base: String)
        ensures
            base@ == clean_path_of(path@),
            opt_view(final(self).archive_path) == Some(base@),
            final(self).cache@.len() == 0,
            final(self).pending@ == Set::<Seq<char>>::empty(),
            final(self).current == 0,
            final(self).target_index == 0,
            final(self).is_listing,
            final(self).pending_go_last == go_last,
            final(self).entries@.len() == 0,
            final(self).entries_meta@.len() == 0,
            focus_hint is None ==> final(self).pending_focus is None,
            final(self).pending_focus matches Some(n) ==> focus_hint matches Some(h) && last_name_of(n@, h@),
            final(self).tree == old(self).tree,
            final(self).open_from_end == old(self).open_from_end,
    {
        let cleaned = clean_path(path);
        let ret = cleaned.clone();
        self.begin_listing(cleaned, None, go_last);
        self.pending_focus = match focus_hint {
            Some(h) => path_file_name(h),
            None => None,
        };
        ret
    }

    /// Moves to the folder or archive beside the open one (`forward`: the next, else the
    /// previous, among the siblings the tree lists), focused on the entry named like the
    /// folder left and, when moving backwards with `open_from_end`, at the last page. Gives
    /// the path of the listing begun, or `None` (nothing begun) when nothing is open or it
    /// has no such neighbour.
    pub fn go_relative_dir(&mut self, forward: bool) -> (r: Option<String>)
        ensures
            old(self).archive_path is None ==> r is None && *final(self) == *old(self),
            old(self).archive_path matches Some(curr) ==> exists|l: Seq<Seq<char>>|
                #[trigger] siblings_listed(
                    old(self).tree.nodes@,
                    final(self).tree.nodes@,
                    clean_path_of(curr@),
                    l,
                ) && match neighbour(l, clean_path_of(curr@), forward) {
                    None => {
                        &&& r is None
                        &&& final(self).archive_path == old(self).archive_path
                        &&& final(self).entries == old(self).entries
                        &&& final(self).current == old(self).current
                        &&& final(self).target_index == old(self).target_index
                        &&& final(self).is_listing == old(self).is_listing
                    },
                    Some(d) => {
                        &&& r matches Some(b) && b@ == clean_path_of(d)
                        &&& opt_view(final(self).archive_path) == Some(clean_path_of(d))
                        &&& final(self).is_listing
                        &&& final(self).current == 0
                        &&& final(self).target_index == 0
                        &&& final(self).entries@.len() == 0
                        &&& final(self).cache@.len() == 0
                        &&& final(self).pending_go_last == (!forward && old(self).open_from_end)
                        &&& final(self).pending_focus matches Some(n) ==> last_name_of(n@, curr@)
                    },
                },
    {
        let curr = match &self.archive_path {
            Some(c) => c.clone(),
            None => return None,
        };
        let target = self.tree.get_relative_target(curr.as_str(), forward);
        match target {
            Some(dest) => {
                let go_last = !forward && self.open_from_end;
                let base = self.move_to_dir(dest.as_str(), Some(curr.as_str()), go_last);
                Some(base)
            },
            None => None,
        }
    }

    /// Takes an arrived listing: the entries (in the listing's order, to be sorted by the
    /// caller) and the path; the listing is no longer being read.
    pub fn take_listing(&mut self, path: String, meta: Vec<ImageEntry>)
        ensures
            strings_view(final(self).entries@) == meta_names(meta@),
            final(self).entries_meta@ == meta@,
            opt_view(final(self).archive_path) == Some(path@),
            !final(self).is_listing,
            final(self).current == old(self).current,
            final(self).target_index == old(self).target_index,
            final(self).pending_focus == old(self).pending_focus,
            final(self).pending_go_last == old(self).pending_go_last,
    {
        let names = names_of(&meta);
        self.entries = names;
        self.entries_meta = meta;
        self.archive_path = Some(path);
        self.is_listing = false;
    }

    /// Sorts the listing under the configured sort setting (stably), and keeps the
    /// page that was shown: the shown and target page move to the first entry with
    /// its name, when there is one.
    pub fn apply_sorting(&mut self, config: &Config)
        ensures
            stably_sorted(
                old(self).entries_meta@,
                final(self).entries_meta@,
                config.sort_mode,
                config.sort_order,
                config.sort_natural,
            ),
            strings_view(final(self).entries@) == meta_names(final(self).entries_meta@),
            ({
                let moved = if old(self).current < old(self).entries@.len() {
                    first_position(
                        meta_names(final(self).entries_meta@),
                        old(self).entries@[old(self).current as int]@,
                        0,
                    )
                } else {
                    None
                };
                match moved {
                    Some(p) => final(self).current == p && final(self).target_index == p,
                    None => final(self).current == old(self).current && final(self).target_index
                        == old(self).target_index,
                }
            }),
            final(self).archive_path == old(self).archive_path,
            final(self).rotations == old(self).rotations,
            final(self).cache == old(self).cache,
            final(self).pending == old(self).pending,
            final(self).generation == old(self).generation,
            final(self).pending_focus == old(self).pending_focus,
            final(self).pending_go_last == old(self).pending_go_last,
            final(self).is_listing == old(self).is_listing,
            final(self).open_from_end == old(self).open_from_end,
            final(self).tree == old(self).tree,
    {
        let ghost old_entries = strings_view(self.entries@);
        let shown: Option<String> = if self.current < self.entries.len() {
            let n = self.entries[self.current].clone();
            assert(n@ == old_entries[self.current as int]);
            Some(n)
        } else {
            None
        };
        let mut meta: Vec<ImageEntry> = Vec::new();
        std::mem::swap(&mut meta, &mut self.entries_meta);
        let sorted = sort_entries(meta, config.sort_mode, config.sort_order, config.sort_natural);
        self.entries = names_of(&sorted);
        self.entries_meta = sorted;
        if let Some(name) = shown {
            if let Some(p) = position_of(&self.entries, name.as_str()) {
                self.current = p;
                self.target_index = p;
            }
        }
    }

    /// Whether page `i` has its texture cached.
    fn has_page(&self, i: usize) -> (b: bool)
        ensures
            b == page_cached(self.cache@, strings_view(self.entries@), i as int),
    {
        if i >= self.entries.len() {
            return false;
        }
        let key = make_cache_key(i, self.entries[i].as_str());
        self.cache.contains(key.as_str())
    }

    /// Lets the shown page catch up with the target once the target can be shown (see
    /// `target_ready`; `target_portrait`: the target's image is not wider than tall),
    /// while a listing is loading or the two differ. Returns whether it caught up.
    pub fn sync_display_to_target(&mut self, manga: bool, shift: bool, target_portrait: bool, loading: bool) -> (caught_up: bool)
        ensures
            caught_up == ((loading || old(self).current != old(self).target_index) && target_ready(
                old(self).cache@,
                strings_view(old(self).entries@),
                old(self).target_index as int,
                manga,
                shift,
                target_portrait,
            )),
            final(self).current == (if caught_up {
                old(self).target_index
            } else {
                old(self).current
            }),
            final(self).target_index == old(self).target_index,
            final(self).entries == old(self).entries,
            final(self).entries_meta == old(self).entries_meta,
            final(self).cache == old(self).cache,
            final(self).pending == old(self).pending,
            final(self).generation == old(self).generation,
            final(self).archive_path == old(self).archive_path,
            final(self).is_listing == old(self).is_listing,
    {
        let target = self.target_index;
        if !(loading || self.current != target) {
            return false;
        }
        if !self.has_page(target) {
            return false;
        }
        if manga && (shift || target > 0) && target_portrait && target < self.entries.len() - 1 {
            if !self.has_page(target + 1) {
                return false;
            }
        }
        self.current = target;
        true
    }

    /// Picks the first page to show once the (sorted) listing is in (see `start_index`),
    /// clearing the remembered focus and end flag.
    pub fn choose_start(&mut self, manga: bool, shift: bool)
        ensures
            final(self).current == start_index_of(
                strings_view(old(self).entries@),
                opt_view(old(self).pending_focus),
                old(self).pending_go_last,
                manga,
                shift,
            ),
            final(self).target_index == final(self).current,
            final(self).pending_focus is None,
            !final(self).pending_go_last,
            final(self).entries@ == old(self).entries@,
            final(self).entries_meta@ == old(self).entries_meta@,
            final(self).archive_path == old(self).archive_path,
            final(self).is_listing == old(self).is_listing,
            final(self).cache@ == old(self).cache@,
            final(self).pending@ == old(self).pending@,
            final(self).generation == old(self).generation,
            final(self).rotations@ == old(self).rotations@,
            final(self).tree == old(self).tree,
            final(self).open_from_end == old(self).open_from_end,
    {
        let go_last = self.pending_go_last;
        self.pending_go_last = false;
        let start = match &self.pending_focus {
            Some(f) => start_index(&self.entries, Some(f.as_str()), go_last, manga, shift),
            None => start_index(&self.entries, None, go_last, manga, shift),
        };
        self.pending_focus = None;
        self.current = start;
        self.target_index = start;
    }
    /// A decode result arrived for `key`: the key is no longer in flight, and the result is
    /// to be kept only when it belongs to the current cache generation.
    pub fn accept_result(&mut self, key: &str, result_generation: u64) -> (r: bool)
        ensures
            r == (result_generation == old(self).generation),
            final(self).pending@ == old(self).pending@.remove(key@),
            final(self).cache@ == old(self).cache@,
            final(self).generation == old(self).generation,
            final(self).entries@ == old(self).entries@,
            final(self).target_index == old(self).target_index,
            final(self).current == old(self).current,
    {
        self.pending.remove(key);
        result_generation == self.generation
    }

    /// Files a decoded page under `key` as the most recent cache entry (see
    /// `TextureCache::insert`).
    pub fn store(&mut self, key: String, image: T)
        ensures
            final(self).cache@ == crate::cache::lru_insert(old(self).cache@, key@, image),
            final(self).pending@ == old(self).pending@,
            final(self).generation == old(self).generation,
            final(self).entries@ == old(self).entries@,
            final(self).target_index == old(self).target_index,
            final(self).current == old(self).current,
    {
        self.cache.insert(key, image);
    }

    fn rotate_one(&mut self, idx: usize, cw: bool)
        ensures
            final(self).rotations@ == rotate_at(old(self).rotations@, strings_view(old(self).entries@), idx as int, cw),
            final(self).entries@ == old(self).entries@,
            final(self).target_index == old(self).target_index,
            final(self).current == old(self).current,
    {
        if idx < self.entries.len() {
            let name = self.entries[idx].clone();
            assert(name@ == strings_view(self.entries@)[idx as int]);
            let rot = match self.rotations.get(name.as_str()) {
                Some(r) => *r,
                None => Rotation::R0,
            };
            let turned = if cw {
                rot.cw()
            } else {
                rot.ccw()
            };
            self.rotations.insert(name.clone(), turned);
            self.invalidate_cache_for(idx, name.as_str());
        }
    }

    /// Rotates the shown page (and the page after it in manga mode) a quarter turn,
    /// clockwise or not, invalidating each (see `invalidate_cache_for`).
    pub fn rotate_shown(&mut self, manga: bool, cw: bool)
        requires
            old(self).current < usize::MAX,
        ensures
            final(self).rotations@ == (if manga {
                rotate_at(
                    rotate_at(old(self).rotations@, strings_view(old(self).entries@), old(self).current as int, cw),
                    strings_view(old(self).entries@),
                    old(self).current + 1,
                    cw,
                )
            } else {
                rotate_at(old(self).rotations@, strings_view(old(self).entries@), old(self).current as int, cw)
            }),
            final(self).entries@ == old(self).entries@,
            final(self).target_index == old(self).target_index,
            final(self).current == old(self).current,
    {
        let cur = self.current;
        self.rotate_one(cur, cw);
        if manga {
            self.rotate_one(cur + 1, cw);
        }
    }

    /// Sends for the pages around the target that are neither cached nor in flight, and
    /// drops cached pages and in-flight keys outside the kept range.
    /// `indexed` tells whether the open archive reads entries by position.
    /// Returns the requests to hand to the workers, in order.
    pub fn schedule_prefetch(
        &mut self,
        filter_mode: FilterMode,
        manga: bool,
        max_dim: u32,
        indexed: bool,
    ) -> (r: Vec<DecodeRequest>)
        requires
            old(self).target_index < usize::MAX,
        ensures
            old(self).prefetched(*final(self), r@, filter_mode, manga, max_dim, indexed),
    {
        let path = match &self.archive_path {
            Some(p) => p.clone(),
            None => {
                return Vec::new();
            },
        };
        let len = self.entries.len();
        if len == 0 {
            return Vec::new();
        }
        let n = if self.entries_meta.len() < len {
            self.entries_meta.len()
        } else {
            len
        };
        let target = self.target_index;
        let step: usize = if manga {
            2
        } else {
            1
        };
        let lo = if target >= PREFETCH_BEHIND * step {
            target - PREFETCH_BEHIND * step
        } else {
            0
        };
        let hi = if target < len && len - target > (PREFETCH_AHEAD + 1) * step {
            target + (PREFETCH_AHEAD + 1) * step
        } else {
            len
        };
        let order = prefetch_order_vec(target, len, manga, lo, hi);
        let ghost names = meta_names(self.entries_meta@).take(n as int);
        let ghost cached = cached_keys(self.cache@);
        let ghost pend0 = self.pending@;
        let ghost ov = order@.map_values(|x: usize| x as nat);
        let mut out: Vec<DecodeRequest> = Vec::new();
        let mut i: usize = 0;
        while i < order.len()
            invariant
                i <= order@.len(),
                ov == order@.map_values(|x: usize| x as nat),
                ov == prefetch_order(target as nat, len as nat, manga),
                n <= self.entries_meta@.len(),
                names == meta_names(self.entries_meta@).take(n as int),
                cached == cached_keys(self.cache@),
                self.cache@ == old(self).cache@,
                self.entries_meta@ == old(self).entries_meta@,
                self.rotations@ == old(self).rotations@,
                self.generation == old(self).generation,
                self.entries@ == old(self).entries@,
                self.target_index == old(self).target_index,
                self.current == old(self).current,
                self.archive_path == old(self).archive_path,
                path@ == old(self).archive_path->0@,
                (request_views(out@), self.pending@) == requested(ov, i as int, names, cached, pend0),
                forall|j: int| 0 <= j < out@.len() ==> request_fits(
                    #[trigger] out@[j],
                    path@,
                    self.entries_meta@,
                    self.rotations@,
                    indexed,
                    max_dim,
                    filter_mode,
                    self.generation,
                ),
            decreases order.len() - i,
        {
            let idx = order[i];
            let ghost prev_out = request_views(out@);
            let ghost prev_pend = self.pending@;
            assert(ov[i as int] == idx as nat);
            if idx < n {
                let name = self.entries_meta[idx].name.clone();
                assert(names[idx as int] == name@);
                let key = make_cache_key(idx, name.as_str());
                let in_cache = self.cache.contains(key.as_str());
                assert(in_cache == cached.contains(key@));
                if !in_cache && !self.pending.contains(key.as_str()) {
                    let rot = match self.rotations.get(name.as_str()) {
                        Some(r) => *r,
                        None => Rotation::R0,
                    };
                    let entry_index = if indexed {
                        Some(self.entries_meta[idx].archive_index)
                    } else {
                        None
                    };
                    self.pending.insert(key.clone());
                    let q = DecodeRequest {
                        index: idx,
                        key,
                        archive_path: path.clone(),
                        entry_name: name,
                        entry_index,
                        rotation: rot,
                        max_dim,
                        filter_mode,
                        generation: self.generation,
                    };
                    out.push(q);
                    assert(request_views(out@) =~= prev_out.push((idx as nat, cache_key(idx as nat, names[idx as int]))));
                }
            }
            i = i + 1;
        }
        assert(ov.len() == order@.len());
        self.cache.retain_range(lo, hi);
        self.pending.retain_range(lo, hi);
        out
    }
}

/// Rotations after entry `idx` (if there is one) is turned a quarter, clockwise or not.
pub open spec fn rotate_at(rots: Map<Seq<char>, Rotation>, entries: Seq<Seq<char>>, idx: int, cw: bool) -> Map<
    Seq<char>,
    Rotation,
> {
    if 0 <= idx < entries.len() {
        rots.insert(
            entries[idx],
            if cw {
                rotation_for(rots, entries[idx]).turned_cw()
            } else {
                rotation_for(rots, entries[idx]).turned_ccw()
            },
        )
    } else {
        rots
    }
}

/// Pages are requested once: the requested keys are distinct, none of them was cached or
/// already in flight, and afterwards the in-flight keys are the earlier ones plus these.
pub proof fn law_requests_fresh(
    order: Seq<nat>,
    n: int,
    names: Seq<Seq<char>>,
    cached: Set<Seq<char>>,
    pending: Set<Seq<char>>,
)
    ensures
        forall|a: int, b: int|
            0 <= a < b < requested(order, n, names, cached, pending).0.len() ==> requested(
                order,
                n,
                names,
                cached,
                pending,
            ).0[a].1 != requested(order, n, names, cached, pending).0[b].1,
        forall|a: int|
            0 <= a < requested(order, n, names, cached, pending).0.len() ==> !cached.contains(
                #[trigger] requested(order, n, names, cached, pending).0[a].1,
            ) && !pending.contains(requested(order, n, names, cached, pending).0[a].1),
        requested(order, n, names, cached, pending).1 == pending.union(
            requested(order, n, names, cached, pending).0.map_values(|q: (nat, Seq<char>)| q.1).to_set(),
        ),
    decreases n,
{
    let res = requested(order, n, names, cached, pending);
    let keys = res.0.map_values(|q: (nat, Seq<char>)| q.1);
    if n <= 0 {
        assert(keys.to_set() =~= Set::<Seq<char>>::empty());
        assert(pending.union(keys.to_set()) =~= pending);
    } else {
        law_requests_fresh(order, n - 1, names, cached, pending);
        let prev = requested(order, n - 1, names, cached, pending);
        let pkeys = prev.0.map_values(|q: (nat, Seq<char>)| q.1);
        let idx = order[n - 1];
        if idx < names.len() {
            let key = cache_key(idx, names[idx as int]);
            if !(cached.contains(key) || prev.1.contains(key)) {
                assert(keys =~= pkeys.push(key));
                assert forall|a: int| 0 <= a < prev.0.len() implies prev.0[a].1 != key by {
                    assert(pkeys[a] == prev.0[a].1);
                    assert(pkeys.to_set().contains(pkeys[a]));
                }
                assert(keys.to_set() =~= pkeys.to_set().insert(key)) by {
                    assert forall|k: Seq<char>| keys.to_set().contains(k) == pkeys.to_set().insert(key).contains(k) by {
                        if keys.contains(k) {
                            let j = choose|j: int| 0 <= j < keys.len() && keys[j] == k;
                            if j < pkeys.len() {
                                assert(pkeys[j] == k);
                            }
                        }
                        if pkeys.contains(k) {
                            let j = choose|j: int| 0 <= j < pkeys.len() && pkeys[j] == k;
                            assert(keys[j] == k);
                        }
                        if k == key {
                            assert(keys[pkeys.len() as int] == k);
                        }
                    }
                }
                assert(res.1 =~= pending.union(keys.to_set()));
            } else {
                assert(keys =~= pkeys);
            }
        } else {
            assert(keys =~= pkeys);
        }
    }
}

/// Index and key of each request.
pub open spec fn request_views(rs: Seq<DecodeRequest>) -> Seq<(nat, Seq<char>)> {
    rs.map_values(|q: DecodeRequest| (q.index as nat, q.key@))
}

/// A request carries what its page calls for: the open path, the entry's name and position
/// (when the archive reads by position), the entry's rotation, and the given decode settings.
pub open spec fn request_fits(
    q: DecodeRequest,
    path: Seq<char>,
    meta: Seq<ImageEntry>,
    rots: Map<Seq<char>, Rotation>,
    indexed: bool,
    max_dim: u32,
    filter_mode: FilterMode,
    generation: u64,
) -> bool {
    &&& q.index < meta.len()
    &&& q.archive_path@ == path
    &&& q.entry_name@ == meta[q.index as int].name@
    &&& q.entry_index == (if indexed {
        Some(meta[q.index as int].archive_index)
    } else {
        None
    })
    &&& q.rotation == rotation_for(rots, meta[q.index as int].name@)
    &&& q.max_dim == max_dim
    &&& q.filter_mode == filter_mode
    &&& q.generation == generation
}

fn prefetch_order_vec(target: usize, len: usize, manga: bool, lo: usize, hi: usize) -> (r: Vec<usize>)
    requires
        target < usize::MAX,
        lo == prefetch_lo(target as nat, manga),
        hi == prefetch_hi(target as nat, len as nat, manga),
    ensures
        r@.map_values(|x: usize| x as nat) == prefetch_order(target as nat, len as nat, manga),
{
    let mut r: Vec<usize> = Vec::new();
    r.push(target);
    if manga {
        r.push(target + 1);
    }
    let ghost first = r@.map_values(|x: usize| x as nat);
    let ghost cnt: nat = if hi >= lo {
        (hi - lo) as nat
    } else {
        0
    };
    let ghost rng = Seq::new(cnt, |k: int| (lo + k) as nat);
    assert(first =~= (if manga {
        seq![target as nat, (target + 1) as nat]
    } else {
        seq![target as nat]
    }));
    let mut i = lo;
    while i < hi
        invariant
            lo <= i || hi <= lo,
            i <= hi || hi <= lo,
            hi >= lo ==> i <= hi,
            hi < lo ==> i == lo,
            i >= lo,
            cnt == (if hi >= lo {
                (hi - lo) as nat
            } else {
                0
            }),
            rng == Seq::new(cnt, |k: int| (lo + k) as nat),
            r@.map_values(|x: usize| x as nat) == first + rng.take(i - lo),
        decreases hi - i,
    {
        let ghost before = r@.map_values(|x: usize| x as nat);
        r.push(i);
        assert(r@.map_values(|x: usize| x as nat) =~= before.push(i as nat));
        assert(rng.take(i + 1 - lo) =~= rng.take(i - lo).push(i as nat));
        i = i + 1;
    }
    proof {
        if hi >= lo {
            assert(i == hi);
            assert(rng.take(i - lo) =~= rng);
        } else {
            assert(i == lo);
            assert(rng.len() == 0);
            assert(rng.take(i - lo) =~= rng);
        }
    }
    r
}

} // verus!
