use vstd::prelude::*;
use crate::path_map::PathMap;
use crate::config::strings_view;
use crate::text::{str_chars, string_of, str_eq};
use crate::startup::opt_view;

verus! {

/// One image of a folder or archive listing.
#[derive(Clone, Debug)]
pub struct ImageEntry {
    pub name: String,
    /// Modification time, in seconds.
    pub mtime: u64,
    /// Size in bytes.
    pub size: u64,
    /// Position of the entry inside its archive.
    pub archive_index: usize,
}

/// Where folders, archives and their images are listed from (the file system and the
/// archive formats the program reads).
pub trait ArchiveReader {
    /// The top-level places (drives).
    fn get_roots(&self) -> Vec<String>;

    /// The images directly inside a folder or an archive.
    fn list_images(&self, path: &str) -> Result<Vec<ImageEntry>, String>;

    /// The folders and archives directly inside a folder, as full paths.
    fn list_nav_targets(&self, path: &str) -> Result<Vec<String>, String>;
}

/// The verbatim prefix `\\?\`.
pub open spec fn verbatim_prefix() -> Seq<char> {
    seq!['\\', '\\', '?', '\\']
}

/// The verbatim UNC prefix `\\?\UNC\`.
pub open spec fn verbatim_unc_prefix() -> Seq<char> {
    seq!['\\', '\\', '?', '\\', 'U', 'N', 'C', '\\']
}

/// A path in its plain form: `\\?\UNC\server\share` becomes `\\server\share` and
/// `\\?\C:\dir` becomes `C:\dir`; other paths stay as they are.
pub open spec fn clean_path_of(p: Seq<char>) -> Seq<char> {
    if p.len() >= 8 && p.take(8) == verbatim_unc_prefix() {
        seq!['\\', '\\'] + p.skip(8)
    } else if p.len() >= 4 && p.take(4) == verbatim_prefix() {
        p.skip(4)
    } else {
        p
    }
}

fn starts_with_chars(v: &Vec<char>, prefix: &Vec<char>) -> (r: bool)
    ensures
        r == (v@.len() >= prefix@.len() && v@.take(prefix@.len() as int) == prefix@),
{
    if v.len() < prefix.len() {
        return false;
    }
    let mut i: usize = 0;
    while i < prefix.len()
        invariant
            i <= prefix@.len() <= v@.len(),
            forall|k: int| 0 <= k < i ==> v@[k] == prefix@[k],
        decreases prefix.len() - i,
    {
        if v[i] != prefix[i] {
            assert(v@.take(prefix@.len() as int)[i as int] != prefix@[i as int]);
            return false;
        }
        i = i + 1;
    }
    assert(v@.take(prefix@.len() as int) =~= prefix@);
    true
}

/// The plain form of a path (see `clean_path_of`).
pub fn clean_path(p: &str) -> (r: String)
    ensures
        r@ == clean_path_of(p@),
{
    let v = str_chars(p);
    let unc = vec!['\\', '\\', '?', '\\', 'U', 'N', 'C', '\\'];
    let verb = vec!['\\', '\\', '?', '\\'];
    assert(unc@ =~= verbatim_unc_prefix());
    assert(verb@ =~= verbatim_prefix());
    let (start, mut out) = if starts_with_chars(&v, &unc) {
        (8usize, vec!['\\', '\\'])
    } else if starts_with_chars(&v, &verb) {
        (4usize, Vec::new())
    } else {
        (0usize, Vec::new())
    };
    let ghost head = out@;
    let mut i: usize = start;
    while i < v.len()
        invariant
            start <= i <= v@.len(),
            out@ == head + v@.subrange(start as int, i as int),
        decreases v.len() - i,
    {
        out.push(v[i]);
        i = i + 1;
        assert(out@ =~= head + v@.subrange(start as int, i as int));
    }
    assert(v@.subrange(start as int, v@.len() as int) =~= v@.skip(start as int));
    assert(out@ =~= clean_path_of(p@));
    string_of(&out)
}

/// `q` is a proper prefix of `p`: what a parent path is of its child.
pub open spec fn proper_prefix(q: Seq<char>, p: Seq<char>) -> bool {
    q.len() < p.len() && q == p.take(q.len() as int)
}

/// Paths that can have no parent: the empty path, one that starts at a root (`/` or
/// `\`), or one that starts with a drive prefix (`C:`).
pub open spec fn root_like(p: Seq<char>) -> bool {
    p.len() == 0 || p[0] == '/' || p[0] == '\\' || (p.len() >= 2 && p[1] == ':')
}

/// The number of images a listing reports: its length, or 0 when listing failed.
pub fn count_of_listing(listing: &Result<Vec<ImageEntry>, String>) -> (r: usize)
    ensures
        r == match listing {
            Ok(e) => e@.len(),
            Err(_) => 0,
        },
{
    match listing {
        Ok(e) => e.len(),
        Err(_) => 0,
    }
}

/// The folders and archives a listing reports: all of them, or none when listing failed.
pub fn targets_of_listing(listing: Result<Vec<String>, String>) -> (r: Vec<String>)
    ensures
        match listing {
            Ok(t) => r@ == t@,
            Err(_) => r@.len() == 0,
        },
{
    match listing {
        Ok(t) => t,
        Err(_) => Vec::new(),
    }
}

/// A path that starts with the verbatim prefix `\\?\`, where `/` is no separator.
pub open spec fn is_verbatim(p: Seq<char>) -> bool {
    p.len() >= 4 && p.take(4) == verbatim_prefix()
}

/// Characters of separators and `.` components: `/`, `\` and `.`.
pub open spec fn path_punct(c: char) -> bool {
    c == '/' || c == '\\' || c == '.'
}

/// `p[i..j]` is one nonempty stretch without `/`, with only separators and dots between
/// position `start` and `i` and after `j`.
pub open spec fn component_span(start: int, p: Seq<char>, i: int, j: int) -> bool {
    &&& start <= i < j <= p.len()
    &&& forall|k: int| start <= k < i ==> path_punct(#[trigger] p[k])
    &&& forall|k: int| i <= k < j ==> #[trigger] p[k] != '/'
    &&& forall|k: int| j <= k < p.len() ==> path_punct(#[trigger] p[k])
}

/// What follows `q` in `p` is a single component, apart from separators and `.`
/// components around it.
pub open spec fn one_component_after(q: Seq<char>, p: Seq<char>) -> bool {
    exists|i: int, j: int| #[trigger] component_span(q.len() as int, p, i, j)
}

/// `q` can be the parent of `p`: a proper prefix of its text, and, unless `p` is verbatim,
/// one that leaves a single component (see `one_component_after`).
pub open spec fn parent_of(q: Seq<char>, p: Seq<char>) -> bool {
    proper_prefix(q, p) && (is_verbatim(p) || one_component_after(q, p))
}

/// Calls `std::path::Path::parent`: the path without its final component, `None` for a
/// root, a bare prefix or the empty path. The parent is a slice of the path from its start
/// with the last component, and the separators and `.` components around it, removed; so
/// it is a proper prefix of the path's text, and what follows it is one component that
/// holds no `/` (a separator on every platform, except after the verbatim prefix). A path
/// that is only a root or prefix starts with a separator or a drive prefix. Which of the
/// prefixes that fit is the parent (the separator and prefix rules of the target platform,
/// such as whether `\\` separates) is left unsaid.
#[verifier::external_body]
pub(crate) fn path_parent(p: &str) -> (r: Option<String>)
    ensures
        r matches Some(q) ==> parent_of(q@, p@),
        r is None ==> root_like(p@),
{
    std::path::Path::new(p).parent().map(|q| q.to_string_lossy().into_owned())
}

/// `n` occurs in `p` at `i`, followed only by separators and dots.
pub open spec fn name_at_end(p: Seq<char>, n: Seq<char>, i: int) -> bool {
    &&& 0 <= i && i + n.len() <= p.len()
    &&& p.subrange(i, i + n.len()) == n
    &&& forall|k: int| i + n.len() <= k < p.len() ==> path_punct(#[trigger] p[k])
}

/// `n` can be the final component of `p`: a nonempty stretch of its text followed only by
/// separators and `.` components, holding no `/` unless `p` is verbatim.
pub open spec fn last_name_of(n: Seq<char>, p: Seq<char>) -> bool {
    &&& n.len() > 0
    &&& exists|i: int| #[trigger] name_at_end(p, n, i)
    &&& !is_verbatim(p) ==> !n.contains('/')
}

/// Calls `std::path::Path::file_name`: the final component of the path when it is a
/// normal one, `None` when the path ends in `..` or is a root. The component is a nonempty
/// slice of the path's text followed only by separators and `.` components; it holds no
/// `/`, which separates on every platform except after the verbatim prefix. Where the
/// component starts (the separator and prefix rules of the target platform) is left
/// unsaid.
#[verifier::external_body]
pub(crate) fn path_file_name(p: &str) -> (r: Option<String>)
    ensures
        r matches Some(n) ==> last_name_of(n@, p@),
{
    std::path::Path::new(p).file_name().map(|n| n.to_string_lossy().into_owned())
}

/// Calls `std::path::Path::is_dir`. The answer depends on the file system at the time of
/// the call, so nothing is claimed of it.
#[verifier::external_body]
fn path_is_dir(p: &str) -> (r: bool) {
    std::path::Path::new(p).is_dir()
}

/// The entry after (`forward`) or before `curr` in `siblings`, where `curr` is found by its
/// first occurrence; `None` when `curr` is not there or has no such neighbour.
pub open spec fn neighbour(siblings: Seq<Seq<char>>, curr: Seq<char>, forward: bool) -> Option<
    Seq<char>,
> {
    if exists|i: int| 0 <= i < siblings.len() && siblings[i] == curr {
        let i = first_index(siblings, curr);
        let j = if forward {
            i + 1
        } else {
            i - 1
        };
        if 0 <= j < siblings.len() {
            Some(siblings[j])
        } else {
            None
        }
    } else {
        None
    }
}

/// Index of the first occurrence of `x` in `s` (`s.len()` when there is none).
pub open spec fn first_index(s: Seq<Seq<char>>, x: Seq<char>) -> int
    decreases s.len(),
{
    if s.len() == 0 {
        0
    } else if s[0] == x {
        0
    } else {
        1 + first_index(s.drop_first(), x)
    }
}

proof fn lemma_first_index(s: Seq<Seq<char>>, x: Seq<char>, i: int)
    requires
        0 <= i <= s.len(),
        forall|k: int| 0 <= k < i ==> s[k] != x,
        i < s.len() ==> s[i] == x,
    ensures
        first_index(s, x) == i,
    decreases i,
{
    if i > 0 {
        assert(s[0] != x);
        lemma_first_index(s.drop_first(), x, i - 1);
    }
}

fn find_path(s: &Vec<String>, x: &str) -> (r: Option<usize>)
    ensures
        r matches Some(i) ==> i < s@.len() && i == first_index(strings_view(s@), x@) && s@[i as int]@
            == x@,
        r is None ==> forall|k: int| 0 <= k < s@.len() ==> s@[k]@ != x@,
{
    let mut i: usize = 0;
    while i < s.len()
        invariant
            i <= s@.len(),
            forall|k: int| 0 <= k < i ==> s@[k]@ != x@,
        decreases s.len() - i,
    {
        if str_eq(s[i].as_str(), x) {
            proof {
                lemma_first_index(strings_view(s@), x@, i as int);
            }
            return Some(i);
        }
        i = i + 1;
    }
    None
}

/// The entry after (`forward`) or before `curr` among `siblings`.
pub fn neighbour_in(siblings: &Vec<String>, curr: &str, forward: bool) -> (r: Option<String>)
    ensures
        opt_view(r) == neighbour(strings_view(siblings@), curr@, forward),
{
    let ghost sv = strings_view(siblings@);
    match find_path(siblings, curr) {
        Some(pos) => {
            assert(sv[pos as int] == curr@);
            if forward {
                if pos < siblings.len() - 1 {
                    Some(siblings[pos + 1].clone())
                } else {
                    None
                }
            } else {
                if pos >= 1 {
                    Some(siblings[pos - 1].clone())
                } else {
                    None
                }
            }
        },
        None => {
            assert(!exists|i: int| 0 <= i < sv.len() && sv[i] == curr@) by {
                if exists|i: int| 0 <= i < sv.len() && sv[i] == curr@ {
                    let i = choose|i: int| 0 <= i < sv.len() && sv[i] == curr@;
                    assert(siblings@[i]@ == curr@);
                }
            }
            None
        },
    }
}

/// The selection after moving `delta` places from `pos` among `len` siblings, held to the
/// first and last of them.
pub open spec fn moved_index(pos: int, delta: int, len: int) -> int {
    if pos + delta < 0 {
        0
    } else if pos + delta > len - 1 {
        len - 1
    } else {
        pos + delta
    }
}

fn clamp_move(pos: usize, delta: isize, len: usize) -> (r: usize)
    requires
        pos < len,
    ensures
        r == moved_index(pos as int, delta as int, len as int),
        r < len,
{
    if delta < 0 {
        let back: usize = if delta == isize::MIN {
            (isize::MAX as usize) + 1
        } else {
            (-delta) as usize
        };
        if back > pos {
            0
        } else {
            pos - back
        }
    } else {
        let fwd = delta as usize;
        if fwd >= len - pos {
            len - 1
        } else {
            pos + fwd
        }
    }
}

/// What asking for the children of `dir` does to the cached listings, `r` being the
/// answer: the cached listing when there is one (nothing changes), else `r`, which is
/// then cached under `dir` (no other listing changes).
pub open spec fn children_listed(
    old_nodes: Map<Seq<char>, Vec<String>>,
    new_nodes: Map<Seq<char>, Vec<String>>,
    dir: Seq<char>,
    r: Seq<Seq<char>>,
) -> bool {
    if old_nodes.dom().contains(dir) {
        r == strings_view(old_nodes[dir]@) && new_nodes == old_nodes
    } else {
        &&& new_nodes.dom() == old_nodes.dom().insert(dir)
        &&& strings_view(new_nodes[dir]@) == r
        &&& forall|k: Seq<char>|
            k != dir && #[trigger] old_nodes.dom().contains(k) ==> new_nodes[k] == old_nodes[k]
    }
}

/// Asking twice for the children of a folder gives the same list, and the second time
/// leaves the cached listings as the first left them.
pub proof fn law_children_cached(
    n0: Map<Seq<char>, Vec<String>>,
    n1: Map<Seq<char>, Vec<String>>,
    n2: Map<Seq<char>, Vec<String>>,
    dir: Seq<char>,
    r1: Seq<Seq<char>>,
    r2: Seq<Seq<char>>,
)
    requires
        children_listed(n0, n1, dir, r1),
        children_listed(n1, n2, dir, r2),
    ensures
        r2 == r1,
        n2 == n1,
{
    assert(n1.dom().contains(dir));
}

/// What asking for the folders beside `path` does, `r` being the answer: the children of
/// its parent (see `parent_of` and `children_listed`); or, for a path that has no
/// parent, the top-level places, with nothing cached.
pub open spec fn siblings_listed(
    old_nodes: Map<Seq<char>, Vec<String>>,
    new_nodes: Map<Seq<char>, Vec<String>>,
    path: Seq<char>,
    r: Seq<Seq<char>>,
) -> bool {
    ||| exists|q: Seq<char>|
        parent_of(q, path) && #[trigger] children_listed(old_nodes, new_nodes, clean_path_of(q), r)
    ||| root_like(path) && new_nodes == old_nodes
}

/// `chain` runs from `start` up through its parents: each entry can be the parent of the
/// one before (see `parent_of`), ending at a path that has no parent.
pub open spec fn parent_chain(chain: Seq<Seq<char>>, start: Seq<char>) -> bool {
    &&& chain.len() >= 1
    &&& chain[0] == start
    &&& root_like(chain.last())
    &&& forall|i: int| 0 <= i < chain.len() - 1 ==> parent_of(#[trigger] chain[i + 1], chain[i])
}

/// Where going up from the selection `sel` goes, `parent` being the parent path found for
/// its plain form: the plain form of that parent, unless there is none or it is the
/// selection's own plain form.
pub open spec fn up_target(sel: Option<Seq<char>>, parent: Option<Seq<char>>) -> Option<Seq<char>> {
    match sel {
        Some(s) => match parent {
            Some(q) => if clean_path_of(q) != clean_path_of(s) {
                Some(clean_path_of(q))
            } else {
                None
            },
            None => None,
        },
        None => None,
    }
}

/// `q` can be what `Path::parent` answers for `p` (see `path_parent`).
pub open spec fn parent_answer(q: Option<Seq<char>>, p: Seq<char>) -> bool {
    match q {
        Some(x) => parent_of(x, p),
        None => root_like(p),
    }
}

/// Each entry of a parent chain past the first is a proper prefix of the first.
proof fn lemma_chain_prefix(chain: Seq<Seq<char>>, j: int)
    requires
        0 < j < chain.len(),
        forall|i: int| 0 <= i < chain.len() - 1 ==> proper_prefix(#[trigger] chain[i + 1], chain[i]),
    ensures
        proper_prefix(chain[j], chain[0]),
    decreases j,
{
    let i = j - 1;
    assert(proper_prefix(chain[i + 1], chain[i]));
    if j > 1 {
        lemma_chain_prefix(chain, i);
        assert(chain[j] =~= chain[0].take(chain[j].len() as int));
    }
}

/// Selecting the first of `roots`: its plain form becomes the selection, scrolled into
/// sight; with no roots the selection and scroll stay.
pub open spec fn first_selected(
    roots: Seq<Seq<char>>,
    old_sel: Option<String>,
    old_scroll: bool,
    sel: Option<String>,
    scroll: bool,
) -> bool {
    if roots.len() > 0 {
        opt_view(sel) == Some(clean_path_of(roots[0])) && scroll
    } else {
        sel == old_sel && scroll == old_scroll
    }
}

/// The folder tree beside the image: cached listings, expanded folders, the selection.
pub struct NavTree<R: ArchiveReader> {
    /// Cached folder listings, by folder path.
    pub nodes: PathMap<Vec<String>>,
    /// Folders shown open.
    pub expanded: PathMap<()>,
    pub selected: Option<String>,
    /// Cached image counts, by folder or archive path.
    pub image_counts: PathMap<usize>,
    /// The view should scroll the selection into sight.
    pub scroll_to_selected: bool,
    /// Where listings come from.
    pub archive_reader: R,
}

impl<R: ArchiveReader> NavTree<R> {
    /// A tree with nothing cached, nothing open and nothing selected.
    pub fn new(archive_reader: R) -> (r: Self)
        ensures
            r.nodes@ == Map::<Seq<char>, Vec<String>>::empty(),
            r.expanded@ == Map::<Seq<char>, ()>::empty(),
            r.selected is None,
            r.image_counts@ == Map::<Seq<char>, usize>::empty(),
            !r.scroll_to_selected,
    {
        NavTree {
            nodes: PathMap::new(),
            expanded: PathMap::new(),
            selected: None,
            image_counts: PathMap::new(),
            scroll_to_selected: false,
            archive_reader,
        }
    }

    /// Forgets the cached listings and image counts (to free memory, or when moving to
    /// another drive).
    pub fn clear_metadata_cache(&mut self)
        ensures
            final(self).nodes@ == Map::<Seq<char>, Vec<String>>::empty(),
            final(self).image_counts@ == Map::<Seq<char>, usize>::empty(),
            final(self).expanded@ == old(self).expanded@,
            final(self).selected == old(self).selected,
            final(self).scroll_to_selected == old(self).scroll_to_selected,
    {
        self.nodes.clear();
        self.image_counts.clear();
    }

    /// The top-level places, as the reader lists them.
    pub fn get_roots(&self) -> Vec<String> {
        self.archive_reader.get_roots()
    }

    /// The number of images in a folder or archive: the cached count when there is one,
    /// else the length of the reader's listing (0 when listing fails), which is then cached.
    pub fn get_image_count(&mut self, path: &str) -> (r: usize)
        ensures
            old(self).image_counts@.dom().contains(clean_path_of(path@)) ==> r == old(self).image_counts@[clean_path_of(path@)] && final(self).image_counts@ == old(self).image_counts@,
            !old(self).image_counts@.dom().contains(clean_path_of(path@)) ==> final(self).image_counts@ == old(self).image_counts@.insert(clean_path_of(path@), r),
            final(self).nodes@ == old(self).nodes@,
            final(self).expanded@ == old(self).expanded@,
            final(self).selected == old(self).selected,
            final(self).scroll_to_selected == old(self).scroll_to_selected,
    {
        let path = clean_path(path);
        match self.image_counts.get(path.as_str()) {
            Some(count) => {
                return *count;
            },
            None => {},
        }
        let listing = self.archive_reader.list_images(path.as_str());
        let count = count_of_listing(&listing);
        self.image_counts.insert(path, count);
        count
    }

    /// The folders and archives inside `dir_path`: the cached listing when there is one,
    /// else the reader's listing (empty when listing fails), which is then cached.
    pub fn get_children(&mut self, dir_path: &str) -> (r: Vec<String>)
        ensures
            old(self).nodes@.dom().contains(clean_path_of(dir_path@)) ==> strings_view(r@)
                == strings_view(old(self).nodes@[clean_path_of(dir_path@)]@) && final(self).nodes@
                == old(self).nodes@,
            !old(self).nodes@.dom().contains(clean_path_of(dir_path@)) ==> final(self).nodes@.dom()
                == old(self).nodes@.dom().insert(clean_path_of(dir_path@)) && strings_view(
                final(self).nodes@[clean_path_of(dir_path@)]@,
            ) == strings_view(r@) && forall|k: Seq<char>|
                k != clean_path_of(dir_path@) && #[trigger] old(self).nodes@.dom().contains(k)
                    ==> final(self).nodes@[k] == old(self).nodes@[k],
            children_listed(old(self).nodes@, final(self).nodes@, clean_path_of(dir_path@), strings_view(r@)),
            final(self).image_counts@ == old(self).image_counts@,
            final(self).expanded@ == old(self).expanded@,
            final(self).selected == old(self).selected,
            final(self).scroll_to_selected == old(self).scroll_to_selected,
    {
        let dir_path = clean_path(dir_path);
        match self.nodes.get(dir_path.as_str()) {
            Some(cached) => {
                let c = copy_paths(cached);
                return c;
            },
            None => {},
        }
        let targets = targets_of_listing(self.archive_reader.list_nav_targets(dir_path.as_str()));
        let kept = copy_paths(&targets);
        self.nodes.insert(dir_path, kept);
        targets
    }

    /// The folders beside `path`: the listing of its parent (see `get_children`), or the
    /// top-level places when it has no parent.
    pub fn get_siblings(&mut self, path: &str) -> (r: Vec<String>)
        ensures
            siblings_listed(old(self).nodes@, final(self).nodes@, path@, strings_view(r@)),
            final(self).image_counts@ == old(self).image_counts@,
            final(self).expanded@ == old(self).expanded@,
            final(self).selected == old(self).selected,
            final(self).scroll_to_selected == old(self).scroll_to_selected,
            forall|k: Seq<char>| #[trigger] old(self).nodes@.dom().contains(k) ==> final(self).nodes@.dom().contains(k)
                && final(self).nodes@[k] == old(self).nodes@[k],
    {
        let parent = path_parent(path);
        self.children_of_parent(parent)
    }

    /// The folders beside a path whose parent is `parent`: the children of the parent (see
    /// `get_children`), or the top-level places when there is no parent, with nothing
    /// cached.
    pub fn children_of_parent(&mut self, parent: Option<String>) -> (r: Vec<String>)
        ensures
            match parent {
                Some(p) => children_listed(old(self).nodes@, final(self).nodes@, clean_path_of(p@), strings_view(r@)),
                None => final(self).nodes@ == old(self).nodes@,
            },
            final(self).image_counts@ == old(self).image_counts@,
            final(self).expanded@ == old(self).expanded@,
            final(self).selected == old(self).selected,
            final(self).scroll_to_selected == old(self).scroll_to_selected,
            forall|k: Seq<char>| #[trigger] old(self).nodes@.dom().contains(k) ==> final(self).nodes@.dom().contains(k)
                && final(self).nodes@[k] == old(self).nodes@[k],
    {
        match parent {
            Some(p) => {
                let r = self.get_children(p.as_str());
                assert(children_listed(old(self).nodes@, self.nodes@, clean_path_of(p@), strings_view(r@)));
                r
            },
            None => self.archive_reader.get_roots(),
        }
    }

    /// Marks every ancestor of `path` as open; each of them is a proper prefix of the
    /// path's plain form. Nothing else changes.
    pub fn expand_to_path(&mut self, path: &str)
        ensures
            forall|k: Seq<char>| #[trigger] old(self).expanded@.dom().contains(k) ==> final(self).expanded@.dom().contains(k),
            forall|k: Seq<char>|
                #[trigger] final(self).expanded@.dom().contains(k) && !old(self).expanded@.dom().contains(k)
                    ==> proper_prefix(k, clean_path_of(path@)),
            exists|chain: Seq<Seq<char>>|
                #[trigger] parent_chain(chain, clean_path_of(path@)) && final(self).expanded@.dom()
                    == old(self).expanded@.dom() + chain.drop_first().to_set(),
            final(self).nodes@ == old(self).nodes@,
            final(self).image_counts@ == old(self).image_counts@,
            final(self).selected == old(self).selected,
            final(self).scroll_to_selected == old(self).scroll_to_selected,
    {
        let start = clean_path(path);
        let mut curr = start.clone();
        let mut ancestors: Vec<String> = Vec::new();
        let ghost mut chain: Seq<Seq<char>> = seq![start@];
        assert(chain.drop_first() =~= strings_view(ancestors@));
        loop
            invariant
                curr@ == start@ || proper_prefix(curr@, start@),
                start@ == clean_path_of(path@),
                chain.len() >= 1,
                chain[0] == start@,
                chain.last() == curr@,
                chain.drop_first() == strings_view(ancestors@),
                forall|i: int| 0 <= i < chain.len() - 1 ==> parent_of(#[trigger] chain[i + 1], chain[i]),
            ensures
                start@ == clean_path_of(path@),
                parent_chain(chain, start@),
                chain.drop_first() == strings_view(ancestors@),
            decreases curr@.len(),
        {
            match path_parent(curr.as_str()) {
                Some(parent) => {
                    let p2 = parent.clone();
                    proof {
                        assert(p2@.len() < curr@.len());
                        assert(p2@ =~= start@.take(p2@.len() as int));
                        let c2 = chain.push(p2@);
                        assert(c2.drop_first() =~= chain.drop_first().push(p2@));
                        assert forall|i: int| 0 <= i < c2.len() - 1 implies parent_of(#[trigger] c2[i + 1], c2[i]) by {
                            if i < chain.len() - 1 {
                                assert(c2[i + 1] == chain[i + 1]);
                            }
                        }
                        chain = c2;
                    }
                    ancestors.push(parent);
                    assert(strings_view(ancestors@) =~= chain.drop_first());
                    curr = p2;
                },
                None => {
                    assert(parent_chain(chain, start@));
                    break;
                },
            }
        }
        self.open_all(&ancestors);
        proof {
            assert forall|k: Seq<char>|
                #[trigger] self.expanded@.dom().contains(k) && !old(self).expanded@.dom().contains(k)
                    implies proper_prefix(k, start@) by {
                assert(chain.drop_first().to_set().contains(k));
                let j = choose|j: int| 0 <= j < chain.drop_first().len() && chain.drop_first()[j] == k;
                lemma_chain_prefix(chain, j + 1);
            }
        }
    }

    /// Marks each of `paths` as open. Nothing else changes.
    pub fn open_all(&mut self, paths: &Vec<String>)
        ensures
            final(self).expanded@.dom() == old(self).expanded@.dom() + strings_view(paths@).to_set(),
            final(self).nodes@ == old(self).nodes@,
            final(self).image_counts@ == old(self).image_counts@,
            final(self).selected == old(self).selected,
            final(self).scroll_to_selected == old(self).scroll_to_selected,
    {
        let mut i: usize = 0;
        assert(strings_view(paths@).take(0).to_set() =~= Set::<Seq<char>>::empty());
        assert(self.expanded@.dom() =~= old(self).expanded@.dom() + strings_view(paths@).take(0).to_set());
        while i < paths.len()
            invariant
                i <= paths@.len(),
                self.expanded@.dom() == old(self).expanded@.dom() + strings_view(paths@).take(i as int).to_set(),
                self.nodes@ == old(self).nodes@,
                self.image_counts@ == old(self).image_counts@,
                self.selected == old(self).selected,
                self.scroll_to_selected == old(self).scroll_to_selected,
            decreases paths.len() - i,
        {
            let k = paths[i].clone();
            self.expanded.insert(k, ());
            proof {
                let sv = strings_view(paths@);
                assert(sv.take(i + 1) =~= sv.take(i as int).push(sv[i as int]));
                let t0 = sv.take(i as int);
                let t1 = sv.take(i + 1);
                assert(t1.to_set() =~= t0.to_set().insert(sv[i as int])) by {
                    assert forall|x: Seq<char>| #[trigger] t1.to_set().contains(x) <==> (t0.to_set().contains(x)
                        || x == sv[i as int]) by {
                        if t1.contains(x) {
                            let j = choose|j: int| 0 <= j < t1.len() && t1[j] == x;
                            if j < i {
                                assert(t0[j] == x);
                            }
                        }
                        if t0.contains(x) {
                            let j = choose|j: int| 0 <= j < t0.len() && t0[j] == x;
                            assert(t1[j] == x);
                        }
                        if x == sv[i as int] {
                            assert(t1[i as int] == x);
                        }
                    }
                }
                assert(self.expanded@.dom() =~= old(self).expanded@.dom() + sv.take(i + 1).to_set());
            }
            i = i + 1;
        }
        assert(strings_view(paths@).take(i as int) =~= strings_view(paths@));
    }

    /// The folder or archive after (`forward`) or before `current` among its siblings
    /// (see `get_siblings` and `neighbour_in`).
    pub fn get_relative_target(&mut self, current: &str, forward: bool) -> (r: Option<String>)
        ensures
            exists|l: Seq<Seq<char>>|
                siblings_listed(old(self).nodes@, final(self).nodes@, clean_path_of(current@), l)
                    && opt_view(r) == #[trigger] neighbour(l, clean_path_of(current@), forward),
            final(self).image_counts@ == old(self).image_counts@,
            final(self).expanded@ == old(self).expanded@,
            final(self).selected == old(self).selected,
            final(self).scroll_to_selected == old(self).scroll_to_selected,
    {
        let curr = clean_path(current);
        let siblings = self.get_siblings(curr.as_str());
        neighbour_in(&siblings, curr.as_str(), forward)
    }

    /// Moves the selection `delta` places among its siblings, held to the first and last of
    /// them; with no selection, selects the first top-level place.
    pub fn move_selection(&mut self, delta: isize)
        ensures
            final(self).image_counts@ == old(self).image_counts@,
            final(self).expanded@ == old(self).expanded@,
            old(self).selected is None ==> final(self).nodes@ == old(self).nodes@,
            final(self).selected != old(self).selected ==> final(self).scroll_to_selected,
            final(self).selected is None ==> old(self).selected is None,
            final(self).scroll_to_selected == old(self).scroll_to_selected || final(self).selected is Some,
            old(self).selected is None ==> exists|roots: Seq<Seq<char>>|
                #[trigger] first_selected(roots, old(self).selected, old(self).scroll_to_selected, final(self).selected, final(self).scroll_to_selected),
            old(self).selected matches Some(s) ==> exists|l: Seq<Seq<char>>|
                #[trigger] siblings_listed(old(self).nodes@, final(self).nodes@, clean_path_of(s@), l)
                    && if exists|i: int| 0 <= i < l.len() && l[i] == clean_path_of(s@) {
                    &&& opt_view(final(self).selected) == Some(
                        clean_path_of(
                            l[moved_index(first_index(l, clean_path_of(s@)), delta as int, l.len() as int)],
                        ),
                    )
                    &&& final(self).scroll_to_selected
                } else {
                    &&& final(self).selected == old(self).selected
                    &&& final(self).scroll_to_selected == old(self).scroll_to_selected
                },
    {
        if self.selected.is_none() {
            let roots = self.archive_reader.get_roots();
            self.select_first(&roots);
            assert(roots@.len() > 0 ==> strings_view(roots@)[0] == roots@[0]@);
            return;
        }
        let sel = match &self.selected {
            Some(s) => clean_path(s.as_str()),
            None => {
                return;
            },
        };
        assert(old(self).selected matches Some(s0) && sel@ == clean_path_of(s0@));
        let siblings = self.get_siblings(sel.as_str());
        let ghost l = strings_view(siblings@);
        match find_path(&siblings, sel.as_str()) {
            Some(pos) => {
                let new_pos = clamp_move(pos, delta, siblings.len());
                assert(l[new_pos as int] == siblings@[new_pos as int]@);
                assert(l[pos as int] == sel@);
                self.selected = Some(clean_path(siblings[new_pos].as_str()));
                self.scroll_to_selected = true;
                assert(exists|i: int| 0 <= i < l.len() && l[i] == sel@);
                assert(siblings_listed(old(self).nodes@, self.nodes@, sel@, l));
            },
            None => {
                assert(!exists|i: int| 0 <= i < l.len() && l[i] == sel@) by {
                    if exists|i: int| 0 <= i < l.len() && l[i] == sel@ {
                        let i = choose|i: int| 0 <= i < l.len() && l[i] == sel@;
                        assert(siblings@[i]@ == sel@);
                    }
                }
                assert(siblings_listed(old(self).nodes@, self.nodes@, sel@, l));
            },
        }
    }

    /// Selects the first of `roots`, in plain form, and asks for it to be scrolled into
    /// sight; with no roots nothing changes.
    pub fn select_first(&mut self, roots: &Vec<String>)
        ensures
            first_selected(
                strings_view(roots@),
                old(self).selected,
                old(self).scroll_to_selected,
                final(self).selected,
                final(self).scroll_to_selected,
            ),
            final(self).nodes@ == old(self).nodes@,
            final(self).image_counts@ == old(self).image_counts@,
            final(self).expanded@ == old(self).expanded@,
    {
        if roots.len() > 0 {
            assert(strings_view(roots@)[0] == roots@[0]@);
            self.selected = Some(clean_path(roots[0].as_str()));
            self.scroll_to_selected = true;
        }
    }

    /// Opens the selected folder and selects its first entry.
    pub fn expand_current(&mut self)
        ensures
            final(self).image_counts@ == old(self).image_counts@,
            old(self).selected is None ==> final(self).expanded@ == old(self).expanded@ && final(self).nodes@ == old(self).nodes@ && final(self).selected is None && final(self).scroll_to_selected == old(self).scroll_to_selected,
            forall|k: Seq<char>| #[trigger] old(self).expanded@.dom().contains(k) ==> final(self).expanded@.dom().contains(k),
            forall|k: Seq<char>|
                #[trigger] final(self).expanded@.dom().contains(k) && !old(self).expanded@.dom().contains(k)
                    ==> old(self).selected is Some && k == clean_path_of(old(self).selected->0@),
            old(self).selected matches Some(s) ==> {
                ||| {
                    &&& final(self).expanded@ == old(self).expanded@
                    &&& final(self).nodes@ == old(self).nodes@
                    &&& final(self).selected == old(self).selected
                    &&& final(self).scroll_to_selected == old(self).scroll_to_selected
                }
                ||| {
                    &&& final(self).expanded@ == old(self).expanded@.insert(clean_path_of(s@), ())
                    &&& exists|l: Seq<Seq<char>>|
                        #[trigger] children_listed(
                            old(self).nodes@,
                            final(self).nodes@,
                            clean_path_of(clean_path_of(s@)),
                            l,
                        ) && if l.len() > 0 {
                            &&& opt_view(final(self).selected) == Some(clean_path_of(l[0]))
                            &&& final(self).scroll_to_selected
                        } else {
                            &&& final(self).selected == old(self).selected
                            &&& final(self).scroll_to_selected == old(self).scroll_to_selected
                        }
                }
            },
    {
        let is_dir = match &self.selected {
            Some(s) => {
                let sel = clean_path(s.as_str());
                path_is_dir(sel.as_str())
            },
            None => false,
        };
        self.open_selected(is_dir);
    }

    /// Opens the selected folder and selects its first entry, when `is_dir` (the selection's
    /// plain form is a folder on disk): the folder is marked open, its children are listed
    /// (see `get_children`), and the first of them, in plain form, becomes the selection,
    /// scrolled into sight. Without a selection, or when it is no folder, nothing changes.
    pub fn open_selected(&mut self, is_dir: bool)
        ensures
            final(self).image_counts@ == old(self).image_counts@,
            old(self).selected is None || !is_dir ==> {
                &&& final(self).expanded@ == old(self).expanded@
                &&& final(self).nodes@ == old(self).nodes@
                &&& final(self).selected == old(self).selected
                &&& final(self).scroll_to_selected == old(self).scroll_to_selected
            },
            old(self).selected matches Some(s) ==> (is_dir ==> {
                &&& final(self).expanded@ == old(self).expanded@.insert(clean_path_of(s@), ())
                &&& exists|l: Seq<Seq<char>>|
                    #[trigger] children_listed(
                        old(self).nodes@,
                        final(self).nodes@,
                        clean_path_of(clean_path_of(s@)),
                        l,
                    ) && if l.len() > 0 {
                        &&& opt_view(final(self).selected) == Some(clean_path_of(l[0]))
                        &&& final(self).scroll_to_selected
                    } else {
                        &&& final(self).selected == old(self).selected
                        &&& final(self).scroll_to_selected == old(self).scroll_to_selected
                    }
            }),
    {
        let sel = match &self.selected {
            Some(s) => clean_path(s.as_str()),
            None => {
                return;
            },
        };
        assert(old(self).selected matches Some(s0) && sel@ == clean_path_of(s0@));
        if is_dir {
            let key = sel.clone();
            assert(key@ == sel@);
            self.expanded.insert(key, ());
            assert(self.expanded@ == old(self).expanded@.insert(sel@, ()));
            let children = self.get_children(sel.as_str());
            let ghost l = strings_view(children@);
            let ghost s0 = old(self).selected->0@;
            assert(children_listed(old(self).nodes@, self.nodes@, clean_path_of(clean_path_of(s0)), l));
            if children.len() > 0 {
                assert(l[0] == children@[0]@);
                self.selected = Some(clean_path(children[0].as_str()));
                self.scroll_to_selected = true;
            }
            assert(self.expanded@ == old(self).expanded@.insert(clean_path_of(s0), ()));
            assert(children_listed(old(self).nodes@, self.nodes@, clean_path_of(clean_path_of(s0)), l)
                && if l.len() > 0 {
                &&& opt_view(self.selected) == Some(clean_path_of(l[0]))
                &&& self.scroll_to_selected
            } else {
                &&& self.selected == old(self).selected
                &&& self.scroll_to_selected == old(self).scroll_to_selected
            });
        }
    }

    /// Closes the selected folder when it is open; otherwise selects its parent and closes
    /// that.
    pub fn collapse_or_up(&mut self)
        ensures
            final(self).image_counts@ == old(self).image_counts@,
            final(self).nodes@ == old(self).nodes@,
            old(self).selected is None ==> final(self).expanded@ == old(self).expanded@
                && final(self).selected is None && final(self).scroll_to_selected == old(self).scroll_to_selected,
            old(self).selected is Some && old(self).expanded@.dom().contains(
                clean_path_of(old(self).selected->0@),
            ) ==> final(self).expanded@ == old(self).expanded@.remove(
                clean_path_of(old(self).selected->0@),
            ) && final(self).selected == old(self).selected && final(self).scroll_to_selected
                == old(self).scroll_to_selected,
            old(self).selected is Some && !old(self).expanded@.dom().contains(
                clean_path_of(old(self).selected->0@),
            ) ==> (final(self).selected == old(self).selected && final(self).expanded@ == old(self).expanded@ && final(self).scroll_to_selected == old(self).scroll_to_selected) || (
            final(self).selected is Some && final(self).selected->0@ != clean_path_of(
                old(self).selected->0@,
            ) && final(self).expanded@ == old(self).expanded@.remove(final(self).selected->0@)
                && final(self).scroll_to_selected),
            old(self).selected matches Some(s) ==> (!old(self).expanded@.dom().contains(clean_path_of(s@))
                ==> exists|q: Option<Seq<char>>|
                #[trigger] parent_answer(q, clean_path_of(s@)) && match up_target(Some(s@), q) {
                    Some(p) => {
                        &&& opt_view(final(self).selected) == Some(p)
                        &&& final(self).expanded@ == old(self).expanded@.remove(p)
                        &&& final(self).scroll_to_selected
                    },
                    None => {
                        &&& final(self).selected == old(self).selected
                        &&& final(self).expanded@ == old(self).expanded@
                        &&& final(self).scroll_to_selected == old(self).scroll_to_selected
                    },
                }),
    {
        let sel = match &self.selected {
            Some(s) => clean_path(s.as_str()),
            None => {
                return;
            },
        };
        if self.expanded.contains_key(sel.as_str()) {
            self.expanded.remove(sel.as_str());
        } else {
            let parent = path_parent(sel.as_str());
            let ghost q = opt_view(parent);
            assert(old(self).selected matches Some(s0) && sel@ == clean_path_of(s0@));
            assert(parent_answer(q, sel@));
            self.up_to_parent(parent);
            assert(opt_view(old(self).selected) == Some(old(self).selected->0@));
        }
    }

    /// Goes up from the selection to `parent`, the parent path found for its plain form:
    /// the parent's plain form becomes the selection, is closed, and is scrolled into
    /// sight (see `up_target`). With no selection, no parent, or a parent whose plain form
    /// is the selection's own, nothing changes.
    pub fn up_to_parent(&mut self, parent: Option<String>)
        ensures
            final(self).image_counts@ == old(self).image_counts@,
            final(self).nodes@ == old(self).nodes@,
            match up_target(opt_view(old(self).selected), opt_view(parent)) {
                Some(p) => {
                    &&& opt_view(final(self).selected) == Some(p)
                    &&& final(self).expanded@ == old(self).expanded@.remove(p)
                    &&& final(self).scroll_to_selected
                },
                None => {
                    &&& final(self).selected == old(self).selected
                    &&& final(self).expanded@ == old(self).expanded@
                    &&& final(self).scroll_to_selected == old(self).scroll_to_selected
                },
            },
    {
        let sel = match &self.selected {
            Some(s) => clean_path(s.as_str()),
            None => {
                return;
            },
        };
        match parent {
            Some(q) => {
                let p = clean_path(q.as_str());
                if !str_eq(p.as_str(), sel.as_str()) {
                    self.expanded.remove(p.as_str());
                    self.selected = Some(p);
                    self.scroll_to_selected = true;
                }
            },
            None => {},
        }
    }

    /// The path the selection stands for, to be opened.
    pub fn activate_current(&mut self) -> (r: Option<String>)
        ensures
            opt_view(r) == opt_view(old(self).selected),
            final(self).nodes@ == old(self).nodes@,
            final(self).image_counts@ == old(self).image_counts@,
            final(self).expanded@ == old(self).expanded@,
            final(self).selected == old(self).selected,
            final(self).scroll_to_selected == old(self).scroll_to_selected,
    {
        match &self.selected {
            Some(s) => Some(s.clone()),
            None => None,
        }
    }

    /// Opens every ancestor of `path`, selects it, and asks for it to be scrolled into sight.
    pub fn reveal_path(&mut self, path: &str)
        ensures
            opt_view(final(self).selected) == Some(clean_path_of(path@)),
            final(self).scroll_to_selected,
            forall|k: Seq<char>| #[trigger] old(self).expanded@.dom().contains(k) ==> final(self).expanded@.dom().contains(k),
            forall|k: Seq<char>|
                #[trigger] final(self).expanded@.dom().contains(k) && !old(self).expanded@.dom().contains(k)
                    ==> proper_prefix(k, clean_path_of(clean_path_of(path@))),
            exists|chain: Seq<Seq<char>>|
                #[trigger] parent_chain(chain, clean_path_of(clean_path_of(path@))) && final(self).expanded@.dom()
                    == old(self).expanded@.dom() + chain.drop_first().to_set(),
            final(self).nodes@ == old(self).nodes@,
            final(self).image_counts@ == old(self).image_counts@,
    {
        let cleaned = clean_path(path);
        self.expand_to_path(cleaned.as_str());
        self.selected = Some(cleaned);
        self.scroll_to_selected = true;
    }
}

fn copy_paths(v: &Vec<String>) -> (r: Vec<String>)
    ensures
        strings_view(r@) == strings_view(v@),
{
    let mut r: Vec<String> = Vec::new();
    let mut i: usize = 0;
    while i < v.len()
        invariant
            i <= v@.len(),
            strings_view(r@) == strings_view(v@).take(i as int),
        decreases v.len() - i,
    {
        let c = v[i].clone();
        assert(c@ == v@[i as int]@);
        let ghost before = strings_view(r@);
        r.push(c);
        assert(strings_view(r@) =~= before.push(v@[i as int]@));
        i = i + 1;
        assert(strings_view(r@) =~= strings_view(v@).take(i as int));
    }
    assert(strings_view(v@).take(i as int) =~= strings_view(v@));
    r
}

} // verus!
