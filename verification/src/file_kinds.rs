use vstd::prelude::*;
use crate::text::str_chars;
use crate::natural::{folded, fold_char};

verus! {

/// What a path opens as.
#[derive(Clone, Copy, PartialEq, Eq, Structural, Debug)]
pub enum ArchiveKind {
    /// A folder or a single image.
    Plain,
    Zip,
    SevenZ,
    Pdf,
}

pub open spec fn is_separator(c: char) -> bool {
    c == '/' || c == '\\'
}

/// Where the last component of `p` starts: just after its last separator.
pub open spec fn name_start(p: Seq<char>, i: int) -> int
    decreases i,
{
    if i <= 0 {
        0
    } else if is_separator(p[i - 1]) {
        i
    } else {
        name_start(p, i - 1)
    }
}

/// The position of the last dot in `p[lo..i]`, or `lo - 1` when there is none.
pub open spec fn last_dot(p: Seq<char>, lo: int, i: int) -> int
    decreases i - lo,
{
    if i <= lo {
        lo - 1
    } else if p[i - 1] == '.' {
        i - 1
    } else {
        last_dot(p, lo, i - 1)
    }
}

/// The extension of the last component of `p`, as `Path::extension` gives it: the
/// text after the last dot, where that dot is not the component's first character.
pub open spec fn extension_of(p: Seq<char>) -> Option<Seq<char>> {
    let s = name_start(p, p.len() as int);
    let d = last_dot(p, s, p.len() as int);
    if d > s {
        Some(p.subrange(d + 1, p.len() as int))
    } else {
        None
    }
}

/// `e` and `ext` are the same text when ASCII capitals are taken as small.
pub open spec fn same_ignoring_case(e: Seq<char>, ext: Seq<char>) -> bool {
    &&& e.len() == ext.len()
    &&& forall|i: int| 0 <= i < e.len() ==> folded(#[trigger] e[i]) == folded(ext[i])
}

/// Whether the extension of `p`, ignoring ASCII case, is `ext` (given in small letters).
pub open spec fn has_extension(p: Seq<char>, ext: Seq<char>) -> bool {
    match extension_of(p) {
        Some(e) => same_ignoring_case(e, ext),
        None => false,
    }
}

/// The kind a path opens as, by its extension.
pub open spec fn kind_of(p: Seq<char>) -> ArchiveKind {
    if has_extension(p, seq!['z', 'i', 'p']) {
        ArchiveKind::Zip
    } else if has_extension(p, seq!['7', 'z']) {
        ArchiveKind::SevenZ
    } else if has_extension(p, seq!['p', 'd', 'f']) {
        ArchiveKind::Pdf
    } else {
        ArchiveKind::Plain
    }
}

/// The image extensions that are listed as pages.
pub open spec fn image_extensions() -> Seq<Seq<char>> {
    seq![
        seq!['j', 'p', 'g'],
        seq!['j', 'p', 'e', 'g'],
        seq!['p', 'n', 'g'],
        seq!['g', 'i', 'f'],
        seq!['w', 'e', 'b', 'p'],
        seq!['b', 'm', 'p'],
        seq!['a', 'v', 'i', 'f'],
    ]
}

/// Where the extension of `v` starts (just after its dot), if it has one.
fn extension_start(v: &Vec<char>) -> (r: Option<usize>)
    ensures
        match r {
            Some(k) => 0 < k <= v@.len() && extension_of(v@) == Some(v@.subrange(k as int, v@.len() as int)),
            None => extension_of(v@) is None,
        },
{
    let n = v.len();
    let mut s = n;
    while s > 0 && !(v[s - 1] == '/' || v[s - 1] == '\\')
        invariant
            s <= n == v@.len(),
            name_start(v@, n as int) == name_start(v@, s as int),
        decreases s,
    {
        s = s - 1;
    }
    let mut d = n;
    while d > s && v[d - 1] != '.'
        invariant
            s <= d <= n == v@.len(),
            s == name_start(v@, n as int),
            last_dot(v@, s as int, n as int) == last_dot(v@, s as int, d as int),
        decreases d,
    {
        d = d - 1;
    }
    // d - 1 is the last dot, or d == s when there is none
    if d - s > 1 {
        Some(d)
    } else {
        None
    }
}

/// Whether `v[k..]`, with ASCII capitals taken as small, spells `ext`.
fn tail_is(v: &Vec<char>, k: usize, ext: &str) -> (b: bool)
    requires
        k <= v@.len(),
    ensures
        b == same_ignoring_case(v@.subrange(k as int, v@.len() as int), ext@),
{
    let e = str_chars(ext);
    let ghost t = v@.subrange(k as int, v@.len() as int);
    if v.len() - k != e.len() {
        return false;
    }
    let mut i: usize = 0;
    while i < e.len()
        invariant
            k <= v@.len(),
            v@.len() <= usize::MAX,
            v@.len() - k == e@.len(),
            i <= e@.len(),
            e@ == ext@,
            t == v@.subrange(k as int, v@.len() as int),
            forall|j: int| 0 <= j < i ==> folded(#[trigger] t[j]) == folded(e@[j]),
        decreases e.len() - i,
    {
        let c = v[k + i];
        assert(t[i as int] == c);
        let x = fold_char(c);
        let y = fold_char(e[i]);
        if x != y {
            assert(folded(t[i as int]) != folded(e@[i as int]));
            return false;
        }
        i = i + 1;
    }
    true
}

/// Whether the extension of `v`, ignoring ASCII case, is `ext`.
fn ext_is(v: &Vec<char>, start: Option<usize>, ext: &str) -> (b: bool)
    requires
        match start {
            Some(k) => 0 < k <= v@.len() && extension_of(v@) == Some(v@.subrange(k as int, v@.len() as int)),
            None => extension_of(v@) is None,
        },
    ensures
        b == has_extension(v@, ext@),
{
    match start {
        Some(k) => tail_is(v, k, ext),
        None => false,
    }
}

/// The kind a path opens as: ZIP, 7z and PDF by their extensions (any case),
/// everything else plain.
pub fn detect_kind(path: &str) -> (k: ArchiveKind)
    ensures
        k == kind_of(path@),
{
    let v = str_chars(path);
    let st = extension_start(&v);
    proof {
        reveal_strlit("zip");
        reveal_strlit("7z");
        reveal_strlit("pdf");
    }
    if ext_is(&v, st, "zip") {
        ArchiveKind::Zip
    } else if ext_is(&v, st, "7z") {
        ArchiveKind::SevenZ
    } else if ext_is(&v, st, "pdf") {
        ArchiveKind::Pdf
    } else {
        ArchiveKind::Plain
    }
}

/// Whether a path names an archive that can be opened (ZIP or 7z).
pub fn is_archive_name(path: &str) -> (b: bool)
    ensures
        b == (kind_of(path@) == ArchiveKind::Zip || kind_of(path@) == ArchiveKind::SevenZ),
{
    match detect_kind(path) {
        ArchiveKind::Zip | ArchiveKind::SevenZ => true,
        _ => false,
    }
}

/// Whether a file name has one of the image extensions (any case).
pub fn is_image_name(name: &str) -> (b: bool)
    ensures
        b == exists|i: int| 0 <= i < image_extensions().len() && has_extension(name@, #[trigger] image_extensions()[i]),
{
    let v = str_chars(name);
    let st = extension_start(&v);
    proof {
        reveal_strlit("jpg");
        reveal_strlit("jpeg");
        reveal_strlit("png");
        reveal_strlit("gif");
        reveal_strlit("webp");
        reveal_strlit("bmp");
        reveal_strlit("avif");
    }
    let ghost exts = image_extensions();
    let b = ext_is(&v, st, "jpg") || ext_is(&v, st, "jpeg") || ext_is(&v, st, "png") || ext_is(
        &v,
        st,
        "gif",
    ) || ext_is(&v, st, "webp") || ext_is(&v, st, "bmp") || ext_is(&v, st, "avif");
    proof {
        if b {
            if has_extension(v@, exts[0]) {
            } else if has_extension(v@, exts[1]) {
            } else if has_extension(v@, exts[2]) {
            } else if has_extension(v@, exts[3]) {
            } else if has_extension(v@, exts[4]) {
            } else if has_extension(v@, exts[5]) {
            } else {
                assert(has_extension(v@, exts[6]));
            }
        } else {
            assert forall|i: int| 0 <= i < exts.len() implies !has_extension(v@, #[trigger] exts[i]) by {
                if i == 0 {} else if i == 1 {} else if i == 2 {} else if i == 3 {} else if i == 4 {
                } else if i == 5 {} else {}
            }
        }
    }
    b
}

/// The names listed as pages are exactly those with a jpg, jpeg, png, gif, webp, bmp or
/// avif extension, in any letter case.
pub proof fn law_image_names(p: Seq<char>)
    ensures
        (exists|i: int| 0 <= i < image_extensions().len() && has_extension(p, #[trigger] image_extensions()[i]))
            <==> (has_extension(p, seq!['j', 'p', 'g'])
            || has_extension(p, seq!['j', 'p', 'e', 'g'])
            || has_extension(p, seq!['p', 'n', 'g'])
            || has_extension(p, seq!['g', 'i', 'f'])
            || has_extension(p, seq!['w', 'e', 'b', 'p'])
            || has_extension(p, seq!['b', 'm', 'p'])
            || has_extension(p, seq!['a', 'v', 'i', 'f'])),
{
    let exts = image_extensions();
    assert(exts[0] == seq!['j', 'p', 'g']);
    assert(exts[1] == seq!['j', 'p', 'e', 'g']);
    assert(exts[2] == seq!['p', 'n', 'g']);
    assert(exts[3] == seq!['g', 'i', 'f']);
    assert(exts[4] == seq!['w', 'e', 'b', 'p']);
    assert(exts[5] == seq!['b', 'm', 'p']);
    assert(exts[6] == seq!['a', 'v', 'i', 'f']);
    if exists|i: int| 0 <= i < exts.len() && has_extension(p, #[trigger] exts[i]) {
        let i = choose|i: int| 0 <= i < exts.len() && has_extension(p, #[trigger] exts[i]);
        assert(i == 0 || i == 1 || i == 2 || i == 3 || i == 4 || i == 5 || i == 6);
    }
}

/// Two extensions a path has agree, ASCII case aside, letter by letter.
proof fn lemma_same_extension(p: Seq<char>, a: Seq<char>, b: Seq<char>)
    requires
        has_extension(p, a),
        has_extension(p, b),
    ensures
        a.len() == b.len(),
        forall|k: int| 0 <= k < a.len() ==> folded(#[trigger] a[k]) == folded(b[k]),
{
    let e = extension_of(p)->0;
    assert forall|k: int| 0 <= k < a.len() implies folded(#[trigger] a[k]) == folded(b[k]) by {
        assert(folded(e[k]) == folded(a[k]));
        assert(folded(e[k]) == folded(b[k]));
    }
}

/// A name listed as a page opens as a plain image, never as an archive or a PDF.
pub proof fn law_images_open_plain(p: Seq<char>)
    requires
        exists|i: int| 0 <= i < image_extensions().len() && has_extension(p, #[trigger] image_extensions()[i]),
    ensures
        kind_of(p) == ArchiveKind::Plain,
{
    law_image_names(p);
    if has_extension(p, seq!['z', 'i', 'p']) {
        if has_extension(p, seq!['j', 'p', 'g']) {
            lemma_same_extension(p, seq!['z', 'i', 'p'], seq!['j', 'p', 'g']);
            assert(folded(seq!['z', 'i', 'p'][0]) != folded(seq!['j', 'p', 'g'][0]));
        }
        if has_extension(p, seq!['j', 'p', 'e', 'g']) {
            lemma_same_extension(p, seq!['z', 'i', 'p'], seq!['j', 'p', 'e', 'g']);
        }
        if has_extension(p, seq!['p', 'n', 'g']) {
            lemma_same_extension(p, seq!['z', 'i', 'p'], seq!['p', 'n', 'g']);
            assert(folded(seq!['z', 'i', 'p'][0]) != folded(seq!['p', 'n', 'g'][0]));
        }
        if has_extension(p, seq!['g', 'i', 'f']) {
            lemma_same_extension(p, seq!['z', 'i', 'p'], seq!['g', 'i', 'f']);
            assert(folded(seq!['z', 'i', 'p'][0]) != folded(seq!['g', 'i', 'f'][0]));
        }
        if has_extension(p, seq!['w', 'e', 'b', 'p']) {
            lemma_same_extension(p, seq!['z', 'i', 'p'], seq!['w', 'e', 'b', 'p']);
        }
        if has_extension(p, seq!['b', 'm', 'p']) {
            lemma_same_extension(p, seq!['z', 'i', 'p'], seq!['b', 'm', 'p']);
            assert(folded(seq!['z', 'i', 'p'][0]) != folded(seq!['b', 'm', 'p'][0]));
        }
        if has_extension(p, seq!['a', 'v', 'i', 'f']) {
            lemma_same_extension(p, seq!['z', 'i', 'p'], seq!['a', 'v', 'i', 'f']);
        }
    }
    if has_extension(p, seq!['7', 'z']) {
        if has_extension(p, seq!['j', 'p', 'g']) {
            lemma_same_extension(p, seq!['7', 'z'], seq!['j', 'p', 'g']);
        }
        if has_extension(p, seq!['j', 'p', 'e', 'g']) {
            lemma_same_extension(p, seq!['7', 'z'], seq!['j', 'p', 'e', 'g']);
        }
        if has_extension(p, seq!['p', 'n', 'g']) {
            lemma_same_extension(p, seq!['7', 'z'], seq!['p', 'n', 'g']);
        }
        if has_extension(p, seq!['g', 'i', 'f']) {
            lemma_same_extension(p, seq!['7', 'z'], seq!['g', 'i', 'f']);
        }
        if has_extension(p, seq!['w', 'e', 'b', 'p']) {
            lemma_same_extension(p, seq!['7', 'z'], seq!['w', 'e', 'b', 'p']);
        }
        if has_extension(p, seq!['b', 'm', 'p']) {
            lemma_same_extension(p, seq!['7', 'z'], seq!['b', 'm', 'p']);
        }
        if has_extension(p, seq!['a', 'v', 'i', 'f']) {
            lemma_same_extension(p, seq!['7', 'z'], seq!['a', 'v', 'i', 'f']);
        }
    }
    if has_extension(p, seq!['p', 'd', 'f']) {
        if has_extension(p, seq!['j', 'p', 'g']) {
            lemma_same_extension(p, seq!['p', 'd', 'f'], seq!['j', 'p', 'g']);
            assert(folded(seq!['p', 'd', 'f'][0]) != folded(seq!['j', 'p', 'g'][0]));
        }
        if has_extension(p, seq!['j', 'p', 'e', 'g']) {
            lemma_same_extension(p, seq!['p', 'd', 'f'], seq!['j', 'p', 'e', 'g']);
        }
        if has_extension(p, seq!['p', 'n', 'g']) {
            lemma_same_extension(p, seq!['p', 'd', 'f'], seq!['p', 'n', 'g']);
            assert(folded(seq!['p', 'd', 'f'][1]) != folded(seq!['p', 'n', 'g'][1]));
        }
        if has_extension(p, seq!['g', 'i', 'f']) {
            lemma_same_extension(p, seq!['p', 'd', 'f'], seq!['g', 'i', 'f']);
            assert(folded(seq!['p', 'd', 'f'][0]) != folded(seq!['g', 'i', 'f'][0]));
        }
        if has_extension(p, seq!['w', 'e', 'b', 'p']) {
            lemma_same_extension(p, seq!['p', 'd', 'f'], seq!['w', 'e', 'b', 'p']);
        }
        if has_extension(p, seq!['b', 'm', 'p']) {
            lemma_same_extension(p, seq!['p', 'd', 'f'], seq!['b', 'm', 'p']);
            assert(folded(seq!['p', 'd', 'f'][0]) != folded(seq!['b', 'm', 'p'][0]));
        }
        if has_extension(p, seq!['a', 'v', 'i', 'f']) {
            lemma_same_extension(p, seq!['p', 'd', 'f'], seq!['a', 'v', 'i', 'f']);
        }
    }
}

} // verus!
