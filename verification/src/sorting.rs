use vstd::prelude::*;
use crate::config::{SortMode, SortOrder};
use crate::nav_tree::ImageEntry;
use crate::natural::{
    Order, flipped, flip, int_order, u64_order, lex_order, natural_order, lex_order_of, natord,
    lemma_lex_flip, lemma_lex_trans, lemma_natural_flip, lemma_natural_trans,
};

verus! {

/// The chosen key's order of two entries, before the direction is applied.
pub open spec fn key_order(a: ImageEntry, b: ImageEntry, mode: SortMode, natural: bool) -> Order {
    match mode {
        SortMode::Name => if natural {
            natural_order(a.name@, b.name@)
        } else {
            lex_order(a.name@, b.name@)
        },
        SortMode::Mtime => int_order(a.mtime as int, b.mtime as int),
        SortMode::Size => int_order(a.size as int, b.size as int),
    }
}

/// How two entries compare under a sort setting: by name (natural or plain),
/// modification time or size, turned round for descending order.
pub open spec fn entry_order(
    a: ImageEntry,
    b: ImageEntry,
    mode: SortMode,
    dir: SortOrder,
    natural: bool,
) -> Order {
    if dir == SortOrder::Descending {
        flipped(key_order(a, b, mode, natural))
    } else {
        key_order(a, b, mode, natural)
    }
}

/// Compares two entries under a sort setting.
pub fn compare_entries(
    a: &ImageEntry,
    b: &ImageEntry,
    mode: SortMode,
    dir: SortOrder,
    natural: bool,
) -> (o: Order)
    ensures
        o == entry_order(*a, *b, mode, dir, natural),
{
    let base = match mode {
        SortMode::Name => if natural {
            natord(a.name.as_str(), b.name.as_str())
        } else {
            lex_order_of(a.name.as_str(), b.name.as_str())
        },
        SortMode::Mtime => u64_order(a.mtime, b.mtime),
        SortMode::Size => u64_order(a.size, b.size),
    };
    match dir {
        SortOrder::Descending => flip(base),
        SortOrder::Ascending => base,
    }
}

/// Comparing the other way round flips the outcome.
pub proof fn lemma_entry_flip(a: ImageEntry, b: ImageEntry, mode: SortMode, dir: SortOrder, natural: bool)
    ensures
        entry_order(b, a, mode, dir, natural) == flipped(entry_order(a, b, mode, dir, natural)),
{
    lemma_natural_flip(a.name@, b.name@);
    lemma_lex_flip(a.name@, b.name@);
}

/// The entry order is transitive: not after and not after gives not after.
pub proof fn lemma_entry_trans(
    a: ImageEntry,
    b: ImageEntry,
    c: ImageEntry,
    mode: SortMode,
    dir: SortOrder,
    natural: bool,
)
    requires
        entry_order(a, b, mode, dir, natural) != Order::Greater,
        entry_order(b, c, mode, dir, natural) != Order::Greater,
    ensures
        entry_order(a, c, mode, dir, natural) != Order::Greater,
{
    if dir == SortOrder::Descending {
        lemma_entry_flip(a, b, mode, dir, natural);
        lemma_entry_flip(b, c, mode, dir, natural);
        lemma_entry_flip(a, c, mode, dir, natural);
        match mode {
            SortMode::Name => if natural {
                lemma_natural_trans(c.name@, b.name@, a.name@);
            } else {
                lemma_lex_trans(c.name@, b.name@, a.name@);
            },
            _ => {},
        }
    } else {
        match mode {
            SortMode::Name => if natural {
                lemma_natural_trans(a.name@, b.name@, c.name@);
            } else {
                lemma_lex_trans(a.name@, b.name@, c.name@);
            },
            _ => {},
        }
    }
}

/// `ord` compares like a total preorder: swapping the sides flips the outcome, and
/// "not after" is transitive.
pub open spec fn order_laws<T>(ord: spec_fn(T, T) -> Order) -> bool {
    &&& forall|a: T, b: T| #[trigger] ord(b, a) == flipped(ord(a, b))
    &&& forall|a: T, b: T, c: T|
        #![trigger ord(a, b), ord(b, c)]
        ord(a, b) != Order::Greater && ord(b, c) != Order::Greater ==> ord(a, c) != Order::Greater
}

/// No element of `s` comes after a later one.
pub open spec fn sorted_by<T>(s: Seq<T>, ord: spec_fn(T, T) -> Order) -> bool {
    forall|i: int, j: int| 0 <= i < j < s.len() ==> ord(#[trigger] s[i], #[trigger] s[j]) != Order::Greater
}

/// The elements of `s` that compare equal to `e`, in their order in `s`.
pub open spec fn ties<T>(s: Seq<T>, e: T, ord: spec_fn(T, T) -> Order) -> Seq<T> {
    s.filter(|y: T| ord(y, e) == Order::Equal)
}

/// What a stable sort of `v` into `out` guarantees: the same elements, in order,
/// with elements that compare equal kept in the order they had.
pub open spec fn stable_sort_of<T>(v: Seq<T>, out: Seq<T>, ord: spec_fn(T, T) -> Order) -> bool {
    &&& out.to_multiset() == v.to_multiset()
    &&& sorted_by(out, ord)
    &&& forall|e: T| #[trigger] ties(out, e, ord) == ties(v, e, ord)
}

/// Everything before `p` is not after `x`, and (when `p` is inside `s`) the element
/// at `p` is after it: where a sorted sequence takes `x`.
pub open spec fn insert_point<T>(s: Seq<T>, x: T, p: int, ord: spec_fn(T, T) -> Order) -> bool {
    &&& 0 <= p <= s.len()
    &&& sorted_by(s, ord)
    &&& forall|q: int| 0 <= q < p ==> ord(#[trigger] s[q], x) != Order::Greater
    &&& p < s.len() ==> ord(s[p], x) == Order::Greater
}

/// At an insertion point, everything from the point on is after `x`.
proof fn lemma_rest_after<T>(s: Seq<T>, x: T, p: int, ord: spec_fn(T, T) -> Order)
    requires
        order_laws(ord),
        insert_point(s, x, p, ord),
    ensures
        forall|q: int| p <= q < s.len() ==> ord(#[trigger] s[q], x) == Order::Greater,
{
    assert forall|q: int| p <= q < s.len() implies ord(#[trigger] s[q], x) == Order::Greater by {
        if q > p {
            assert(ord(s[p], s[q]) != Order::Greater);
            if ord(s[q], x) != Order::Greater {
                assert(ord(s[p], x) != Order::Greater);
            }
        }
    }
}

/// Inserting at an insertion point keeps the sequence sorted.
proof fn lemma_insert_sorted<T>(s: Seq<T>, x: T, p: int, ord: spec_fn(T, T) -> Order)
    requires
        order_laws(ord),
        insert_point(s, x, p, ord),
    ensures
        sorted_by(s.insert(p, x), ord),
{
    lemma_rest_after(s, x, p, ord);
    let t = s.insert(p, x);
    assert forall|i: int, j: int| 0 <= i < j < t.len() implies ord(#[trigger] t[i], #[trigger] t[j])
        != Order::Greater by {
        if j < p {
            assert(t[i] == s[i] && t[j] == s[j]);
        } else if j == p {
            assert(t[i] == s[i] && t[j] == x);
        } else if i == p {
            assert(t[i] == x && t[j] == s[j - 1]);
            assert(ord(s[j - 1], x) == Order::Greater);
            assert(ord(x, s[j - 1]) == flipped(ord(s[j - 1], x)));
        } else if i < p {
            assert(t[i] == s[i] && t[j] == s[j - 1]);
        } else {
            assert(t[i] == s[i - 1] && t[j] == s[j - 1]);
        }
    }
}

/// Inserting at an insertion point adds `x` to the ties of `e` when `x` ties
/// with `e`, at their end, and leaves them alone otherwise.
#[verifier::spinoff_prover]
proof fn lemma_insert_ties<T>(s: Seq<T>, x: T, p: int, e: T, ord: spec_fn(T, T) -> Order)
    requires
        order_laws(ord),
        insert_point(s, x, p, ord),
    ensures
        ties(s.insert(p, x), e, ord) == if ord(x, e) == Order::Equal {
            ties(s, e, ord).push(x)
        } else {
            ties(s, e, ord)
        },
{
    lemma_rest_after(s, x, p, ord);
    let t = s.insert(p, x);
    let pre = s.take(p);
    let post = s.skip(p);
    assert(s =~= pre + post);
    assert(t =~= pre + seq![x] + post);
    let f = |y: T| ord(y, e) == Order::Equal;
    assert(ties(t, e, ord) == t.filter(f));
    assert(ties(s, e, ord) == s.filter(f));
    Seq::filter_distributes_over_add(pre + seq![x], post, f);
    Seq::filter_distributes_over_add(pre, seq![x], f);
    Seq::filter_distributes_over_add(pre, post, f);
    Seq::<T>::empty().lemma_filter_push(x, f);
    assert(seq![x] =~= Seq::<T>::empty().push(x));
    assert(Seq::<T>::empty().filter(f) =~= Seq::<T>::empty()) by {
        reveal(Seq::filter);
    }
    if ord(x, e) == Order::Equal {
        assert(post.filter(f) =~= Seq::<T>::empty()) by {
            broadcast use vstd::seq_lib::group_filter_ensures;
            if post.filter(f).len() > 0 {
                let y = post.filter(f)[0];
                assert(post.filter(f).contains(y));
                post.lemma_filter_contains_rev(f, y);
                let q = choose|q: int| 0 <= q < post.len() && post[q] == y;
                assert(s[p + q] == y);
                assert(ord(y, x) == Order::Greater);
                assert(f(y));
                assert(ord(e, x) == flipped(ord(x, e)));
                assert(ord(y, x) != Order::Greater);
            }
        }
        assert(t.filter(f) =~= pre.filter(f).push(x));
        assert(s.filter(f) =~= pre.filter(f));
    } else {
        assert(t.filter(f) =~= pre.filter(f) + post.filter(f));
    }
}

/// One step of insertion sort: `out` sorts the first `k` elements of `orig`, and
/// inserting `orig[k]` at an insertion point sorts the first `k + 1`.
proof fn lemma_sort_step<T>(orig: Seq<T>, out: Seq<T>, k: int, p: int, ord: spec_fn(T, T) -> Order)
    requires
        order_laws(ord),
        0 <= k < orig.len(),
        stable_sort_of(orig.take(k), out, ord),
        insert_point(out, orig[k], p, ord),
    ensures
        stable_sort_of(orig.take(k + 1), out.insert(p, orig[k]), ord),
{
    let x = orig[k];
    lemma_insert_sorted(out, x, p, ord);
    assert(orig.take(k + 1) =~= orig.take(k).push(x));
    vstd::seq_lib::to_multiset_insert(out, p, x);
    vstd::seq_lib::to_multiset_build(orig.take(k), x);
    let t = out.insert(p, x);
    assert forall|e: T| #[trigger] ties(t, e, ord) == ties(orig.take(k + 1), e, ord) by {
        let f = |y: T| ord(y, e) == Order::Equal;
        lemma_insert_ties(out, x, p, e, ord);
        orig.take(k).lemma_filter_push(x, f);
        assert(ties(orig.take(k + 1), e, ord) == orig.take(k).push(x).filter(f));
        assert(ties(orig.take(k), e, ord) == orig.take(k).filter(f));
        assert(ties(out, e, ord) == ties(orig.take(k), e, ord));
    }
}

/// Nothing sorts nothing.
proof fn lemma_sort_start<T>(orig: Seq<T>, ord: spec_fn(T, T) -> Order)
    ensures
        stable_sort_of(orig.take(0), Seq::<T>::empty(), ord),
{
    assert(orig.take(0) =~= Seq::<T>::empty());
}

/// Splitting off the first element of a sequence: it heads its own ties, and the
/// ties of any `e` are those of the rest with the first element in front when it
/// ties with `e`.
proof fn lemma_ties_front<T>(s: Seq<T>, e: T, ord: spec_fn(T, T) -> Order)
    requires
        s.len() > 0,
    ensures
        ties(s, e, ord) == (if ord(s[0], e) == Order::Equal {
            seq![s[0]]
        } else {
            Seq::<T>::empty()
        }) + ties(s.drop_first(), e, ord),
{
    let f = |y: T| ord(y, e) == Order::Equal;
    assert(s =~= seq![s[0]] + s.drop_first());
    s.drop_first().lemma_filter_prepend(s[0], f);
}

/// Two stable sorts of the same sequence under a total preorder are equal: the
/// contract of a stable sort leaves nothing open.
pub proof fn law_stable_sort_unique<T>(v: Seq<T>, a: Seq<T>, b: Seq<T>, ord: spec_fn(T, T) -> Order)
    requires
        order_laws(ord),
        stable_sort_of(v, a, ord),
        stable_sort_of(v, b, ord),
    ensures
        a == b,
    decreases a.len(),
{
    broadcast use vstd::seq_lib::group_to_multiset_ensures;

    assert(a.len() == b.len()) by {
        assert(a.len() == a.to_multiset().len());
        assert(b.len() == b.to_multiset().len());
    }
    if a.len() == 0 {
        assert(a =~= b);
        return;
    }
    let x = a[0];
    let y = b[0];
    // each head is in the other sequence, so neither comes after the other
    assert(b.contains(y));
    assert(b.to_multiset().count(y) > 0);
    assert(a.to_multiset().count(y) > 0);
    assert(a.contains(y));
    let k = choose|k: int| 0 <= k < a.len() && a[k] == y;
    assert(ord(x, x) == flipped(ord(x, x)));
    if k > 0 {
        assert(ord(a[0], a[k]) != Order::Greater);
    }
    assert(a.contains(x));
    assert(a.to_multiset().count(x) > 0);
    assert(b.to_multiset().count(x) > 0);
    assert(b.contains(x));
    let m = choose|m: int| 0 <= m < b.len() && b[m] == x;
    assert(ord(y, y) == flipped(ord(y, y)));
    if m > 0 {
        assert(ord(b[0], b[m]) != Order::Greater);
    }
    assert(ord(y, x) == flipped(ord(x, y)));
    assert(ord(y, x) == Order::Equal);
    // the heads lead the same ties, so they are one and the same
    lemma_ties_front(a, x, ord);
    lemma_ties_front(b, x, ord);
    assert(ties(a, x, ord) == ties(v, x, ord));
    assert(ties(b, x, ord) == ties(v, x, ord));
    assert(ties(a, x, ord)[0] == x);
    assert(ties(b, x, ord)[0] == y);
    assert(x == y);
    // the tails are stable sorts of the same sequence
    let a1 = a.drop_first();
    let b1 = b.drop_first();
    assert(a.remove(0) =~= a1);
    assert(b.remove(0) =~= b1);
    assert(a1.to_multiset() == a.to_multiset().remove(x));
    assert(b1.to_multiset() == b.to_multiset().remove(y));
    assert forall|i: int, j: int| 0 <= i < j < a1.len() implies ord(#[trigger] a1[i], #[trigger] a1[j])
        != Order::Greater by {
        assert(a1[i] == a[i + 1] && a1[j] == a[j + 1]);
    }
    assert forall|i: int, j: int| 0 <= i < j < b1.len() implies ord(#[trigger] b1[i], #[trigger] b1[j])
        != Order::Greater by {
        assert(b1[i] == b[i + 1] && b1[j] == b[j + 1]);
    }
    assert forall|e: T| #[trigger] ties(b1, e, ord) == ties(a1, e, ord) by {
        lemma_ties_front(a, e, ord);
        lemma_ties_front(b, e, ord);
        assert(ties(a, e, ord) == ties(v, e, ord));
        assert(ties(b, e, ord) == ties(v, e, ord));
        let h = if ord(x, e) == Order::Equal {
            seq![x]
        } else {
            Seq::<T>::empty()
        };
        assert(ties(a1, e, ord) =~= ties(a, e, ord).skip(h.len() as int));
        assert(ties(b1, e, ord) =~= ties(b, e, ord).skip(h.len() as int));
    }
    law_stable_sort_unique(a1, a1, b1, ord);
    assert(a =~= b) by {
        assert forall|i: int| 0 <= i < a.len() implies a[i] == b[i] by {
            if i > 0 {
                assert(a[i] == a1[i - 1]);
                assert(b[i] == b1[i - 1]);
            }
        }
    }
}

/// Sorting a stably sorted sequence again, under the same order, changes nothing.
pub proof fn law_sort_again<T>(v: Seq<T>, a: Seq<T>, b: Seq<T>, ord: spec_fn(T, T) -> Order)
    requires
        order_laws(ord),
        stable_sort_of(v, a, ord),
        stable_sort_of(a, b, ord),
    ensures
        b == a,
{
    law_stable_sort_unique(a, a, b, ord);
}

// ── sorting entries ────────────────────────────────────────────────────────────

/// The entry order under a sort setting, as a function.
pub open spec fn entry_ord(mode: SortMode, dir: SortOrder, natural: bool) -> spec_fn(
    ImageEntry,
    ImageEntry,
) -> Order {
    |a: ImageEntry, b: ImageEntry| entry_order(a, b, mode, dir, natural)
}

/// The entry order is a total preorder under every sort setting.
pub proof fn law_entry_order(mode: SortMode, dir: SortOrder, natural: bool)
    ensures
        order_laws(entry_ord(mode, dir, natural)),
{
    let ord = entry_ord(mode, dir, natural);
    assert forall|a: ImageEntry, b: ImageEntry| #[trigger] ord(b, a) == flipped(ord(a, b)) by {
        lemma_entry_flip(a, b, mode, dir, natural);
    }
    assert forall|a: ImageEntry, b: ImageEntry, c: ImageEntry|
        #![trigger ord(a, b), ord(b, c)]
        ord(a, b) != Order::Greater && ord(b, c) != Order::Greater implies ord(a, c) != Order::Greater by {
        lemma_entry_trans(a, b, c, mode, dir, natural);
    }
}

/// What sorting entries stably under a sort setting guarantees.
pub open spec fn stably_sorted(
    v: Seq<ImageEntry>,
    out: Seq<ImageEntry>,
    mode: SortMode,
    dir: SortOrder,
    natural: bool,
) -> bool {
    stable_sort_of(v, out, entry_ord(mode, dir, natural))
}

/// The entries' order after a stable sort is fully determined, and sorting them
/// again under the same setting leaves them as they are.
pub proof fn law_entry_sort_determined(
    v: Seq<ImageEntry>,
    a: Seq<ImageEntry>,
    b: Seq<ImageEntry>,
    mode: SortMode,
    dir: SortOrder,
    natural: bool,
)
    requires
        stably_sorted(v, a, mode, dir, natural),
    ensures
        stably_sorted(v, b, mode, dir, natural) ==> b == a,
        stably_sorted(a, b, mode, dir, natural) ==> b == a,
{
    law_entry_order(mode, dir, natural);
    if stably_sorted(v, b, mode, dir, natural) {
        law_stable_sort_unique(v, a, b, entry_ord(mode, dir, natural));
    }
    if stably_sorted(a, b, mode, dir, natural) {
        law_sort_again(v, a, b, entry_ord(mode, dir, natural));
    }
}

/// What each sort setting compares: by size or by time the entry with the smaller value
/// comes first in ascending order and last in descending order, entries with the same
/// value tie, and descending order is ascending order turned round for names too.
pub proof fn law_compare_meaning(a: ImageEntry, b: ImageEntry, natural: bool)
    ensures
        (entry_order(a, b, SortMode::Size, SortOrder::Ascending, natural) == Order::Less) == (a.size < b.size),
        (entry_order(a, b, SortMode::Size, SortOrder::Ascending, natural) == Order::Equal) == (a.size == b.size),
        (entry_order(a, b, SortMode::Size, SortOrder::Descending, natural) == Order::Less) == (a.size > b.size),
        (entry_order(a, b, SortMode::Size, SortOrder::Descending, natural) == Order::Equal) == (a.size == b.size),
        (entry_order(a, b, SortMode::Mtime, SortOrder::Ascending, natural) == Order::Less) == (a.mtime < b.mtime),
        (entry_order(a, b, SortMode::Mtime, SortOrder::Ascending, natural) == Order::Equal) == (a.mtime == b.mtime),
        (entry_order(a, b, SortMode::Mtime, SortOrder::Descending, natural) == Order::Less) == (a.mtime > b.mtime),
        (entry_order(a, b, SortMode::Mtime, SortOrder::Descending, natural) == Order::Equal) == (a.mtime == b.mtime),
        entry_order(a, b, SortMode::Name, SortOrder::Descending, natural) == flipped(
            entry_order(a, b, SortMode::Name, SortOrder::Ascending, natural),
        ),
        entry_order(a, b, SortMode::Name, SortOrder::Ascending, natural) == entry_order(
            b,
            a,
            SortMode::Name,
            SortOrder::Descending,
            natural,
        ),
{
    lemma_entry_flip(a, b, SortMode::Name, SortOrder::Ascending, natural);
}

/// A sorted listing is in the order the setting asks for: by size or time, never a larger
/// value before a smaller one in ascending order, nor a smaller before a larger one in
/// descending order.
pub proof fn law_sorted_by_value(v: Seq<ImageEntry>, out: Seq<ImageEntry>, mode: SortMode, dir: SortOrder, natural: bool)
    requires
        stably_sorted(v, out, mode, dir, natural),
    ensures
        mode == SortMode::Size && dir == SortOrder::Ascending ==> forall|i: int, j: int|
            0 <= i < j < out.len() ==> (#[trigger] out[i]).size <= (#[trigger] out[j]).size,
        mode == SortMode::Size && dir == SortOrder::Descending ==> forall|i: int, j: int|
            0 <= i < j < out.len() ==> (#[trigger] out[i]).size >= (#[trigger] out[j]).size,
        mode == SortMode::Mtime && dir == SortOrder::Ascending ==> forall|i: int, j: int|
            0 <= i < j < out.len() ==> (#[trigger] out[i]).mtime <= (#[trigger] out[j]).mtime,
        mode == SortMode::Mtime && dir == SortOrder::Descending ==> forall|i: int, j: int|
            0 <= i < j < out.len() ==> (#[trigger] out[i]).mtime >= (#[trigger] out[j]).mtime,
        out.to_multiset() == v.to_multiset(),
{
    let ord = entry_ord(mode, dir, natural);
    assert forall|i: int, j: int| 0 <= i < j < out.len() implies ord(out[i], out[j]) != Order::Greater by {
    }
}

/// Sorts the entries stably under a sort setting.
pub fn sort_entries(v: Vec<ImageEntry>, mode: SortMode, dir: SortOrder, natural: bool) -> (out: Vec<
    ImageEntry,
>)
    ensures
        stably_sorted(v@, out@, mode, dir, natural),
{
    let ghost orig = v@;
    let ghost ord = entry_ord(mode, dir, natural);
    proof {
        law_entry_order(mode, dir, natural);
        lemma_sort_start(orig, ord);
    }
    let mut src = v;
    let mut out: Vec<ImageEntry> = Vec::new();
    let ghost mut k: int = 0;
    assert(src@ =~= orig.skip(0));
    while src.len() > 0
        invariant
            0 <= k <= orig.len(),
            src@ == orig.skip(k),
            ord == entry_ord(mode, dir, natural),
            order_laws(ord),
            stable_sort_of(orig.take(k), out@, ord),
        decreases src@.len(),
    {
        let x = src.remove(0);
        let mut p: usize = 0;
        while p < out.len() && compare_entries(&out[p], &x, mode, dir, natural) != Order::Greater
            invariant
                p <= out@.len(),
                ord == entry_ord(mode, dir, natural),
                forall|q: int| 0 <= q < p ==> ord(#[trigger] out@[q], x) != Order::Greater,
            decreases out@.len() - p,
        {
            p = p + 1;
        }
        proof {
            assert(x == orig[k]);
            lemma_sort_step(orig, out@, k, p as int, ord);
            assert(src@ =~= orig.skip(k + 1));
        }
        out.insert(p, x);
        proof {
            k = k + 1;
        }
    }
    assert(orig.take(k) =~= orig);
    out
}

// ── sorting names ──────────────────────────────────────────────────────────────

/// Natural order of strings, as a function.
pub open spec fn name_ord() -> spec_fn(String, String) -> Order {
    |a: String, b: String| natural_order(a@, b@)
}

/// Natural order of strings is a total preorder.
pub proof fn law_name_order()
    ensures
        order_laws(name_ord()),
{
    let ord = name_ord();
    assert forall|a: String, b: String| #[trigger] ord(b, a) == flipped(ord(a, b)) by {
        lemma_natural_flip(a@, b@);
    }
    assert forall|a: String, b: String, c: String|
        #![trigger ord(a, b), ord(b, c)]
        ord(a, b) != Order::Greater && ord(b, c) != Order::Greater implies ord(a, c) != Order::Greater by {
        lemma_natural_trans(a@, b@, c@);
    }
}

/// Sorts names stably in natural order.
pub fn sort_names(v: Vec<String>) -> (out: Vec<String>)
    ensures
        stable_sort_of(v@, out@, name_ord()),
{
    let ghost orig = v@;
    let ghost ord = name_ord();
    proof {
        law_name_order();
        lemma_sort_start(orig, ord);
    }
    let mut src = v;
    let mut out: Vec<String> = Vec::new();
    let ghost mut k: int = 0;
    assert(src@ =~= orig.skip(0));
    while src.len() > 0
        invariant
            0 <= k <= orig.len(),
            src@ == orig.skip(k),
            ord == name_ord(),
            order_laws(ord),
            stable_sort_of(orig.take(k), out@, ord),
        decreases src@.len(),
    {
        let x = src.remove(0);
        let mut p: usize = 0;
        while p < out.len() && natord(out[p].as_str(), x.as_str()) != Order::Greater
            invariant
                p <= out@.len(),
                ord == name_ord(),
                forall|q: int| 0 <= q < p ==> ord(#[trigger] out@[q], x) != Order::Greater,
            decreases out@.len() - p,
        {
            p = p + 1;
        }
        proof {
            assert(x == orig[k]);
            lemma_sort_step(orig, out@, k, p as int, ord);
            assert(src@ =~= orig.skip(k + 1));
        }
        out.insert(p, x);
        proof {
            k = k + 1;
        }
    }
    assert(orig.take(k) =~= orig);
    out
}

} // verus!
