use vstd::prelude::*;
use crate::text::str_chars;

verus! {

/// The outcome of comparing two values.
#[derive(Clone, Copy, PartialEq, Eq, Structural, Debug)]
pub enum Order {
    Less,
    Equal,
    Greater,
}

/// The same comparison seen from the other side.
pub open spec fn flipped(o: Order) -> Order {
    match o {
        Order::Less => Order::Greater,
        Order::Equal => Order::Equal,
        Order::Greater => Order::Less,
    }
}

/// Turns a comparison round.
pub fn flip(o: Order) -> (r: Order)
    ensures
        r == flipped(o),
{
    match o {
        Order::Less => Order::Greater,
        Order::Equal => Order::Equal,
        Order::Greater => Order::Less,
    }
}

/// How two integers compare.
pub open spec fn int_order(x: int, y: int) -> Order {
    if x < y {
        Order::Less
    } else if x == y {
        Order::Equal
    } else {
        Order::Greater
    }
}

/// Compares two unsigned integers.
pub fn u64_order(x: u64, y: u64) -> (o: Order)
    ensures
        o == int_order(x as int, y as int),
{
    if x < y {
        Order::Less
    } else if x == y {
        Order::Equal
    } else {
        Order::Greater
    }
}

/// Dictionary order over code points, a proper prefix coming first: the order
/// of `str` (UTF-8 keeps the order of code points).
pub open spec fn lex_order(a: Seq<char>, b: Seq<char>) -> Order
    decreases a.len(),
{
    if a.len() == 0 {
        if b.len() == 0 {
            Order::Equal
        } else {
            Order::Less
        }
    } else if b.len() == 0 {
        Order::Greater
    } else if a[0] != b[0] {
        int_order(a[0] as int, b[0] as int)
    } else {
        lex_order(a.drop_first(), b.drop_first())
    }
}

pub open spec fn is_digit(c: char) -> bool {
    '0' <= c && c <= '9'
}

/// The code point of `c` with ASCII capitals made small.
pub open spec fn folded(c: char) -> int {
    if 'A' <= c && c <= 'Z' {
        c as int + 32
    } else {
        c as int
    }
}

/// How many digits `s` starts with.
pub open spec fn digit_run(s: Seq<char>) -> nat
    decreases s.len(),
{
    if s.len() > 0 && is_digit(s[0]) {
        1 + digit_run(s.drop_first())
    } else {
        0
    }
}

/// `s` without its leading zeros.
pub open spec fn strip_zeros(s: Seq<char>) -> Seq<char>
    decreases s.len(),
{
    if s.len() > 0 && s[0] == '0' {
        strip_zeros(s.drop_first())
    } else {
        s
    }
}

/// How two runs of digits compare as numbers: without leading zeros, the one
/// with more digits is larger, and runs of the same length compare digit by digit.
pub open spec fn number_order(x: Seq<char>, y: Seq<char>) -> Order {
    let p = strip_zeros(x);
    let q = strip_zeros(y);
    if p.len() != q.len() {
        int_order(p.len() as int, q.len() as int)
    } else {
        lex_order(p, q)
    }
}

/// A string that starts with a digit starts with a nonempty run of digits,
/// no longer than the string.
pub proof fn lemma_digit_run_bounds(s: Seq<char>)
    ensures
        digit_run(s) <= s.len(),
        s.len() > 0 && is_digit(s[0]) ==> digit_run(s) >= 1,
    decreases s.len(),
{
    if s.len() > 0 && is_digit(s[0]) {
        lemma_digit_run_bounds(s.drop_first());
    }
}

/// Natural order: where both strings go on with digits, the two runs of digits
/// compare as numbers; elsewhere characters compare by code point with ASCII
/// capitals taken as small; a string that ends first comes first.
pub open spec fn natural_order(a: Seq<char>, b: Seq<char>) -> Order
    decreases a.len() + b.len(),
{
    if a.len() == 0 {
        if b.len() == 0 {
            Order::Equal
        } else {
            Order::Less
        }
    } else if b.len() == 0 {
        Order::Greater
    } else if is_digit(a[0]) && is_digit(b[0]) {
        let ra = digit_run(a);
        let rb = digit_run(b);
        let o = number_order(a.take(ra as int), b.take(rb as int));
        if o != Order::Equal {
            o
        } else {
            proof {
                lemma_digit_run_bounds(a);
                lemma_digit_run_bounds(b);
            }
            natural_order(a.skip(ra as int), b.skip(rb as int))
        }
    } else if folded(a[0]) != folded(b[0]) {
        int_order(folded(a[0]), folded(b[0]))
    } else {
        natural_order(a.drop_first(), b.drop_first())
    }
}

// ── laws of the orders ─────────────────────────────────────────────────────────

/// Dictionary order seen from the other side is flipped.
pub proof fn lemma_lex_flip(a: Seq<char>, b: Seq<char>)
    ensures
        lex_order(b, a) == flipped(lex_order(a, b)),
    decreases a.len(),
{
    if a.len() > 0 && b.len() > 0 && a[0] == b[0] {
        lemma_lex_flip(a.drop_first(), b.drop_first());
    }
}

/// Dictionary order is transitive: not after and not after gives not after.
pub proof fn lemma_lex_trans(a: Seq<char>, b: Seq<char>, c: Seq<char>)
    requires
        lex_order(a, b) != Order::Greater,
        lex_order(b, c) != Order::Greater,
    ensures
        lex_order(a, c) != Order::Greater,
        lex_order(a, b) == Order::Less || lex_order(b, c) == Order::Less ==> lex_order(a, c)
            == Order::Less,
    decreases a.len(),
{
    if a.len() > 0 && b.len() > 0 && c.len() > 0 && a[0] == b[0] && b[0] == c[0] {
        lemma_lex_trans(a.drop_first(), b.drop_first(), c.drop_first());
    }
}

pub proof fn lemma_number_flip(x: Seq<char>, y: Seq<char>)
    ensures
        number_order(y, x) == flipped(number_order(x, y)),
{
    lemma_lex_flip(strip_zeros(x), strip_zeros(y));
}

pub proof fn lemma_number_trans(x: Seq<char>, y: Seq<char>, z: Seq<char>)
    requires
        number_order(x, y) != Order::Greater,
        number_order(y, z) != Order::Greater,
    ensures
        number_order(x, z) != Order::Greater,
        number_order(x, y) == Order::Less || number_order(y, z) == Order::Less ==> number_order(
            x,
            z,
        ) == Order::Less,
{
    let (p, q, r) = (strip_zeros(x), strip_zeros(y), strip_zeros(z));
    if p.len() == q.len() && q.len() == r.len() {
        lemma_lex_trans(p, q, r);
    }
}

/// Natural order seen from the other side is flipped.
pub proof fn lemma_natural_flip(a: Seq<char>, b: Seq<char>)
    ensures
        natural_order(b, a) == flipped(natural_order(a, b)),
    decreases a.len() + b.len(),
{
    if a.len() > 0 && b.len() > 0 {
        if is_digit(a[0]) && is_digit(b[0]) {
            let ra = digit_run(a);
            let rb = digit_run(b);
            lemma_number_flip(a.take(ra as int), b.take(rb as int));
            lemma_digit_run_bounds(a);
            lemma_digit_run_bounds(b);
            lemma_natural_flip(a.skip(ra as int), b.skip(rb as int));
        } else if folded(a[0]) == folded(b[0]) {
            lemma_natural_flip(a.drop_first(), b.drop_first());
        }
    }
}

/// A digit folds to itself, and nothing else folds to a digit.
proof fn lemma_folded_digits(c: char)
    ensures
        is_digit(c) ==> folded(c) == c as int,
        ('0' as int <= folded(c) <= '9' as int) == is_digit(c),
{
}

/// Natural order is transitive: not after and not after gives not after, and a
/// strict step makes the whole strict.
pub proof fn lemma_natural_trans(a: Seq<char>, b: Seq<char>, c: Seq<char>)
    requires
        natural_order(a, b) != Order::Greater,
        natural_order(b, c) != Order::Greater,
    ensures
        natural_order(a, c) != Order::Greater,
        natural_order(a, b) == Order::Less || natural_order(b, c) == Order::Less ==> natural_order(
            a,
            c,
        ) == Order::Less,
    decreases a.len() + b.len() + c.len(),
{
    if a.len() == 0 || b.len() == 0 || c.len() == 0 {
        return;
    }
    lemma_folded_digits(a[0]);
    lemma_folded_digits(b[0]);
    lemma_folded_digits(c[0]);
    lemma_digit_run_bounds(a);
    lemma_digit_run_bounds(b);
    lemma_digit_run_bounds(c);
    let (da, db, dc) = (is_digit(a[0]), is_digit(b[0]), is_digit(c[0]));
    if da && db && dc {
        let (ra, rb, rc) = (digit_run(a), digit_run(b), digit_run(c));
        let (na, nb, nc) = (a.take(ra as int), b.take(rb as int), c.take(rc as int));
        lemma_number_trans(na, nb, nc);
        if number_order(na, nb) == Order::Equal && number_order(nb, nc) == Order::Equal {
            lemma_natural_trans(a.skip(ra as int), b.skip(rb as int), c.skip(rc as int));
        }
    } else if !da && !db && !dc {
        if folded(a[0]) == folded(b[0]) && folded(b[0]) == folded(c[0]) {
            lemma_natural_trans(a.drop_first(), b.drop_first(), c.drop_first());
        }
    }
}

// ── executable comparisons ─────────────────────────────────────────────────────

pub fn char_is_digit(c: char) -> (b: bool)
    ensures
        b == is_digit(c),
{
    '0' <= c && c <= '9'
}

pub(crate) fn fold_char(c: char) -> (r: u32)
    ensures
        r == folded(c),
{
    let n: u32 = c as u32;
    if 'A' <= c && c <= 'Z' {
        n + 32
    } else {
        n
    }
}

/// Dictionary order of `v[lo..hi]` against `w[lo2..hi2]`.
fn lex_between(v: &Vec<char>, lo: usize, hi: usize, w: &Vec<char>, lo2: usize, hi2: usize) -> (o:
    Order)
    requires
        lo <= hi <= v@.len(),
        lo2 <= hi2 <= w@.len(),
    ensures
        o == lex_order(v@.subrange(lo as int, hi as int), w@.subrange(lo2 as int, hi2 as int)),
{
    let mut i = lo;
    let mut j = lo2;
    while i < hi && j < hi2
        invariant
            lo <= i <= hi <= v@.len(),
            lo2 <= j <= hi2 <= w@.len(),
            i - lo == j - lo2,
            lex_order(v@.subrange(lo as int, hi as int), w@.subrange(lo2 as int, hi2 as int))
                == lex_order(v@.subrange(i as int, hi as int), w@.subrange(j as int, hi2 as int)),
        decreases hi - i,
    {
        let x = v[i];
        let y = w[j];
        proof {
            assert(v@.subrange(i as int, hi as int)[0] == x);
            assert(w@.subrange(j as int, hi2 as int)[0] == y);
            assert(v@.subrange(i as int, hi as int).drop_first() =~= v@.subrange(
                i + 1,
                hi as int,
            ));
            assert(w@.subrange(j as int, hi2 as int).drop_first() =~= w@.subrange(
                j + 1,
                hi2 as int,
            ));
        }
        if x != y {
            if x < y {
                return Order::Less;
            } else {
                return Order::Greater;
            }
        }
        i = i + 1;
        j = j + 1;
    }
    if i == hi {
        if j == hi2 {
            Order::Equal
        } else {
            Order::Less
        }
    } else {
        Order::Greater
    }
}

/// Compares two strings as `str` does.
pub fn lex_order_of(a: &str, b: &str) -> (o: Order)
    ensures
        o == lex_order(a@, b@),
{
    let va = str_chars(a);
    let vb = str_chars(b);
    assert(va@.subrange(0, va@.len() as int) =~= va@);
    assert(vb@.subrange(0, vb@.len() as int) =~= vb@);
    lex_between(&va, 0, va.len(), &vb, 0, vb.len())
}

/// `s` starts with exactly `k` digits.
proof fn lemma_digit_run_is(s: Seq<char>, k: int)
    requires
        0 <= k <= s.len(),
        forall|m: int| 0 <= m < k ==> is_digit(#[trigger] s[m]),
        k == s.len() || !is_digit(s[k]),
    ensures
        digit_run(s) == k,
    decreases k,
{
    if k > 0 {
        lemma_digit_run_is(s.drop_first(), k - 1);
    }
}

/// Where the run of digits that starts at `i` ends.
fn run_end(v: &Vec<char>, i: usize) -> (e: usize)
    requires
        i <= v@.len(),
    ensures
        i <= e <= v@.len(),
        e - i == digit_run(v@.skip(i as int)),
        forall|m: int| i <= m < e ==> is_digit(#[trigger] v@[m]),
{
    let mut e = i;
    while e < v.len() && char_is_digit(v[e])
        invariant
            i <= e <= v@.len(),
            forall|m: int| i <= m < e ==> is_digit(#[trigger] v@[m]),
        decreases v@.len() - e,
    {
        e = e + 1;
    }
    proof {
        let s = v@.skip(i as int);
        assert forall|m: int| 0 <= m < e - i implies is_digit(#[trigger] s[m]) by {
            assert(s[m] == v@[i + m]);
        }
        if e < v@.len() {
            assert(s[e - i] == v@[e as int]);
        }
        lemma_digit_run_is(s, e - i);
    }
    e
}

/// `s` starts with exactly `k` zeros and then something else (or ends).
proof fn lemma_strip_is(s: Seq<char>, k: int)
    requires
        0 <= k <= s.len(),
        forall|m: int| 0 <= m < k ==> #[trigger] s[m] == '0',
        k == s.len() || s[k] != '0',
    ensures
        strip_zeros(s) == s.skip(k),
    decreases k,
{
    if k > 0 {
        lemma_strip_is(s.drop_first(), k - 1);
        assert(s.drop_first().skip(k - 1) =~= s.skip(k));
    } else {
        assert(s.skip(0) =~= s);
    }
}

/// Compares the runs of digits `v[i..ei]` and `w[j..ej]` as numbers.
fn number_between(v: &Vec<char>, i: usize, ei: usize, w: &Vec<char>, j: usize, ej: usize) -> (o:
    Order)
    requires
        i <= ei <= v@.len(),
        j <= ej <= w@.len(),
    ensures
        o == number_order(v@.subrange(i as int, ei as int), w@.subrange(j as int, ej as int)),
{
    let mut si = i;
    while si < ei && v[si] == '0'
        invariant
            i <= si <= ei <= v@.len(),
            forall|m: int| i <= m < si ==> #[trigger] v@[m] == '0',
        decreases ei - si,
    {
        si = si + 1;
    }
    let mut sj = j;
    while sj < ej && w[sj] == '0'
        invariant
            j <= sj <= ej <= w@.len(),
            forall|m: int| j <= m < sj ==> #[trigger] w@[m] == '0',
        decreases ej - sj,
    {
        sj = sj + 1;
    }
    proof {
        let x = v@.subrange(i as int, ei as int);
        let y = w@.subrange(j as int, ej as int);
        assert forall|m: int| 0 <= m < si - i implies #[trigger] x[m] == '0' by {
            assert(x[m] == v@[i + m]);
        }
        if si < ei {
            assert(x[si - i] == v@[si as int]);
        }
        lemma_strip_is(x, si - i);
        assert(x.skip(si - i) =~= v@.subrange(si as int, ei as int));
        assert forall|m: int| 0 <= m < sj - j implies #[trigger] y[m] == '0' by {
            assert(y[m] == w@[j + m]);
        }
        if sj < ej {
            assert(y[sj - j] == w@[sj as int]);
        }
        lemma_strip_is(y, sj - j);
        assert(y.skip(sj - j) =~= w@.subrange(sj as int, ej as int));
    }
    let la = ei - si;
    let lb = ej - sj;
    if la < lb {
        Order::Less
    } else if la > lb {
        Order::Greater
    } else {
        lex_between(v, si, ei, w, sj, ej)
    }
}

/// Compares two names in natural order, so that `page2` comes before `page10`.
pub fn natord(a: &str, b: &str) -> (o: Order)
    ensures
        o == natural_order(a@, b@),
{
    let va = str_chars(a);
    let vb = str_chars(b);
    let n = va.len();
    let m = vb.len();
    let mut i: usize = 0;
    let mut j: usize = 0;
    assert(va@.skip(0) =~= va@);
    assert(vb@.skip(0) =~= vb@);
    loop
        invariant
            n == va@.len(),
            m == vb@.len(),
            i <= n,
            j <= m,
            natural_order(a@, b@) == natural_order(va@.skip(i as int), vb@.skip(j as int)),
            va@ == a@,
            vb@ == b@,
        decreases n - i + m - j,
    {
        let ghost s = va@.skip(i as int);
        let ghost t = vb@.skip(j as int);
        if i == n {
            if j == m {
                return Order::Equal;
            } else {
                return Order::Less;
            }
        }
        if j == m {
            return Order::Greater;
        }
        assert(s[0] == va@[i as int]);
        assert(t[0] == vb@[j as int]);
        if char_is_digit(va[i]) && char_is_digit(vb[j]) {
            let ei = run_end(&va, i);
            let ej = run_end(&vb, j);
            proof {
                lemma_digit_run_bounds(s);
                lemma_digit_run_bounds(t);
                assert(s.take(ei - i) =~= va@.subrange(i as int, ei as int));
                assert(t.take(ej - j) =~= vb@.subrange(j as int, ej as int));
                assert(s.skip(ei - i) =~= va@.skip(ei as int));
                assert(t.skip(ej - j) =~= vb@.skip(ej as int));
            }
            let o = number_between(&va, i, ei, &vb, j, ej);
            if o != Order::Equal {
                return o;
            }
            i = ei;
            j = ej;
        } else {
            let x = fold_char(va[i]);
            let y = fold_char(vb[j]);
            if x < y {
                return Order::Less;
            }
            if x > y {
                return Order::Greater;
            }
            proof {
                assert(s.drop_first() =~= va@.skip(i + 1));
                assert(t.drop_first() =~= vb@.skip(j + 1));
            }
            i = i + 1;
            j = j + 1;
        }
    }
}

/// `name` ends in `suffix` (given in small letters) when ASCII capitals are taken as small.
pub open spec fn ends_with_ignoring_case(name: Seq<char>, suffix: Seq<char>) -> bool {
    &&& name.len() >= suffix.len()
    &&& forall|i: int|
        0 <= i < suffix.len() ==> folded(#[trigger] name[name.len() - suffix.len() + i]) == folded(
            suffix[i],
        )
}

/// Whether `v` ends in `suffix` (given in small letters), ASCII capitals taken as small.
pub fn ends_with_ignoring_case_chars(v: &Vec<char>, suffix: &Vec<char>) -> (b: bool)
    ensures
        b == ends_with_ignoring_case(v@, suffix@),
{
    if v.len() < suffix.len() {
        return false;
    }
    let base = v.len() - suffix.len();
    let mut i: usize = 0;
    while i < suffix.len()
        invariant
            base + suffix@.len() == v@.len(),
            v@.len() <= usize::MAX,
            i <= suffix@.len(),
            forall|j: int| 0 <= j < i ==> folded(#[trigger] v@[base + j]) == folded(suffix@[j]),
        decreases suffix.len() - i,
    {
        if fold_char(v[base + i]) != fold_char(suffix[i]) {
            assert(folded(v@[v@.len() - suffix@.len() + i]) != folded(suffix@[i as int]));
            return false;
        }
        i = i + 1;
    }
    assert forall|j: int| 0 <= j < suffix@.len() implies folded(
        #[trigger] v@[v@.len() - suffix@.len() + j],
    ) == folded(suffix@[j]) by {
        assert(v@.len() - suffix@.len() + j == base + j);
    }
    true
}

} // verus!
