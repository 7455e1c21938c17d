use vstd::prelude::*;

verus! {

/// `c` is one of the code points that carry the Unicode `White_Space` property,
/// which is the set `char::is_whitespace` tests for.
pub open spec fn is_ws(c: char) -> bool {
    ||| c == '\t'
    ||| c == '\n'
    ||| c == '\u{0B}'
    ||| c == '\u{0C}'
    ||| c == '\r'
    ||| c == ' '
    ||| c == '\u{85}'
    ||| c == '\u{A0}'
    ||| c == '\u{1680}'
    ||| ('\u{2000}' <= c && c <= '\u{200A}')
    ||| c == '\u{2028}'
    ||| c == '\u{2029}'
    ||| c == '\u{202F}'
    ||| c == '\u{205F}'
    ||| c == '\u{3000}'
}

/// The characters of a string slice, in order.
pub fn str_chars(s: &str) -> (v: Vec<char>)
    ensures
        v@ == s@,
{
    let mut v: Vec<char> = Vec::new();
    for c in it: s.chars()
        invariant
            v@ == s@.take(it.index() as int),
            it.seq() == s@,
    {
        v.push(c);
    }
    v
}

} // verus!

verus! {

/// Calls `String::push`, which appends one character to the end of the string.
#[verifier::external_body]
fn push_char(s: &mut String, c: char)
    ensures
        final(s)@ == old(s)@.push(c),
{
    s.push(c);
}

/// An owned string holding exactly the given characters.
pub fn string_of(v: &Vec<char>) -> (s: String)
    ensures
        s@ == v@,
{
    let mut s = String::new();
    let mut i: usize = 0;
    while i < v.len()
        invariant
            i <= v.len(),
            s@ == v@.take(i as int),
        decreases v.len() - i,
    {
        push_char(&mut s, v[i]);
        i = i + 1;
        assert(s@ == v@.take(i as int));
    }
    assert(v@.take(v.len() as int) == v@);
    s
}

/// Whether two character sequences are equal.
pub fn chars_eq(a: &Vec<char>, b: &Vec<char>) -> (r: bool)
    ensures
        r == (a@ == b@),
{
    if a.len() != b.len() {
        return false;
    }
    let mut i: usize = 0;
    while i < a.len()
        invariant
            a.len() == b.len(),
            i <= a.len(),
            forall|k: int| 0 <= k < i ==> a@[k] == b@[k],
        decreases a.len() - i,
    {
        if a[i] != b[i] {
            return false;
        }
        i = i + 1;
    }
    assert(a@ =~= b@);
    true
}

/// Whether two string slices hold the same characters.
pub fn str_eq(a: &str, b: &str) -> (r: bool)
    ensures
        r == (a@ == b@),
{
    let va = str_chars(a);
    let vb = str_chars(b);
    chars_eq(&va, &vb)
}

/// `char::is_whitespace`, written out over the `White_Space` code points.
pub fn is_whitespace(c: char) -> (r: bool)
    ensures
        r == is_ws(c),
{
    c == '\t' || c == '\n' || c == '\u{0B}' || c == '\u{0C}' || c == '\r' || c == ' '
        || c == '\u{85}' || c == '\u{A0}' || c == '\u{1680}' || ('\u{2000}' <= c && c
        <= '\u{200A}') || c == '\u{2028}' || c == '\u{2029}' || c == '\u{202F}' || c
        == '\u{205F}' || c == '\u{3000}'
}

/// Index of the first non-whitespace character at or after `i` (or the length).
pub open spec fn skip_ws_from(s: Seq<char>, i: int) -> int
    decreases s.len() - i,
{
    if i < 0 || i >= s.len() {
        s.len() as int
    } else if is_ws(s[i]) {
        skip_ws_from(s, i + 1)
    } else {
        i
    }
}

/// End of `s` once the whitespace before position `j` (but not before `lo`) is dropped.
pub open spec fn trim_end_to(s: Seq<char>, lo: int, j: int) -> int
    decreases j - lo,
{
    if j <= lo {
        lo
    } else if is_ws(s[j - 1]) {
        trim_end_to(s, lo, j - 1)
    } else {
        j
    }
}

/// `str::trim`: `s` without leading and trailing whitespace.
pub open spec fn trim(s: Seq<char>) -> Seq<char> {
    let a = skip_ws_from(s, 0);
    s.subrange(a, trim_end_to(s, a, s.len() as int))
}

proof fn lemma_skip_ws_bounds(s: Seq<char>, i: int)
    requires
        0 <= i <= s.len(),
    ensures
        i <= skip_ws_from(s, i) <= s.len(),
    decreases s.len() - i,
{
    if i < s.len() && is_ws(s[i]) {
        lemma_skip_ws_bounds(s, i + 1);
    }
}

proof fn lemma_trim_end_bounds(s: Seq<char>, lo: int, j: int)
    requires
        0 <= lo <= j <= s.len(),
    ensures
        lo <= trim_end_to(s, lo, j) <= j,
    decreases j - lo,
{
    if j > lo && is_ws(s[j - 1]) {
        lemma_trim_end_bounds(s, lo, j - 1);
    }
}

/// Characters of `v` without leading and trailing whitespace.
pub fn trim_chars(v: &Vec<char>) -> (r: Vec<char>)
    ensures
        r@ == trim(v@),
{
    let mut a: usize = 0;
    proof {
        lemma_skip_ws_bounds(v@, 0);
    }
    while a < v.len() && is_whitespace(v[a])
        invariant
            a <= v.len(),
            skip_ws_from(v@, 0) == skip_ws_from(v@, a as int),
        decreases v.len() - a,
    {
        a = a + 1;
    }
    let mut b: usize = v.len();
    while b > a && is_whitespace(v[b - 1])
        invariant
            a <= b <= v.len(),
            a == skip_ws_from(v@, 0),
            trim_end_to(v@, a as int, v.len() as int) == trim_end_to(v@, a as int, b as int),
        decreases b,
    {
        b = b - 1;
    }
    let mut r: Vec<char> = Vec::new();
    let mut k: usize = a;
    while k < b
        invariant
            a <= k <= b <= v.len(),
            r@ == v@.subrange(a as int, k as int),
        decreases b - k,
    {
        r.push(v[k]);
        k = k + 1;
    }
    r
}

/// Splitting fold behind `str::split` with a single-character separator:
/// `cur` is the piece being read, `acc` the pieces already closed.
pub open spec fn split_acc(
    s: Seq<char>,
    sep: char,
    i: int,
    cur: Seq<char>,
    acc: Seq<Seq<char>>,
) -> Seq<Seq<char>>
    decreases s.len() - i,
{
    if i < 0 || i >= s.len() {
        acc.push(cur)
    } else if s[i] == sep {
        split_acc(s, sep, i + 1, Seq::empty(), acc.push(cur))
    } else {
        split_acc(s, sep, i + 1, cur.push(s[i]), acc)
    }
}

/// `str::split(sep)`: the pieces between separators, empty pieces included.
pub open spec fn split(s: Seq<char>, sep: char) -> Seq<Seq<char>> {
    split_acc(s, sep, 0, Seq::empty(), Seq::empty())
}

proof fn lemma_split_acc_len(s: Seq<char>, sep: char, i: int, cur: Seq<char>, acc: Seq<Seq<char>>)
    ensures
        split_acc(s, sep, i, cur, acc).len() >= acc.len() + 1,
    decreases s.len() - i,
{
    if 0 <= i < s.len() {
        if s[i] == sep {
            lemma_split_acc_len(s, sep, i + 1, Seq::empty(), acc.push(cur));
        } else {
            lemma_split_acc_len(s, sep, i + 1, cur.push(s[i]), acc);
        }
    }
}

/// Splitting always gives at least one piece.
pub proof fn lemma_split_nonempty(s: Seq<char>, sep: char)
    ensures
        split(s, sep).len() >= 1,
{
    lemma_split_acc_len(s, sep, 0, Seq::empty(), Seq::empty());
}

/// The pieces of `v` between occurrences of `sep`.
pub fn split_chars(v: &Vec<char>, sep: char) -> (r: Vec<Vec<char>>)
    ensures
        r@.map_values(|p: Vec<char>| p@) == split(v@, sep),
{
    let mut acc: Vec<Vec<char>> = Vec::new();
    let mut cur: Vec<char> = Vec::new();
    let mut i: usize = 0;
    assert(acc@.map_values(|p: Vec<char>| p@) =~= Seq::<Seq<char>>::empty());
    while i < v.len()
        invariant
            i <= v.len(),
            split(v@, sep) == split_acc(
                v@,
                sep,
                i as int,
                cur@,
                acc@.map_values(|p: Vec<char>| p@),
            ),
        decreases v.len() - i,
    {
        if v[i] == sep {
            let done = cur;
            cur = Vec::new();
            proof {
                assert(acc@.push(done).map_values(|p: Vec<char>| p@) == acc@.map_values(
                    |p: Vec<char>| p@,
                ).push(done@));
            }
            acc.push(done);
        } else {
            cur.push(v[i]);
        }
        i = i + 1;
    }
    proof {
        assert(acc@.push(cur).map_values(|p: Vec<char>| p@) == acc@.map_values(
            |p: Vec<char>| p@,
        ).push(cur@));
    }
    acc.push(cur);
    acc
}

/// Fold behind `str::split_whitespace`: maximal runs of non-whitespace characters.
pub open spec fn split_ws_acc(
    s: Seq<char>,
    i: int,
    cur: Seq<char>,
    acc: Seq<Seq<char>>,
) -> Seq<Seq<char>>
    decreases s.len() - i,
{
    if i < 0 || i >= s.len() {
        if cur.len() > 0 {
            acc.push(cur)
        } else {
            acc
        }
    } else if is_ws(s[i]) {
        split_ws_acc(s, i + 1, Seq::empty(), if cur.len() > 0 { acc.push(cur) } else { acc })
    } else {
        split_ws_acc(s, i + 1, cur.push(s[i]), acc)
    }
}

/// `str::split_whitespace`: the non-empty runs between whitespace.
pub open spec fn split_ws(s: Seq<char>) -> Seq<Seq<char>> {
    split_ws_acc(s, 0, Seq::empty(), Seq::empty())
}

/// The whitespace-separated words of `v`.
pub fn split_whitespace_chars(v: &Vec<char>) -> (r: Vec<Vec<char>>)
    ensures
        r@.map_values(|p: Vec<char>| p@) == split_ws(v@),
{
    let mut acc: Vec<Vec<char>> = Vec::new();
    let mut cur: Vec<char> = Vec::new();
    let mut i: usize = 0;
    assert(acc@.map_values(|p: Vec<char>| p@) =~= Seq::<Seq<char>>::empty());
    while i < v.len()
        invariant
            i <= v.len(),
            split_ws(v@) == split_ws_acc(v@, i as int, cur@, acc@.map_values(|p: Vec<char>| p@)),
        decreases v.len() - i,
    {
        if is_whitespace(v[i]) {
            if cur.len() > 0 {
                let done = cur;
                cur = Vec::new();
                proof {
                    assert(acc@.push(done).map_values(|p: Vec<char>| p@) == acc@.map_values(
                        |p: Vec<char>| p@,
                    ).push(done@));
                }
                acc.push(done);
            } else {
                assert(cur@ =~= Seq::<char>::empty());
            }
        } else {
            cur.push(v[i]);
        }
        i = i + 1;
    }
    if cur.len() > 0 {
        proof {
            assert(acc@.push(cur).map_values(|p: Vec<char>| p@) == acc@.map_values(
                |p: Vec<char>| p@,
            ).push(cur@));
        }
        acc.push(cur);
    }
    acc
}

/// Pieces glued together with `sep` between consecutive pieces (`slice::join`).
pub open spec fn join(pieces: Seq<Seq<char>>, sep: Seq<char>) -> Seq<char>
    decreases pieces.len(),
{
    if pieces.len() == 0 {
        Seq::empty()
    } else if pieces.len() == 1 {
        pieces[0]
    } else {
        join(pieces.drop_last(), sep) + sep + pieces.last()
    }
}

/// `pieces` joined with `sep` in between.
pub fn join_chars(pieces: &Vec<Vec<char>>, sep: &Vec<char>) -> (r: Vec<char>)
    ensures
        r@ == join(pieces@.map_values(|p: Vec<char>| p@), sep@),
{
    let ghost views = pieces@.map_values(|p: Vec<char>| p@);
    let mut r: Vec<char> = Vec::new();
    let mut i: usize = 0;
    while i < pieces.len()
        invariant
            i <= pieces.len(),
            views == pieces@.map_values(|p: Vec<char>| p@),
            r@ == join(views.take(i as int), sep@),
        decreases pieces.len() - i,
    {
        if i > 0 {
            let mut k: usize = 0;
            let ghost before = r@;
            while k < sep.len()
                invariant
                    k <= sep.len(),
                    r@ == before + sep@.take(k as int),
                decreases sep.len() - k,
            {
                r.push(sep[k]);
                k = k + 1;
            }
            assert(sep@.take(sep.len() as int) == sep@);
        }
        let mut k: usize = 0;
        let ghost before = r@;
        let p = &pieces[i];
        while k < p.len()
            invariant
                k <= p.len(),
                r@ == before + p@.take(k as int),
            decreases p.len() - k,
        {
            r.push(p[k]);
            k = k + 1;
        }
        assert(p@.take(p.len() as int) == p@);
        assert(views.take(i as int + 1).drop_last() == views.take(i as int));
        i = i + 1;
    }
    assert(views.take(pieces.len() as int) == views);
    r
}

} // verus!

verus! {

/// The ASCII digit for `d` (`d < 10`).
pub open spec fn digit_char(d: nat) -> char {
    if d == 0 {
        '0'
    } else if d == 1 {
        '1'
    } else if d == 2 {
        '2'
    } else if d == 3 {
        '3'
    } else if d == 4 {
        '4'
    } else if d == 5 {
        '5'
    } else if d == 6 {
        '6'
    } else if d == 7 {
        '7'
    } else if d == 8 {
        '8'
    } else {
        '9'
    }
}

/// Whether `c` is an ASCII digit.
pub open spec fn is_digit(c: char) -> bool {
    '0' <= c && c <= '9'
}

/// Value of an ASCII digit.
pub open spec fn digit_value(c: char) -> nat {
    if c == '0' {
        0
    } else if c == '1' {
        1
    } else if c == '2' {
        2
    } else if c == '3' {
        3
    } else if c == '4' {
        4
    } else if c == '5' {
        5
    } else if c == '6' {
        6
    } else if c == '7' {
        7
    } else if c == '8' {
        8
    } else {
        9
    }
}

/// Decimal notation of `n`, without sign or leading zeros (`usize::to_string`).
pub open spec fn decimal(n: nat) -> Seq<char>
    decreases n,
{
    if n < 10 {
        seq![digit_char(n)]
    } else {
        decimal(n / 10).push(digit_char(n % 10))
    }
}

/// Value of a string of ASCII digits.
pub open spec fn digits_value(s: Seq<char>) -> nat
    decreases s.len(),
{
    if s.len() == 0 {
        0
    } else {
        digits_value(s.drop_last()) * 10 + digit_value(s.last())
    }
}

/// Every character of `s` is an ASCII digit.
pub open spec fn all_digits(s: Seq<char>) -> bool {
    forall|i: int| 0 <= i < s.len() ==> is_digit(#[trigger] s[i])
}

/// What `str::parse` gives for an unsigned integer type whose largest value is `max`:
/// an optional `+`, then one or more ASCII digits whose value does not exceed `max`.
pub open spec fn parse_unsigned(s: Seq<char>, max: nat) -> Option<nat> {
    let body = if s.len() > 0 && s[0] == '+' {
        s.drop_first()
    } else {
        s
    };
    if body.len() == 0 || !all_digits(body) || digits_value(body) > max {
        None
    } else {
        Some(digits_value(body))
    }
}

fn digit_to_char(d: u64) -> (c: char)
    requires
        d < 10,
    ensures
        c == digit_char(d as nat),
{
    if d == 0 {
        '0'
    } else if d == 1 {
        '1'
    } else if d == 2 {
        '2'
    } else if d == 3 {
        '3'
    } else if d == 4 {
        '4'
    } else if d == 5 {
        '5'
    } else if d == 6 {
        '6'
    } else if d == 7 {
        '7'
    } else if d == 8 {
        '8'
    } else {
        '9'
    }
}

/// Decimal digits of `n`, as `to_string` writes them.
pub fn decimal_chars(n: u64) -> (r: Vec<char>)
    ensures
        r@ == decimal(n as nat),
    decreases n,
{
    if n < 10 {
        let mut v: Vec<char> = Vec::new();
        v.push(digit_to_char(n));
        assert(v@ =~= seq![digit_char(n as nat)]);
        v
    } else {
        let mut v = decimal_chars(n / 10);
        v.push(digit_to_char(n % 10));
        v
    }
}

fn char_digit(c: char) -> (r: Option<u64>)
    ensures
        r matches Some(d) ==> is_digit(c) && d == digit_value(c),
        r is None ==> !is_digit(c),
{
    if c == '0' {
        Some(0)
    } else if c == '1' {
        Some(1)
    } else if c == '2' {
        Some(2)
    } else if c == '3' {
        Some(3)
    } else if c == '4' {
        Some(4)
    } else if c == '5' {
        Some(5)
    } else if c == '6' {
        Some(6)
    } else if c == '7' {
        Some(7)
    } else if c == '8' {
        Some(8)
    } else if c == '9' {
        Some(9)
    } else {
        None
    }
}

proof fn lemma_digits_value_monotone(s: Seq<char>, i: int)
    requires
        0 <= i <= s.len(),
    ensures
        digits_value(s.take(i)) <= digits_value(s),
    decreases s.len() - i,
{
    if i < s.len() {
        lemma_digits_value_monotone(s, i + 1);
        assert(s.take(i + 1).drop_last() == s.take(i));
    } else {
        assert(s.take(i) == s);
    }
}

/// `str::parse` into an unsigned integer type whose largest value is `max`.
pub fn parse_unsigned_chars(v: &Vec<char>, max: u64) -> (r: Option<u64>)
    ensures
        r matches Some(n) ==> parse_unsigned(v@, max as nat) == Some(n as nat),
        r is None ==> parse_unsigned(v@, max as nat) is None,
{
    let start: usize = if v.len() > 0 && v[0] == '+' {
        1
    } else {
        0
    };
    let ghost body = if v@.len() > 0 && v@[0] == '+' {
        v@.drop_first()
    } else {
        v@
    };
    assert(body == v@.subrange(start as int, v@.len() as int));
    if start >= v.len() {
        return None;
    }
    let mut acc: u64 = 0;
    let mut i: usize = start;
    while i < v.len()
        invariant
            start <= i <= v.len(),
            body == v@.subrange(start as int, v@.len() as int),
            body == (if v@.len() > 0 && v@[0] == '+' {
                v@.drop_first()
            } else {
                v@
            }),
            all_digits(body.take(i - start)),
            acc as nat == digits_value(body.take(i - start)),
            acc <= max,
        decreases v.len() - i,
    {
        let d = char_digit(v[i]);
        match d {
            None => {
                assert(body[i - start] == v@[i as int]);
                assert(!is_digit(body[i - start]));
                assert(!all_digits(body));
                return None;
            },
            Some(d) => {
                assert(body.take(i - start + 1).drop_last() == body.take(i - start));
                assert(body.take(i - start + 1).last() == v@[i as int]);
                if d > max || acc > (max - d) / 10 {
                    proof {
                        if d <= max {
                            assert(acc * 10 + d > max) by (nonlinear_arith)
                                requires
                                    acc > (max - d) / 10,
                                    d <= max,
                            ;
                        }
                        lemma_digits_value_monotone(body, i - start + 1);
                    }
                    return None;
                }
                proof {
                    assert(acc * 10 + d <= max) by (nonlinear_arith)
                        requires
                            acc <= (max - d) / 10,
                            d <= max,
                    ;
                }
                acc = acc * 10 + d;
                assert(all_digits(body.take(i - start + 1)));
            },
        }
        i = i + 1;
    }
    assert(body.take(i - start) == body);
    Some(acc)
}

proof fn lemma_digit(d: nat)
    requires
        d < 10,
    ensures
        digit_value(digit_char(d)) == d,
        is_digit(digit_char(d)),
        digit_char(d) != '+',
{
}

pub proof fn lemma_decimal_digits(n: nat)
    ensures
        decimal(n).len() > 0,
        all_digits(decimal(n)),
        digits_value(decimal(n)) == n,
        decimal(n)[0] != '+',
    decreases n,
{
    lemma_digit(n % 10);
    if n < 10 {
        assert(decimal(n).drop_last() =~= Seq::<char>::empty());
        assert(digits_value(Seq::<char>::empty()) == 0);
        assert(decimal(n).last() == digit_char(n));
        assert(digits_value(decimal(n)) == digits_value(decimal(n).drop_last()) * 10 + digit_value(
            decimal(n).last(),
        ));
    } else {
        lemma_decimal_digits(n / 10);
        let d = decimal(n / 10);
        assert(decimal(n).drop_last() == d);
        assert(decimal(n).last() == digit_char(n % 10));
        assert(n == (n / 10) * 10 + n % 10);
        assert(digits_value(decimal(n)) == digits_value(d) * 10 + digit_value(decimal(n).last()));
        assert forall|i: int| 0 <= i < decimal(n).len() implies is_digit(#[trigger] decimal(n)[i]) by {
            if i < d.len() {
                assert(decimal(n)[i] == d[i]);
            }
        }
    }
}

/// Reading back the decimal notation of a number gives the number.
pub proof fn law_parse_decimal_roundtrip(n: nat, max: nat)
    requires
        n <= max,
    ensures
        parse_unsigned(decimal(n), max) == Some(n),
{
    lemma_decimal_digits(n);
}

/// The lowercase form `str::to_lowercase` gives for a string that is not all ASCII.
pub uninterp spec fn str_lowercase(s: Seq<char>) -> Seq<char>;

/// Every character of `s` is ASCII.
pub open spec fn is_ascii_chars(s: Seq<char>) -> bool {
    forall|i: int| 0 <= i < s.len() ==> (#[trigger] s[i]) <= '\u{7F}'
}

/// ASCII lowercase of one character: `A`..`Z` become `a`..`z`, others stay.
pub open spec fn ascii_lower(c: char) -> char {
    if 'A' <= c && c <= 'Z' {
        (c as int + 32) as char
    } else {
        c
    }
}

/// What `str::to_lowercase` gives: for an all-ASCII string each `A`..`Z` becomes
/// `a`..`z` and nothing else changes; other strings go by `str_lowercase`.
pub open spec fn lowercase(s: Seq<char>) -> Seq<char> {
    if is_ascii_chars(s) {
        s.map_values(|c: char| ascii_lower(c))
    } else {
        str_lowercase(s)
    }
}

/// Calls `str::to_lowercase`. Claims the ASCII mapping of `lowercase` for all-ASCII input
/// and `str_lowercase` of the input otherwise; what non-ASCII characters map to (the
/// Unicode case tables) is left unsaid.
#[verifier::external_body]
pub(crate) fn to_lowercase(s: &str) -> (r: String)
    ensures
        is_ascii_chars(s@) ==> r@ == s@.map_values(|c: char| ascii_lower(c)),
        !is_ascii_chars(s@) ==> r@ == str_lowercase(s@),
{
    s.to_lowercase()
}

/// `bool::to_string`.
pub open spec fn bool_text(b: bool) -> Seq<char> {
    if b {
        seq!['t', 'r', 'u', 'e']
    } else {
        seq!['f', 'a', 'l', 's', 'e']
    }
}

/// `"true"` or `"false"`.
pub fn bool_string(b: bool) -> (r: String)
    ensures
        r@ == bool_text(b),
{
    let mut v: Vec<char> = Vec::new();
    if b {
        v.push('t');
        v.push('r');
        v.push('u');
        v.push('e');
    } else {
        v.push('f');
        v.push('a');
        v.push('l');
        v.push('s');
        v.push('e');
    }
    assert(v@ =~= bool_text(b));
    string_of(&v)
}

/// `value == "true"`.
pub fn is_true_text(v: &Vec<char>) -> (r: bool)
    ensures
        r == (v@ == bool_text(true)),
{
    let t = vec!['t', 'r', 'u', 'e'];
    assert(t@ =~= bool_text(true));
    chars_eq(v, &t)
}

} // verus!

verus! {

/// The pieces with the first one prefixed by `cur`.
pub open spec fn prefixed(ps: Seq<Seq<char>>, cur: Seq<char>) -> Seq<Seq<char>> {
    ps.update(0, cur + ps[0])
}

proof fn lemma_split_shift(s: Seq<char>, sep: char, i: int, cur: Seq<char>, acc: Seq<Seq<char>>)
    requires
        0 <= i <= s.len(),
    ensures
        split_acc(s, sep, i, cur, acc) == acc + split_acc(s, sep, i, cur, Seq::empty()),
    decreases s.len() - i,
{
    if i < s.len() {
        if s[i] == sep {
            lemma_split_shift(s, sep, i + 1, Seq::empty(), acc.push(cur));
            lemma_split_shift(s, sep, i + 1, Seq::empty(), Seq::<Seq<char>>::empty().push(cur));
            assert(acc.push(cur) == acc + Seq::<Seq<char>>::empty().push(cur));
            assert(acc.push(cur) + split_acc(s, sep, i + 1, Seq::empty(), Seq::empty()) == acc + (
            Seq::<Seq<char>>::empty().push(cur) + split_acc(s, sep, i + 1, Seq::empty(), Seq::empty())));
        } else {
            lemma_split_shift(s, sep, i + 1, cur.push(s[i]), acc);
            lemma_split_shift(s, sep, i + 1, cur.push(s[i]), Seq::empty());
            assert(Seq::<Seq<char>>::empty() + split_acc(s, sep, i + 1, cur.push(s[i]), Seq::empty())
                == split_acc(s, sep, i + 1, cur.push(s[i]), Seq::empty()));
        }
    } else {
        assert(acc.push(cur) == acc + Seq::<Seq<char>>::empty().push(cur));
    }
}

proof fn lemma_split_word(s: Seq<char>, sep: char, i: int, w: Seq<char>, cur: Seq<char>)
    requires
        0 <= i,
        i + w.len() <= s.len(),
        s.subrange(i, i + w.len()) == w,
        forall|k: int| 0 <= k < w.len() ==> w[k] != sep,
    ensures
        split_acc(s, sep, i, cur, Seq::empty()) == split_acc(
            s,
            sep,
            i + w.len(),
            cur + w,
            Seq::empty(),
        ),
    decreases w.len(),
{
    if w.len() > 0 {
        assert(s[i] == w[0]);
        let w2 = w.drop_first();
        assert(s.subrange(i + 1, i + 1 + w2.len()) =~= w2);
        lemma_split_word(s, sep, i + 1, w2, cur.push(w[0]));
        assert(cur.push(w[0]) + w2 =~= cur + w);
    } else {
        assert(cur + w =~= cur);
    }
}

proof fn lemma_join_split_parts(ps: Seq<Seq<char>>, sep: Seq<char>)
    requires
        ps.len() >= 2,
    ensures
        join(ps, sep) == join(ps.drop_last(), sep) + sep + ps.last(),
{
}

proof fn lemma_split_join(s: Seq<char>, sep: char, i: int, cur: Seq<char>, ps: Seq<Seq<char>>)
    requires
        ps.len() >= 1,
        forall|a: int, k: int| 0 <= a < ps.len() && 0 <= k < ps[a].len() ==> ps[a][k] != sep,
        0 <= i,
        i + join(ps, seq![sep]).len() <= s.len(),
        s.subrange(i, i + join(ps, seq![sep]).len()) == join(ps, seq![sep]),
    ensures
        split_acc(s, sep, i, cur, Seq::empty()) == prefixed(ps, cur).drop_last() + split_acc(
            s,
            sep,
            i + join(ps, seq![sep]).len(),
            prefixed(ps, cur).last(),
            Seq::empty(),
        ),
    decreases ps.len(),
{
    let j = join(ps, seq![sep]);
    if ps.len() == 1 {
        assert(j == ps[0]);
        lemma_split_word(s, sep, i, ps[0], cur);
        assert(prefixed(ps, cur).drop_last() =~= Seq::<Seq<char>>::empty());
        assert(Seq::<Seq<char>>::empty() + split_acc(s, sep, i + j.len(), cur + ps[0], Seq::empty())
            == split_acc(s, sep, i + j.len(), cur + ps[0], Seq::empty()));
    } else {
        let init = ps.drop_last();
        let ji = join(init, seq![sep]);
        let e1 = i + ji.len();
        lemma_join_split_parts(ps, seq![sep]);
        assert(j == ji + seq![sep] + ps.last());
        assert(s.subrange(i, e1) =~= ji) by {
            assert forall|k: int| 0 <= k < ji.len() implies s.subrange(i, e1)[k] == ji[k] by {
                assert(s.subrange(i, i + j.len())[k] == j[k]);
            }
        }
        assert(s[e1] == sep) by {
            assert(s.subrange(i, i + j.len())[ji.len() as int] == j[ji.len() as int]);
        }
        let last = ps.last();
        assert(s.subrange(e1 + 1, e1 + 1 + last.len()) =~= last) by {
            assert forall|k: int| 0 <= k < last.len() implies s.subrange(e1 + 1, e1 + 1 + last.len())[k]
                == last[k] by {
                assert(s.subrange(i, i + j.len())[ji.len() + 1 + k] == j[ji.len() + 1 + k]);
            }
        }
        assert forall|a: int, k: int| 0 <= a < init.len() && 0 <= k < init[a].len() implies init[a][k]
            != sep by {
            assert(init[a] == ps[a]);
        }
        lemma_split_join(s, sep, i, cur, init);
        let pi = prefixed(init, cur);
        let c = pi.last();
        // at the separator the current piece is closed
        assert(split_acc(s, sep, e1, c, Seq::empty()) == split_acc(
            s,
            sep,
            e1 + 1,
            Seq::empty(),
            Seq::<Seq<char>>::empty().push(c),
        ));
        lemma_split_shift(s, sep, e1 + 1, Seq::empty(), Seq::<Seq<char>>::empty().push(c));
        assert forall|k: int| 0 <= k < last.len() implies last[k] != sep by {
            assert(ps[ps.len() - 1][k] != sep);
        }
        lemma_split_word(s, sep, e1 + 1, last, Seq::empty());
        assert(Seq::<char>::empty() + last =~= last);
        assert(e1 + 1 + last.len() == i + j.len());
        assert(prefixed(ps, cur).drop_last() =~= pi.drop_last() + Seq::<Seq<char>>::empty().push(c));
        assert(prefixed(ps, cur).last() == last);
    }
}

/// Pieces free of `sep`, joined with `sep` and split again, come back unchanged.
pub proof fn law_split_join(ps: Seq<Seq<char>>, sep: char)
    requires
        ps.len() >= 1,
        forall|a: int, k: int| 0 <= a < ps.len() && 0 <= k < ps[a].len() ==> ps[a][k] != sep,
    ensures
        split(join(ps, seq![sep]), sep) == ps,
{
    let s = join(ps, seq![sep]);
    assert(s.subrange(0, s.len() as int) =~= s);
    lemma_split_join(s, sep, 0, Seq::empty(), ps);
    assert(prefixed(ps, Seq::empty()) =~= ps) by {
        assert(Seq::<char>::empty() + ps[0] =~= ps[0]);
    }
    assert(ps.drop_last().push(ps.last()) == ps);
}

} // verus!

verus! {

proof fn lemma_split_ws_shift(s: Seq<char>, i: int, cur: Seq<char>, acc: Seq<Seq<char>>)
    requires
        0 <= i <= s.len(),
    ensures
        split_ws_acc(s, i, cur, acc) == acc + split_ws_acc(s, i, cur, Seq::empty()),
    decreases s.len() - i,
{
    let e = Seq::<Seq<char>>::empty();
    if i < s.len() {
        if is_ws(s[i]) {
            if cur.len() > 0 {
                lemma_split_ws_shift(s, i + 1, Seq::empty(), acc.push(cur));
                lemma_split_ws_shift(s, i + 1, Seq::empty(), e.push(cur));
                assert(acc.push(cur) == acc + e.push(cur));
                assert(acc.push(cur) + split_ws_acc(s, i + 1, Seq::empty(), e) == acc + (e.push(cur)
                    + split_ws_acc(s, i + 1, Seq::empty(), e)));
            } else {
                lemma_split_ws_shift(s, i + 1, Seq::empty(), acc);
                lemma_split_ws_shift(s, i + 1, Seq::empty(), e);
                assert(e + split_ws_acc(s, i + 1, Seq::empty(), e) == split_ws_acc(
                    s,
                    i + 1,
                    Seq::empty(),
                    e,
                ));
            }
        } else {
            lemma_split_ws_shift(s, i + 1, cur.push(s[i]), acc);
            lemma_split_ws_shift(s, i + 1, cur.push(s[i]), e);
            assert(e + split_ws_acc(s, i + 1, cur.push(s[i]), e) == split_ws_acc(
                s,
                i + 1,
                cur.push(s[i]),
                e,
            ));
        }
    } else {
        if cur.len() > 0 {
            assert(acc.push(cur) == acc + e.push(cur));
        } else {
            assert(acc == acc + e);
        }
    }
}

proof fn lemma_split_ws_word(s: Seq<char>, i: int, w: Seq<char>, cur: Seq<char>)
    requires
        0 <= i,
        i + w.len() <= s.len(),
        s.subrange(i, i + w.len()) == w,
        forall|k: int| 0 <= k < w.len() ==> !is_ws(w[k]),
    ensures
        split_ws_acc(s, i, cur, Seq::empty()) == split_ws_acc(s, i + w.len(), cur + w, Seq::empty()),
    decreases w.len(),
{
    if w.len() > 0 {
        assert(s[i] == w[0]);
        let w2 = w.drop_first();
        assert(s.subrange(i + 1, i + 1 + w2.len()) =~= w2);
        lemma_split_ws_word(s, i + 1, w2, cur.push(w[0]));
        assert(cur.push(w[0]) + w2 =~= cur + w);
    } else {
        assert(cur + w =~= cur);
    }
}

proof fn lemma_split_ws_join(s: Seq<char>, i: int, cur: Seq<char>, ps: Seq<Seq<char>>)
    requires
        ps.len() >= 1,
        forall|a: int| 0 <= a < ps.len() ==> #[trigger] ps[a].len() > 0,
        forall|a: int, k: int| 0 <= a < ps.len() && 0 <= k < ps[a].len() ==> !is_ws(ps[a][k]),
        0 <= i,
        i + join(ps, seq![' ']).len() <= s.len(),
        s.subrange(i, i + join(ps, seq![' ']).len()) == join(ps, seq![' ']),
    ensures
        split_ws_acc(s, i, cur, Seq::empty()) == prefixed(ps, cur).drop_last() + split_ws_acc(
            s,
            i + join(ps, seq![' ']).len(),
            prefixed(ps, cur).last(),
            Seq::empty(),
        ),
    decreases ps.len(),
{
    let j = join(ps, seq![' ']);
    if ps.len() == 1 {
        assert(j == ps[0]);
        lemma_split_ws_word(s, i, ps[0], cur);
        assert(prefixed(ps, cur).drop_last() =~= Seq::<Seq<char>>::empty());
        assert(Seq::<Seq<char>>::empty() + split_ws_acc(s, i + j.len(), cur + ps[0], Seq::empty())
            == split_ws_acc(s, i + j.len(), cur + ps[0], Seq::empty()));
    } else {
        let init = ps.drop_last();
        let ji = join(init, seq![' ']);
        let e1 = i + ji.len();
        lemma_join_split_parts(ps, seq![' ']);
        assert(j == ji + seq![' '] + ps.last());
        assert(s.subrange(i, e1) =~= ji) by {
            assert forall|k: int| 0 <= k < ji.len() implies s.subrange(i, e1)[k] == ji[k] by {
                assert(s.subrange(i, i + j.len())[k] == j[k]);
            }
        }
        assert(s[e1] == ' ') by {
            assert(s.subrange(i, i + j.len())[ji.len() as int] == j[ji.len() as int]);
        }
        let last = ps.last();
        assert(s.subrange(e1 + 1, e1 + 1 + last.len()) =~= last) by {
            assert forall|k: int| 0 <= k < last.len() implies s.subrange(e1 + 1, e1 + 1 + last.len())[k]
                == last[k] by {
                assert(s.subrange(i, i + j.len())[ji.len() + 1 + k] == j[ji.len() + 1 + k]);
            }
        }
        assert forall|a: int| 0 <= a < init.len() implies #[trigger] init[a].len() > 0 by {
            assert(init[a] == ps[a]);
        }
        assert forall|a: int, k: int| 0 <= a < init.len() && 0 <= k < init[a].len() implies !is_ws(
            init[a][k],
        ) by {
            assert(init[a] == ps[a]);
        }
        lemma_split_ws_join(s, i, cur, init);
        let pi = prefixed(init, cur);
        let c = pi.last();
        assert(c.len() > 0) by {
            if init.len() == 1 {
                assert(c == cur + init[0]);
                assert(init[0].len() > 0);
            } else {
                assert(c == init[init.len() - 1]);
                assert(init[init.len() - 1].len() > 0);
            }
        }
        assert(split_ws_acc(s, e1, c, Seq::empty()) == split_ws_acc(
            s,
            e1 + 1,
            Seq::empty(),
            Seq::<Seq<char>>::empty().push(c),
        ));
        lemma_split_ws_shift(s, e1 + 1, Seq::empty(), Seq::<Seq<char>>::empty().push(c));
        assert forall|k: int| 0 <= k < last.len() implies !is_ws(last[k]) by {
            assert(!is_ws(ps[ps.len() - 1][k]));
        }
        lemma_split_ws_word(s, e1 + 1, last, Seq::empty());
        assert(Seq::<char>::empty() + last =~= last);
        assert(e1 + 1 + last.len() == i + j.len());
        assert(prefixed(ps, cur).drop_last() =~= pi.drop_last() + Seq::<Seq<char>>::empty().push(c));
        assert(prefixed(ps, cur).last() == last);
    }
}

/// Non-empty words free of whitespace, joined with single spaces and split at
/// whitespace again, come back unchanged.
pub proof fn law_split_ws_join(ps: Seq<Seq<char>>)
    requires
        forall|a: int| 0 <= a < ps.len() ==> #[trigger] ps[a].len() > 0,
        forall|a: int, k: int| 0 <= a < ps.len() && 0 <= k < ps[a].len() ==> !is_ws(ps[a][k]),
    ensures
        split_ws(join(ps, seq![' '])) == ps,
{
    if ps.len() == 0 {
        assert(split_ws(join(ps, seq![' '])) =~= ps);
    } else {
        let s = join(ps, seq![' ']);
        assert(s.subrange(0, s.len() as int) =~= s);
        lemma_split_ws_join(s, 0, Seq::empty(), ps);
        assert(prefixed(ps, Seq::empty()) =~= ps) by {
            assert(Seq::<char>::empty() + ps[0] =~= ps[0]);
        }
        assert(ps[ps.len() - 1].len() > 0);
        assert(ps.drop_last().push(ps.last()) == ps);
    }
}

} // verus!
