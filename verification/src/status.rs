use vstd::prelude::*;
use crate::config::{SortMode, SortOrder};
use crate::text::{decimal, decimal_chars, string_of};

verus! {

/// The page slider of the status bar: its largest value and its position. With no
/// pages it spans `0..=1` and sits at the left end.
pub fn slider_range(target: usize, len: usize) -> (r: (usize, usize))
    ensures
        r == (if len > 0 {
            ((len - 1) as usize, target)
        } else {
            (1usize, 0usize)
        }),
{
    if len > 0 {
        (len - 1, target)
    } else {
        (1, 0)
    }
}

/// The page counter text: `page/pages`, counting from one, or `0/0` with no pages.
pub open spec fn counter_text(target: nat, len: nat) -> Seq<char> {
    if len > 0 {
        decimal(target + 1) + seq!['/'] + decimal(len)
    } else {
        seq!['0', '/', '0']
    }
}

/// The page counter of the status bar (see `counter_text`).
pub fn page_counter(target: usize, len: usize) -> (s: String)
    requires
        len > 0 ==> target < u64::MAX,
    ensures
        s@ == counter_text(target as nat, len as nat),
{
    if len > 0 {
        let mut v = decimal_chars((target as u64) + 1);
        v.push('/');
        let n = decimal_chars(len as u64);
        let ghost before = v@;
        let mut i: usize = 0;
        while i < n.len()
            invariant
                i <= n@.len(),
                v@ == before + n@.take(i as int),
            decreases n.len() - i,
        {
            v.push(n[i]);
            i = i + 1;
            assert(v@ =~= before + n@.take(i as int));
        }
        assert(n@.take(i as int) =~= n@);
        string_of(&v)
    } else {
        let v = vec!['0', '/', '0'];
        assert(v@ =~= seq!['0', '/', '0']);
        string_of(&v)
    }
}

/// The sort setting as the status bar shows it: the key's name and an arrow up
/// for ascending, down for descending.
pub open spec fn sort_label_text(mode: SortMode, order: SortOrder) -> Seq<char> {
    let key = match mode {
        SortMode::Name => seq!['名', '前'],
        SortMode::Mtime => seq!['日', '付'],
        SortMode::Size => seq!['サ', 'イ', 'ズ'],
    };
    let arrow = match order {
        SortOrder::Ascending => '▲',
        SortOrder::Descending => '▼',
    };
    key + seq![' ', arrow]
}

/// The sort setting as the status bar shows it (see `sort_label_text`).
pub fn sort_label(mode: SortMode, order: SortOrder) -> (s: String)
    ensures
        s@ == sort_label_text(mode, order),
{
    let mut v: Vec<char> = match mode {
        SortMode::Name => vec!['名', '前'],
        SortMode::Mtime => vec!['日', '付'],
        SortMode::Size => vec!['サ', 'イ', 'ズ'],
    };
    v.push(' ');
    match order {
        SortOrder::Ascending => v.push('▲'),
        SortOrder::Descending => v.push('▼'),
    }
    assert(v@ =~= sort_label_text(mode, order));
    string_of(&v)
}

} // verus!
