use vstd::prelude::*;
use crate::config::Config;
use crate::keymap_store::string_pairs_view;
use crate::text::{split, trim, str_chars, split_chars, trim_chars, str_eq, chars_eq};
use crate::config::strings_view;

verus! {

/// Actions that only act while the folder tree has the focus; their keys may repeat
/// keys of the other actions without conflict.
pub open spec fn is_tree_action(a: Seq<char>) -> bool {
    a == "Up"@ || a == "Down"@ || a == "Left"@ || a == "Right"@ || a == "Enter"@
}

/// The trimmed, non-empty pieces, in order.
pub open spec fn kept_keys(pieces: Seq<Seq<char>>) -> Seq<Seq<char>>
    decreases pieces.len(),
{
    if pieces.len() == 0 {
        Seq::empty()
    } else if trim(pieces.last()).len() > 0 {
        kept_keys(pieces.drop_last()).push(trim(pieces.last()))
    } else {
        kept_keys(pieces.drop_last())
    }
}

/// The keys a binding lists: its comma-separated pieces, trimmed, empty ones left out.
pub open spec fn binding_keys(binding: Seq<char>) -> Seq<Seq<char>> {
    kept_keys(split(binding, ','))
}

/// How many times `k` occurs in `s`.
pub open spec fn count_in(s: Seq<Seq<char>>, k: Seq<char>) -> nat
    decreases s.len(),
{
    if s.len() == 0 {
        0
    } else {
        count_in(s.drop_last(), k) + (if s.last() == k {
            1nat
        } else {
            0nat
        })
    }
}

/// Per binding: the keys it lists and whether its action is a tree action.
pub open spec fn binding_entries(pairs: Seq<(Seq<char>, Seq<char>)>) -> Seq<(Seq<Seq<char>>, bool)> {
    pairs.map_values(|p: (Seq<char>, Seq<char>)| (binding_keys(p.1), is_tree_action(p.0)))
}

/// How many times key `k` is listed by the bindings of group `g` (tree actions or the rest).
pub open spec fn occurrences(es: Seq<(Seq<Seq<char>>, bool)>, k: Seq<char>, g: bool) -> nat
    decreases es.len(),
{
    if es.len() == 0 {
        0
    } else {
        occurrences(es.drop_last(), k, g) + (if es.last().1 == g {
            count_in(es.last().0, k)
        } else {
            0
        })
    }
}

/// Whether the binding `e` lists a key that its group lists more than once in all.
pub open spec fn in_conflict(es: Seq<(Seq<Seq<char>>, bool)>, e: (Seq<Seq<char>>, bool)) -> bool {
    exists|m: int| 0 <= m < e.0.len() && occurrences(es, #[trigger] e.0[m], e.1) >= 2
}

/// The actions, among the first `n` bindings, that are in conflict, in binding order.
pub open spec fn conflicts_upto(pairs: Seq<(Seq<char>, Seq<char>)>, n: int) -> Seq<Seq<char>>
    decreases n,
{
    if n <= 0 {
        Seq::empty()
    } else if in_conflict(binding_entries(pairs), binding_entries(pairs)[n - 1]) {
        conflicts_upto(pairs, n - 1).push(pairs[n - 1].0)
    } else {
        conflicts_upto(pairs, n - 1)
    }
}

/// The actions whose binding shares a key with another binding of the same group
/// (or lists one key twice), in binding order.
pub open spec fn conflicting_actions(pairs: Seq<(Seq<char>, Seq<char>)>) -> Seq<Seq<char>> {
    conflicts_upto(pairs, pairs.len() as int)
}

fn is_tree_action_name(a: &str) -> (r: bool)
    ensures
        r == is_tree_action(a@),
{
    str_eq(a, "Up") || str_eq(a, "Down") || str_eq(a, "Left") || str_eq(a, "Right") || str_eq(
        a,
        "Enter",
    )
}

fn keys_of_binding(binding: &str) -> (r: Vec<Vec<char>>)
    ensures
        r@.map_values(|p: Vec<char>| p@) == binding_keys(binding@),
{
    let v = str_chars(binding);
    let pieces = split_chars(&v, ',');
    let ghost pv = pieces@.map_values(|p: Vec<char>| p@);
    let mut out: Vec<Vec<char>> = Vec::new();
    let mut i: usize = 0;
    assert(out@.map_values(|p: Vec<char>| p@) =~= kept_keys(pv.take(0)));
    while i < pieces.len()
        invariant
            i <= pieces@.len(),
            pv == pieces@.map_values(|p: Vec<char>| p@),
            pv == split(binding@, ','),
            out@.map_values(|p: Vec<char>| p@) == kept_keys(pv.take(i as int)),
        decreases pieces.len() - i,
    {
        let t = trim_chars(&pieces[i]);
        let ghost before = out@.map_values(|p: Vec<char>| p@);
        assert(pv.take(i + 1).drop_last() =~= pv.take(i as int));
        assert(pv.take(i + 1).last() == pieces@[i as int]@);
        if t.len() > 0 {
            out.push(t);
            assert(out@.map_values(|p: Vec<char>| p@) =~= before.push(trim(pieces@[i as int]@)));
        }
        i = i + 1;
    }
    assert(pv.take(i as int) =~= pv);
    out
}

fn count_capped(keys: &Vec<Vec<char>>, k: &Vec<char>) -> (r: usize)
    ensures
        r as nat == (if count_in(keys@.map_values(|p: Vec<char>| p@), k@) >= 2 {
            2
        } else {
            count_in(keys@.map_values(|p: Vec<char>| p@), k@)
        }),
{
    let ghost kv = keys@.map_values(|p: Vec<char>| p@);
    let mut c: usize = 0;
    let mut i: usize = 0;
    while i < keys.len()
        invariant
            i <= keys@.len(),
            kv == keys@.map_values(|p: Vec<char>| p@),
            c as nat == (if count_in(kv.take(i as int), k@) >= 2 {
                2
            } else {
                count_in(kv.take(i as int), k@)
            }),
        decreases keys.len() - i,
    {
        assert(kv.take(i + 1).drop_last() =~= kv.take(i as int));
        assert(kv.take(i + 1).last() == keys@[i as int]@);
        if chars_eq(&keys[i], k) && c < 2 {
            c = c + 1;
        }
        i = i + 1;
    }
    assert(kv.take(i as int) =~= kv);
    c
}

/// `min(occurrences, 2)`.
pub open spec fn capped(n: nat) -> nat {
    if n >= 2 {
        2
    } else {
        n
    }
}

pub open spec fn entries_view(es: Seq<(Vec<Vec<char>>, bool)>) -> Seq<(Seq<Seq<char>>, bool)> {
    es.map_values(|e: (Vec<Vec<char>>, bool)| (e.0@.map_values(|p: Vec<char>| p@), e.1))
}

fn occurrences_capped(es: &Vec<(Vec<Vec<char>>, bool)>, k: &Vec<char>, g: bool) -> (r: usize)
    ensures
        r as nat == capped(occurrences(entries_view(es@), k@, g)),
{
    let ghost ev = entries_view(es@);
    let mut c: usize = 0;
    let mut j: usize = 0;
    while j < es.len()
        invariant
            j <= es@.len(),
            ev == entries_view(es@),
            c as nat == capped(occurrences(ev.take(j as int), k@, g)),
        decreases es.len() - j,
    {
        assert(ev.take(j + 1).drop_last() =~= ev.take(j as int));
        assert(ev.take(j + 1).last() == ev[j as int]);
        if es[j].1 == g {
            let n = count_capped(&es[j].0, k);
            c = if c + n >= 2 {
                2
            } else {
                c + n
            };
        }
        j = j + 1;
    }
    assert(ev.take(j as int) =~= ev);
    c
}

/// The actions whose binding lists a key that another binding of the same group also lists
/// (tree actions are checked among themselves, the rest among themselves), or that lists one
/// key twice; each action once, in binding order.
pub fn build_conflict_set(config: &Config) -> (r: Vec<String>)
    ensures
        strings_view(r@) == conflicting_actions(config.keys.pair_seq()),
{
    let pairs = config.keys.pairs();
    let ghost pv = string_pairs_view(pairs@);
    let mut es: Vec<(Vec<Vec<char>>, bool)> = Vec::new();
    let mut i: usize = 0;
    while i < pairs.len()
        invariant
            i <= pairs@.len(),
            pv == string_pairs_view(pairs@),
            entries_view(es@) == binding_entries(pv).take(i as int),
        decreases pairs.len() - i,
    {
        let keys = keys_of_binding(pairs[i].1.as_str());
        let tree = is_tree_action_name(pairs[i].0.as_str());
        let ghost before = entries_view(es@);
        es.push((keys, tree));
        assert(entries_view(es@) =~= before.push((binding_keys(pv[i as int].1), is_tree_action(pv[i as int].0))));
        assert(binding_entries(pv).take(i + 1) =~= binding_entries(pv).take(i as int).push(binding_entries(pv)[i as int]));
        i = i + 1;
    }
    assert(binding_entries(pv).take(i as int) =~= binding_entries(pv));
    let ghost ev = entries_view(es@);
    let mut out: Vec<String> = Vec::new();
    let mut a: usize = 0;
    while a < es.len()
        invariant
            a <= es@.len(),
            es@.len() == pairs@.len(),
            pv == string_pairs_view(pairs@),
            ev == entries_view(es@),
            ev == binding_entries(pv),
            strings_view(out@) == conflicts_upto(pv, a as int),
        decreases es.len() - a,
    {
        let ghost e = ev[a as int];
        let mut hit = false;
        let mut m: usize = 0;
        while m < es[a].0.len()
            invariant
                a < es@.len(),
                m <= es@[a as int].0@.len(),
                ev == entries_view(es@),
                e == ev[a as int],
                hit == exists|x: int| 0 <= x < m && occurrences(ev, #[trigger] e.0[x], e.1) >= 2,
            decreases es@[a as int].0@.len() - m,
        {
            assert(e.0[m as int] == es@[a as int].0@[m as int]@);
            let n = occurrences_capped(&es, &es[a].0[m], es[a].1);
            if n >= 2 {
                hit = true;
            }
            m = m + 1;
        }
        let ghost before = strings_view(out@);
        if hit {
            out.push(pairs[a].0.clone());
            assert(strings_view(out@) =~= before.push(pv[a as int].0));
        }
        a = a + 1;
    }
    out
}

} // verus!
