use vstd::prelude::*;
use crate::config::strings_view;
use crate::text::str_eq;

verus! {

/// Most recent paths kept.
pub const RECENT_MAX: usize = 10;

/// The recent paths after `path` is opened: it moves to the front (an older mention of it
/// goes), and when that makes more than `RECENT_MAX` the oldest one goes.
pub open spec fn remembered(recent: Seq<Seq<char>>, path: Seq<char>) -> Seq<Seq<char>> {
    let t = seq![path] + recent.filter(|p: Seq<char>| p != path);
    if t.len() > RECENT_MAX {
        t.drop_last()
    } else {
        t
    }
}

/// Records `path` as the most recently opened (see `remembered`).
pub fn remember_path(recent: &mut Vec<String>, path: String)
    ensures
        strings_view(final(recent)@) == remembered(strings_view(old(recent)@), path@),
{
    let ghost before = strings_view(recent@);
    let ghost pred = |p: Seq<char>| p != path@;
    let mut kept: Vec<String> = Vec::new();
    kept.push(path.clone());
    let mut i: usize = 0;
    while i < recent.len()
        invariant
            i <= recent@.len(),
            before == strings_view(recent@),
            pred == (|p: Seq<char>| p != path@),
            strings_view(kept@) == seq![path@] + before.take(i as int).filter(pred),
        decreases recent.len() - i,
    {
        let ghost kv = strings_view(kept@);
        proof {
            reveal(Seq::filter);
            assert(before.take(i + 1).drop_last() =~= before.take(i as int));
            assert(before.take(i + 1).last() == before[i as int]);
        }
        if !str_eq(recent[i].as_str(), path.as_str()) {
            kept.push(recent[i].clone());
            assert(strings_view(kept@) =~= kv.push(before[i as int]));
            assert(seq![path@] + before.take(i + 1).filter(pred) =~= kv.push(before[i as int]));
        } else {
            assert(before.take(i + 1).filter(pred) == before.take(i as int).filter(pred));
        }
        i = i + 1;
    }
    assert(before.take(i as int) =~= before);
    if kept.len() > RECENT_MAX {
        let ghost kv = strings_view(kept@);
        kept.pop();
        assert(strings_view(kept@) =~= kv.drop_last());
    }
    *recent = kept;
}

/// After opening a path it is the most recent one and is listed once; a list of at most
/// `RECENT_MAX` paths stays within that bound.
pub proof fn law_remembered(recent: Seq<Seq<char>>, path: Seq<char>)
    ensures
        remembered(recent, path)[0] == path,
        forall|i: int| 0 < i < remembered(recent, path).len() ==> #[trigger] remembered(recent, path)[i] != path,
        recent.len() <= RECENT_MAX ==> remembered(recent, path).len() <= RECENT_MAX,
{
    let pred = |p: Seq<char>| p != path;
    let f = recent.filter(pred);
    broadcast use vstd::seq_lib::group_filter_ensures;
    let t = seq![path] + f;
    assert forall|i: int| 0 < i < t.len() implies #[trigger] t[i] != path by {
        assert(t[i] == f[i - 1]);
        assert(pred(f[i - 1]));
    }
    assert(f.len() <= recent.len());
}

} // verus!
