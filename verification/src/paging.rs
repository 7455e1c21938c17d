use vstd::prelude::*;
use crate::config::Config;

verus! {

/// Whether the forward step from `current` depends on the spread flags: manga mode, a
/// following page exists, and `current` is not the lone cover (page 0 when unshifted).
pub open spec fn next_looks(manga: bool, shift: bool, len: nat, current: nat) -> bool {
    manga && current + 1 < len && (shift || current != 0)
}

/// The forward step from `current`, given whether the page there (`here`) and the one
/// after it (`after`) are spreads: 2 in manga mode when the step looks at the flags and
/// neither is a spread, else 1.
pub open spec fn next_step_of(
    manga: bool,
    shift: bool,
    len: nat,
    current: nat,
    here: bool,
    after: bool,
) -> nat {
    if next_looks(manga, shift, len, current) && !here && !after {
        2
    } else {
        1
    }
}

/// Whether the backward step from `current` depends on the spread flags: manga mode and
/// `current` past the first pair (index 0 when shifted, 1 otherwise) and at least 2.
pub open spec fn prev_looks(manga: bool, shift: bool, current: nat) -> bool {
    manga && current > (if shift {
        0nat
    } else {
        1nat
    }) && current >= 2
}

/// The backward step from `current`, given whether the two pages before it are spreads.
pub open spec fn prev_step_of(
    manga: bool,
    shift: bool,
    current: nat,
    before: bool,
    before2: bool,
) -> nat {
    if prev_looks(manga, shift, current) && !before && !before2 {
        2
    } else {
        1
    }
}

/// How many pages "next" advances from `current` (1, or 2 for a manga pair).
/// `is_spread(i)` tells whether page `i` is a wide spread; it is asked about `current`,
/// and about `current + 1` only when `current` is no spread.
pub fn next_step(
    manga_mode: bool,
    manga_shift: bool,
    entries_len: usize,
    current: usize,
    is_spread: impl Fn(usize) -> bool,
) -> (r: usize)
    requires
        current < usize::MAX,
        forall|i: usize| call_requires(is_spread, (i,)),
    ensures
        exists|here: bool, after: bool|
            (next_looks(manga_mode, manga_shift, entries_len as nat, current as nat) ==> (
            call_ensures(is_spread, (current,), here) && (here || call_ensures(
                is_spread,
                ((current + 1) as usize,),
                after,
            )))) && r == next_step_of(
                manga_mode,
                manga_shift,
                entries_len as nat,
                current as nat,
                here,
                after,
            ),
{
    if !manga_mode {
        assert(r_is(1, manga_mode, manga_shift, entries_len, current, false, false));
        return 1;
    }
    if current + 1 >= entries_len {
        assert(r_is(1, manga_mode, manga_shift, entries_len, current, false, false));
        return 1;
    }
    if !manga_shift && current == 0 {
        assert(r_is(1, manga_mode, manga_shift, entries_len, current, false, false));
        return 1;
    }
    let here = is_spread(current);
    if here {
        assert(call_ensures(is_spread, (current,), here) && (here || call_ensures(
            is_spread,
            ((current + 1) as usize,),
            false,
        )));
        assert(r_is(1, manga_mode, manga_shift, entries_len, current, here, false));
        return 1;
    }
    let after = is_spread(current + 1);
    assert(call_ensures(is_spread, (current,), here) && (here || call_ensures(
        is_spread,
        ((current + 1) as usize,),
        after,
    )));
    if after {
        assert(r_is(1, manga_mode, manga_shift, entries_len, current, here, after));
        1
    } else {
        assert(r_is(2, manga_mode, manga_shift, entries_len, current, here, after));
        2
    }
}

spec fn r_is(
    r: usize,
    manga: bool,
    shift: bool,
    len: usize,
    current: usize,
    here: bool,
    after: bool,
) -> bool {
    r == next_step_of(manga, shift, len as nat, current as nat, here, after)
}

/// How many pages "previous" goes back from `current` (1, or 2 for a manga pair).
/// `is_spread` is asked about the two pages before `current` when the step looks at them.
pub fn prev_step(
    manga_mode: bool,
    manga_shift: bool,
    current: usize,
    is_spread: impl Fn(usize) -> bool,
) -> (r: usize)
    requires
        forall|i: usize| call_requires(is_spread, (i,)),
    ensures
        exists|before: bool, before2: bool|
            (prev_looks(manga_mode, manga_shift, current as nat) ==> (call_ensures(
                is_spread,
                ((current - 1) as usize,),
                before,
            ) && call_ensures(is_spread, ((current - 2) as usize,), before2))) && r
                == prev_step_of(manga_mode, manga_shift, current as nat, before, before2),
{
    if !manga_mode {
        assert(p_is(1, manga_mode, manga_shift, current, false, false));
        return 1;
    }
    let first_pair_idx: usize = if manga_shift {
        0
    } else {
        1
    };
    if current <= first_pair_idx || current < 2 {
        assert(p_is(1, manga_mode, manga_shift, current, false, false));
        return 1;
    }
    let before = is_spread(current - 1);
    let before2 = is_spread(current - 2);
    assert(call_ensures(is_spread, ((current - 1) as usize,), before) && call_ensures(
        is_spread,
        ((current - 2) as usize,),
        before2,
    ));
    if before || before2 {
        assert(p_is(1, manga_mode, manga_shift, current, before, before2));
        1
    } else {
        assert(p_is(2, manga_mode, manga_shift, current, before, before2));
        2
    }
}

spec fn p_is(r: usize, manga: bool, shift: bool, current: usize, before: bool, before2: bool) -> bool {
    r == prev_step_of(manga, shift, current as nat, before, before2)
}

/// Whether page `i` opens a pair in manga mode: even pages when shifted, odd ones otherwise.
pub open spec fn pair_start(i: nat, shift: bool) -> bool {
    if shift {
        i % 2 == 0
    } else {
        i % 2 == 1
    }
}

/// The page "last" jumps to: the final page, or in manga mode the start of the final pair.
pub open spec fn last_page_of(len: nat, manga: bool, shift: bool) -> nat {
    if len == 0 {
        0
    } else if manga && len - 1 > 0 && !pair_start((len - 1) as nat, shift) {
        (len - 2) as nat
    } else {
        (len - 1) as nat
    }
}

/// The index "last page" moves to; in manga mode it is chosen so that the final pair
/// stays together.
pub fn last_page_index(len: usize, manga_mode: bool, manga_shift: bool) -> (r: usize)
    ensures
        r == last_page_of(len as nat, manga_mode, manga_shift),
        len > 0 ==> r < len,
        len > 0 ==> r + 2 >= len,
        manga_mode && len > 1 ==> pair_start(r as nat, manga_shift),
{
    if len == 0 {
        return 0;
    }
    let last = len - 1;
    if manga_mode && last > 0 {
        let is_pair_start = if manga_shift {
            last % 2 == 0
        } else {
            last % 2 != 0
        };
        if is_pair_start {
            last
        } else {
            last - 1
        }
    } else {
        last
    }
}

/// Whether the two-page view shows `current` together with the page after it: manga mode,
/// `current` is not the lone cover (page 0 when unshifted), a following page exists, and both
/// pages are portrait (their width at most their height).
pub open spec fn pairs_shown(
    current: nat,
    len: nat,
    manga: bool,
    shift: bool,
    portrait: Seq<bool>,
) -> bool {
    manga && (shift || current > 0) && current + 1 < len && portrait[current as int]
        && portrait[current + 1 as int]
}

/// The pages drawn, left to right: a pair reads right to left in right-to-left mode.
pub open spec fn shown_pages_of(
    current: usize,
    len: usize,
    manga: bool,
    shift: bool,
    portrait: Seq<bool>,
    rtl: bool,
) -> Seq<usize> {
    if pairs_shown(current as nat, len as nat, manga, shift, portrait) {
        if rtl {
            seq![(current + 1) as usize, current]
        } else {
            seq![current, (current + 1) as usize]
        }
    } else if current < len {
        seq![current]
    } else {
        Seq::empty()
    }
}

/// The pages the view draws, left to right, where `portrait[i]` tells whether page `i` is
/// ready and no wider than it is tall.
pub fn shown_pages(
    current: usize,
    len: usize,
    manga: bool,
    shift: bool,
    portrait: &Vec<bool>,
    rtl: bool,
) -> (r: Vec<usize>)
    requires
        portrait@.len() == len,
    ensures
        r@ == shown_pages_of(current, len, manga, shift, portrait@, rtl),
{
    let mut r: Vec<usize> = Vec::new();
    if manga && (shift || current > 0) && current < len && len - current > 1 && portrait[current]
        && portrait[current + 1] {
        if rtl {
            r.push(current + 1);
            r.push(current);
        } else {
            r.push(current);
            r.push(current + 1);
        }
    } else if current < len {
        r.push(current);
    }
    assert(r@ =~= shown_pages_of(current, len, manga, shift, portrait@, rtl));
    r
}

/// The backward step in full: two pages only in manga mode, from page 2 on, and when
/// neither of the two pages before the current one is a spread; one page otherwise. In
/// particular a spread just before the current page is never stepped over.
pub proof fn law_prev_step_spreads(manga: bool, shift: bool, current: nat, before: bool, before2: bool)
    ensures
        prev_step_of(manga, shift, current, before, before2) == (if manga && current >= 2 && !before
            && !before2 {
            2nat
        } else {
            1nat
        }),
        before ==> prev_step_of(manga, shift, current, before, before2) == 1,
        before2 ==> prev_step_of(manga, shift, current, before, before2) == 1,
        !manga ==> prev_step_of(manga, shift, current, before, before2) == 1,
{
}

/// The forward step in full: two pages only in manga mode, when a page follows, the
/// current page is not the lone cover (page 0 when unshifted), and neither the current
/// page nor the next is a spread; one page otherwise.
pub proof fn law_next_step_spreads(manga: bool, shift: bool, len: nat, current: nat, here: bool, after: bool)
    ensures
        next_step_of(manga, shift, len, current, here, after) == (if manga && current + 1 < len && (shift
            || current > 0) && !here && !after {
            2nat
        } else {
            1nat
        }),
        here ==> next_step_of(manga, shift, len, current, here, after) == 1,
        after ==> next_step_of(manga, shift, len, current, here, after) == 1,
        !manga ==> next_step_of(manga, shift, len, current, here, after) == 1,
{
}

/// The pages shown always hold the current page (when there is one); a second page is
/// shown only in manga mode, only the page right after it, only when both are portrait,
/// and never beside the lone cover (page 0 when unshifted); right to left puts it first.
pub proof fn law_shown_pages(
    current: usize,
    len: usize,
    manga: bool,
    shift: bool,
    portrait: Seq<bool>,
    rtl: bool,
)
    requires
        portrait.len() == len,
    ensures
        current < len ==> shown_pages_of(current, len, manga, shift, portrait, rtl).contains(current),
        current >= len ==> shown_pages_of(current, len, manga, shift, portrait, rtl).len() == 0,
        shown_pages_of(current, len, manga, shift, portrait, rtl).len() <= 2,
        shown_pages_of(current, len, manga, shift, portrait, rtl).len() == 2 ==> {
            &&& manga
            &&& current + 1 < len
            &&& portrait[current as int]
            &&& portrait[current + 1]
            &&& (shift || current != 0)
            &&& shown_pages_of(current, len, manga, shift, portrait, rtl)[if rtl { 0int } else { 1int }]
                == current + 1
        },
        manga && (shift || current != 0) && current + 1 < len && portrait[current as int]
            && portrait[current + 1] ==> shown_pages_of(current, len, manga, shift, portrait, rtl).len() == 2,
{
    let r = shown_pages_of(current, len, manga, shift, portrait, rtl);
    if current < len {
        if r.len() == 2 {
            if rtl {
                assert(r[1] == current);
            } else {
                assert(r[0] == current);
            }
        } else {
            assert(r[0] == current);
        }
    }
}

/// With no spreads, stepping forward from the start of a pair and then back returns to it:
/// the backward step from where "next" lands equals the forward step taken.
pub proof fn law_next_then_prev(manga: bool, shift: bool, len: nat, t: nat)
    requires
        t + 1 < len,
        manga ==> pair_start(t, shift) || (t == 0 && !shift),
    ensures
        prev_step_of(manga, shift, t + next_step_of(manga, shift, len, t, false, false), false, false)
            == next_step_of(manga, shift, len, t, false, false),
{
}

/// Both steps are one or two pages, and outside manga mode always one.
pub proof fn law_steps_small(
    manga: bool,
    shift: bool,
    len: nat,
    t: nat,
    a: bool,
    b: bool,
)
    ensures
        1 <= next_step_of(manga, shift, len, t, a, b) <= 2,
        1 <= prev_step_of(manga, shift, t, a, b) <= 2,
        !manga ==> next_step_of(manga, shift, len, t, a, b) == 1,
        !manga ==> prev_step_of(manga, shift, t, a, b) == 1,
        prev_step_of(manga, shift, t, a, b) <= t || t == 0,
{
}

/// When a page turn finds no page left in the folder, whether it goes on into the
/// neighbouring folder: always, unless the limiter is on and told to stop at that end.
pub fn leaves_folder_at_edge(config: &Config, forward: bool) -> (b: bool)
    ensures
        b == !(config.limiter_mode && (if forward {
            config.limiter_stop_at_end
        } else {
            config.limiter_stop_at_start
        })),
{
    let stop = if forward {
        config.limiter_stop_at_end
    } else {
        config.limiter_stop_at_start
    };
    !(config.limiter_mode && stop)
}

} // verus!
