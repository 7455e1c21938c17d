use vstd::prelude::*;
use crate::config::{Config, SortMode, SortOrder};
use crate::text::{str_chars, trim, trim_chars, parse_unsigned, parse_unsigned_chars};

verus! {

/// The keys pressed while the sort settings dialog is open.
#[derive(Clone, Copy, PartialEq, Eq, Structural, Debug)]
pub struct SortKeys {
    pub up: bool,
    pub down: bool,
    pub left: bool,
    pub right: bool,
    pub enter: bool,
    pub space: bool,
    pub escape: bool,
}

/// The sort key after `m`, going round.
pub open spec fn mode_after(m: SortMode) -> SortMode {
    match m {
        SortMode::Name => SortMode::Mtime,
        SortMode::Mtime => SortMode::Size,
        SortMode::Size => SortMode::Name,
    }
}

/// The sort key before `m`, going round.
pub open spec fn mode_before(m: SortMode) -> SortMode {
    match m {
        SortMode::Name => SortMode::Size,
        SortMode::Mtime => SortMode::Name,
        SortMode::Size => SortMode::Mtime,
    }
}

pub open spec fn order_flipped(o: SortOrder) -> SortOrder {
    match o {
        SortOrder::Ascending => SortOrder::Descending,
        SortOrder::Descending => SortOrder::Ascending,
    }
}

/// In the sort dialog, left undoes right on the key row, three steps come round to
/// the same key, and turning the direction twice gives it back.
pub proof fn law_sort_dialog_steps(m: SortMode, o: SortOrder)
    ensures
        mode_before(mode_after(m)) == m,
        mode_after(mode_before(m)) == m,
        mode_after(mode_after(mode_after(m))) == m,
        order_flipped(order_flipped(o)) == o,
{
}

fn next_mode(m: SortMode) -> (r: SortMode)
    ensures
        r == mode_after(m),
{
    match m {
        SortMode::Name => SortMode::Mtime,
        SortMode::Mtime => SortMode::Size,
        SortMode::Size => SortMode::Name,
    }
}

fn prev_mode(m: SortMode) -> (r: SortMode)
    ensures
        r == mode_before(m),
{
    match m {
        SortMode::Name => SortMode::Size,
        SortMode::Mtime => SortMode::Name,
        SortMode::Size => SortMode::Mtime,
    }
}

fn flip_order(o: SortOrder) -> (r: SortOrder)
    ensures
        r == order_flipped(o),
{
    match o {
        SortOrder::Ascending => SortOrder::Descending,
        SortOrder::Descending => SortOrder::Ascending,
    }
}

/// The focused row after the arrow keys: up moves to the row above and down to
/// the row below, round the three rows (key, direction, natural order).
pub open spec fn focus_after(focus: nat, keys: SortKeys) -> nat {
    let f1 = if keys.up { (focus + 2) % 3 } else { focus };
    if keys.down { (f1 + 1) % 3 } else { f1 }
}

/// The sort key after the keys: space on the key row and the right arrow move to
/// the next key, the left arrow to the one before.
pub open spec fn mode_after_keys(m: SortMode, focus: nat, keys: SortKeys) -> SortMode {
    let m1 = if keys.space && focus == 0 { mode_after(m) } else { m };
    let m2 = if focus == 0 && keys.right { mode_after(m1) } else { m1 };
    if focus == 0 && keys.left { mode_before(m2) } else { m2 }
}

/// The direction after the keys: space or a side arrow on the direction row turns it.
pub open spec fn order_after_keys(o: SortOrder, focus: nat, keys: SortKeys) -> SortOrder {
    let o1 = if keys.space && focus == 1 { order_flipped(o) } else { o };
    if focus == 1 && (keys.left || keys.right) { order_flipped(o1) } else { o1 }
}

/// Natural order after the keys: space or a side arrow on its row switches it.
pub open spec fn natural_after_keys(n: bool, focus: nat, keys: SortKeys) -> bool {
    let n1 = if keys.space && focus == 2 { !n } else { n };
    if focus == 2 && (keys.left || keys.right) { !n1 } else { n1 }
}

/// Whether the keys change a setting.
pub open spec fn keys_change(focus: nat, keys: SortKeys) -> bool {
    (keys.space && focus < 3) || (focus == 0 && (keys.left || keys.right)) || (focus == 1 && (
    keys.left || keys.right)) || (focus == 2 && (keys.left || keys.right))
}

/// One frame of keyboard handling in the sort settings dialog: escape and enter
/// close it, the arrows move between and change the settings, space changes the
/// focused one. Returns whether a setting changed; nothing but the three sort
/// settings of `config` is touched.
pub fn sort_dialog_keys(focus: &mut usize, show: &mut bool, config: &mut Config, keys: SortKeys) -> (changed: bool)
    ensures
        *final(focus) == focus_after(*old(focus) as nat, keys),
        *final(show) == (*old(show) && !keys.escape && !keys.enter),
        final(config).sort_mode == mode_after_keys(
            old(config).sort_mode,
            focus_after(*old(focus) as nat, keys),
            keys,
        ),
        final(config).sort_order == order_after_keys(
            old(config).sort_order,
            focus_after(*old(focus) as nat, keys),
            keys,
        ),
        final(config).sort_natural == natural_after_keys(
            old(config).sort_natural,
            focus_after(*old(focus) as nat, keys),
            keys,
        ),
        changed == keys_change(focus_after(*old(focus) as nat, keys), keys),
        *final(config) == (Config {
            sort_mode: final(config).sort_mode,
            sort_order: final(config).sort_order,
            sort_natural: final(config).sort_natural,
            ..*old(config)
        }),
{
    let f = step_focus(*focus, keys);
    let mode = step_mode(config.sort_mode, f, keys);
    let order = step_order(config.sort_order, f, keys);
    let natural = step_natural(config.sort_natural, f, keys);
    *focus = f;
    if keys.escape || keys.enter {
        *show = false;
    }
    config.sort_mode = mode;
    config.sort_order = order;
    config.sort_natural = natural;
    (keys.space && f < 3) || ((f == 0 || f == 1 || f == 2) && (keys.left || keys.right))
}

fn step_focus(focus: usize, keys: SortKeys) -> (f: usize)
    ensures
        f == focus_after(focus as nat, keys),
        f < 3 || f == focus,
{
    let mut f = focus;
    if keys.up {
        f = (f % 3 + 2) % 3;
    }
    if keys.down {
        f = (f % 3 + 1) % 3;
    }
    f
}

fn step_mode(m: SortMode, f: usize, keys: SortKeys) -> (r: SortMode)
    ensures
        r == mode_after_keys(m, f as nat, keys),
{
    let mut r = m;
    if keys.space && f == 0 {
        r = next_mode(r);
    }
    if f == 0 && keys.right {
        r = next_mode(r);
    }
    if f == 0 && keys.left {
        r = prev_mode(r);
    }
    r
}

fn step_order(o: SortOrder, f: usize, keys: SortKeys) -> (r: SortOrder)
    ensures
        r == order_after_keys(o, f as nat, keys),
{
    let mut r = o;
    if keys.space && f == 1 {
        r = flip_order(r);
    }
    if f == 1 && (keys.left || keys.right) {
        r = flip_order(r);
    }
    r
}

fn step_natural(n: bool, f: usize, keys: SortKeys) -> (r: bool)
    ensures
        r == natural_after_keys(n, f as nat, keys),
{
    let mut r = n;
    if keys.space && f == 2 {
        r = !r;
    }
    if f == 2 && (keys.left || keys.right) {
        r = !r;
    }
    r
}

/// The page a jump goes to for the typed text `input` among `total` pages: the
/// text, trimmed, read as a page number counted from one and held to the last
/// page. Text that is not a number jumps nowhere.
pub open spec fn jump_of(input: Seq<char>, total: nat) -> Option<nat> {
    match parse_unsigned(trim(input), usize::MAX as nat) {
        Some(n) => {
            let idx: nat = if n >= 1 { (n - 1) as nat } else { 0 };
            let last: nat = if total >= 1 { (total - 1) as nat } else { 0 };
            Some(if idx < last { idx } else { last })
        },
        None => None,
    }
}

/// Where the page jump dialog goes for the typed text (see `jump_of`).
pub fn jump_index(input: &str, total: usize) -> (r: Option<usize>)
    ensures
        match r {
            Some(i) => jump_of(input@, total as nat) == Some(i as nat),
            None => jump_of(input@, total as nat) is None,
        },
{
    let v = str_chars(input);
    let t = trim_chars(&v);
    match parse_unsigned_chars(&t, usize::MAX as u64) {
        Some(n) => {
            let idx: usize = if n >= 1 { (n - 1) as usize } else { 0 };
            let last: usize = if total >= 1 { total - 1 } else { 0 };
            Some(if idx < last { idx } else { last })
        },
        None => None,
    }
}

} // verus!
