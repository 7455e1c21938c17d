use hinjaku::config::{Config, SortMode, SortOrder};
use hinjaku::dialogs::{jump_index, sort_dialog_keys, SortKeys};

fn none() -> SortKeys {
    SortKeys { up: false, down: false, left: false, right: false, enter: false, space: false, escape: false }
}

#[test]
fn arrows_move_focus_round() {
    let mut cfg = Config::default();
    let (mut focus, mut show) = (0usize, true);
    assert!(!sort_dialog_keys(&mut focus, &mut show, &mut cfg, SortKeys { up: true, ..none() }));
    assert_eq!(focus, 2);
    sort_dialog_keys(&mut focus, &mut show, &mut cfg, SortKeys { down: true, ..none() });
    assert_eq!(focus, 0);
    assert!(show);
}

#[test]
fn side_arrows_change_the_focused_setting() {
    let mut cfg = Config::default();
    cfg.sort_mode = SortMode::Name;
    cfg.sort_order = SortOrder::Ascending;
    let natural = cfg.sort_natural;
    let (mut focus, mut show) = (0usize, true);
    assert!(sort_dialog_keys(&mut focus, &mut show, &mut cfg, SortKeys { right: true, ..none() }));
    assert_eq!(cfg.sort_mode, SortMode::Mtime);
    sort_dialog_keys(&mut focus, &mut show, &mut cfg, SortKeys { left: true, ..none() });
    sort_dialog_keys(&mut focus, &mut show, &mut cfg, SortKeys { left: true, ..none() });
    assert_eq!(cfg.sort_mode, SortMode::Size);
    sort_dialog_keys(&mut focus, &mut show, &mut cfg, SortKeys { down: true, right: true, ..none() });
    assert_eq!(focus, 1);
    assert_eq!(cfg.sort_order, SortOrder::Descending);
    sort_dialog_keys(&mut focus, &mut show, &mut cfg, SortKeys { down: true, space: true, ..none() });
    assert_eq!(focus, 2);
    assert_eq!(cfg.sort_natural, !natural);
}

#[test]
fn enter_or_escape_closes() {
    let mut cfg = Config::default();
    let (mut focus, mut show) = (1usize, true);
    sort_dialog_keys(&mut focus, &mut show, &mut cfg, SortKeys { enter: true, ..none() });
    assert!(!show);
    let mut show = true;
    sort_dialog_keys(&mut focus, &mut show, &mut cfg, SortKeys { escape: true, ..none() });
    assert!(!show);
}

#[test]
fn jump_reads_a_page_number() {
    assert_eq!(jump_index(" 5 ", 20), Some(4));
    assert_eq!(jump_index("1", 20), Some(0));
    assert_eq!(jump_index("0", 20), Some(0));
    assert_eq!(jump_index("99", 20), Some(19));
    assert_eq!(jump_index("+3", 20), Some(2));
    assert_eq!(jump_index("x", 20), None);
    assert_eq!(jump_index("", 20), None);
    assert_eq!(jump_index("3", 0), Some(0));
}
