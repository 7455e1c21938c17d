use hinjaku::paging::leaves_folder_at_edge;
use hinjaku::paging::{last_page_index, next_step, prev_step, shown_pages};

#[test]
fn single_page_mode_steps_by_one() {
    assert_eq!(next_step(false, false, 10, 3, |_| false), 1);
    assert_eq!(prev_step(false, false, 3, |_| false), 1);
}

#[test]
fn manga_cover_is_shown_alone() {
    // unshifted: page 0 is the cover, pairs start at 1
    assert_eq!(next_step(true, false, 10, 0, |_| false), 1);
    assert_eq!(next_step(true, false, 10, 1, |_| false), 2);
    // shifted: pairs start at 0
    assert_eq!(next_step(true, true, 10, 0, |_| false), 2);
}

#[test]
fn manga_spreads_step_by_one() {
    let spreads = [false, false, false, true, false, false];
    assert_eq!(next_step(true, false, 6, 3, |i| spreads[i]), 1);
    assert_eq!(next_step(true, false, 6, 2, |i| spreads[i]), 1);
    assert_eq!(next_step(true, false, 6, 1, |i| spreads[i]), 2);
    assert_eq!(prev_step(true, false, 5, |i| spreads[i]), 1);
    assert_eq!(prev_step(true, false, 3, |i| spreads[i]), 2);
}

#[test]
fn manga_last_page_steps_by_one() {
    assert_eq!(next_step(true, true, 10, 9, |_| false), 1);
}

#[test]
fn manga_prev_at_start_steps_by_one() {
    assert_eq!(prev_step(true, false, 1, |_| false), 1);
    assert_eq!(prev_step(true, true, 1, |_| false), 1);
    assert_eq!(prev_step(true, true, 2, |_| false), 2);
}

#[test]
fn next_then_prev_returns_to_pair_start() {
    for t in (1..8usize).step_by(2) {
        let s = next_step(true, false, 10, t, |_| false);
        assert_eq!(prev_step(true, false, t + s, |_| false), s);
    }
    for t in (0..8usize).step_by(2) {
        let s = next_step(true, true, 10, t, |_| false);
        assert_eq!(prev_step(true, true, t + s, |_| false), s);
    }
}

#[test]
fn last_page_keeps_final_pair_together() {
    assert_eq!(last_page_index(0, true, false), 0);
    assert_eq!(last_page_index(1, true, false), 0);
    assert_eq!(last_page_index(10, false, false), 9);
    assert_eq!(last_page_index(10, true, false), 9);
    assert_eq!(last_page_index(10, true, true), 8);
    assert_eq!(last_page_index(11, true, false), 9);
    assert_eq!(last_page_index(11, true, true), 10);
}

#[test]
fn limiter_stops_at_the_ends() {
    let mut cfg = hinjaku::config::Config::default();
    cfg.limiter_mode = false;
    cfg.limiter_stop_at_end = true;
    assert!(leaves_folder_at_edge(&cfg, true));
    cfg.limiter_mode = true;
    assert!(!leaves_folder_at_edge(&cfg, true));
    cfg.limiter_stop_at_start = false;
    assert!(leaves_folder_at_edge(&cfg, false));
}

#[test]
fn two_page_view_pairs_portrait_pages_only() {
    let all = vec![true, true, true, true];
    assert_eq!(shown_pages(0, 4, true, false, &all, false), vec![0]);
    assert_eq!(shown_pages(0, 4, true, true, &all, false), vec![0, 1]);
    assert_eq!(shown_pages(1, 4, true, false, &all, false), vec![1, 2]);
    assert_eq!(shown_pages(1, 4, true, false, &all, true), vec![2, 1]);
    assert_eq!(shown_pages(3, 4, true, false, &all, false), vec![3]);
    assert_eq!(shown_pages(1, 4, false, false, &all, false), vec![1]);
    let wide = vec![true, true, false, true];
    assert_eq!(shown_pages(1, 4, true, false, &wide, false), vec![1]);
    assert_eq!(shown_pages(2, 4, true, false, &wide, false), vec![2]);
    assert_eq!(shown_pages(4, 4, true, false, &all, false), Vec::<usize>::new());
}
