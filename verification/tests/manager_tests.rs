use hinjaku::config::FilterMode;
use hinjaku::manager::{start_index, Manager};
use hinjaku::nav_tree::{ArchiveReader, ImageEntry};
use hinjaku::rotation::Rotation;

struct NoReader;

impl ArchiveReader for NoReader {
    fn get_roots(&self) -> Vec<String> {
        Vec::new()
    }
    fn list_images(&self, _path: &str) -> Result<Vec<ImageEntry>, String> {
        Err("none".to_string())
    }
    fn list_nav_targets(&self, _path: &str) -> Result<Vec<String>, String> {
        Err("none".to_string())
    }
}

fn listing(n: usize) -> Vec<ImageEntry> {
    (0..n).map(|i| ImageEntry { name: format!("{:03}.jpg", i), mtime: 0, size: 0, archive_index: i }).collect()
}

fn opened(n: usize) -> Manager<u8, NoReader> {
    let mut m = Manager::new(NoReader);
    m.begin_listing("/books/x.zip".to_string(), None, false);
    m.take_listing("/books/x.zip".to_string(), listing(n));
    m.choose_start(false, false);
    m
}

#[test]
fn listing_and_start_page() {
    let mut m = Manager::<u8, NoReader>::new(NoReader);
    m.begin_listing("/d".to_string(), Some("005.jpg".to_string()), false);
    assert!(m.is_listing);
    assert_eq!(m.entries, vec!["005.jpg"]);
    m.take_listing("/d".to_string(), listing(8));
    assert!(!m.is_listing);
    m.choose_start(false, false);
    assert_eq!(m.current, 5);
    assert_eq!(m.target_index, 5);
    assert!(m.pending_focus.is_none());
}

#[test]
fn start_index_rules() {
    let e: Vec<String> = vec!["a1".into(), "b22".into(), "c22".into()];
    assert_eq!(start_index(&e, Some("22"), true, false, false), 1);
    assert_eq!(start_index(&e, Some("zz"), true, false, false), 0);
    assert_eq!(start_index(&e, None, true, false, false), 2);
    assert_eq!(start_index(&e, None, true, true, false), 1);
    assert_eq!(start_index(&e, None, false, true, false), 0);
}

#[test]
fn paging_through_manager() {
    let mut m = opened(5);
    assert!(m.go_next(false, false, |_| false));
    assert_eq!(m.target_index, 1);
    assert!(m.go_next(true, false, |_| false));
    assert_eq!(m.target_index, 3);
    assert!(!m.go_next(true, false, |_| false) || m.target_index == 4);
    m.target_index = 4;
    assert!(!m.go_next(false, false, |_| false));
    assert!(m.go_prev(true, false, |_| false));
    assert_eq!(m.target_index, 2);
    m.target_index = 0;
    assert!(!m.go_prev(false, false, |_| false));
}

#[test]
fn prefetch_requests_around_target() {
    let mut m = opened(20);
    m.target_index = 10;
    let reqs = m.schedule_prefetch(FilterMode::Bilinear, false, 4096, true);
    let idx: Vec<usize> = reqs.iter().map(|r| r.index).collect();
    assert_eq!(idx, vec![10, 8, 9, 11, 12, 13]);
    assert_eq!(reqs[0].key, "10:010.jpg");
    assert_eq!(reqs[0].entry_index, Some(10));
    assert_eq!(reqs[0].archive_path, "/books/x.zip");
    assert_eq!(reqs[0].rotation, Rotation::R0);
    // nothing is asked twice while in flight
    let again = m.schedule_prefetch(FilterMode::Bilinear, false, 4096, true);
    assert!(again.is_empty());
    // moving on drops keys outside the range
    m.target_index = 19;
    let more = m.schedule_prefetch(FilterMode::Nearest, true, 100, false);
    let idx: Vec<usize> = more.iter().map(|r| r.index).collect();
    assert_eq!(idx, vec![19, 15, 16, 17, 18]);
    assert_eq!(more[0].entry_index, None);
    assert!(!m.pending.contains("8:008.jpg"));
    assert!(!m.pending.contains("13:013.jpg"));
    assert!(m.pending.contains("18:018.jpg"));
}

#[test]
fn results_and_cache() {
    let mut m = opened(3);
    let reqs = m.schedule_prefetch(FilterMode::Bilinear, false, 4096, false);
    assert_eq!(reqs.len(), 3);
    assert!(m.accept_result("0:000.jpg", m.generation));
    m.store("0:000.jpg".to_string(), 7);
    assert_eq!(m.cache_len(), 1);
    assert_eq!(m.cache.get("0:000.jpg"), Some(&7));
    let old = m.generation;
    m.clear_cache();
    assert_eq!(m.generation, old + 1);
    assert_eq!(m.cache_len(), 0);
    assert!(!m.accept_result("1:001.jpg", old));
}

#[test]
fn rotating_the_shown_pages() {
    let mut m = opened(3);
    m.rotate_shown(true, true);
    assert_eq!(m.rotations.get("000.jpg"), Some(&Rotation::R90));
    assert_eq!(m.rotations.get("001.jpg"), Some(&Rotation::R90));
    m.rotate_shown(false, false);
    assert_eq!(m.rotations.get("000.jpg"), Some(&Rotation::R0));
    let reqs = m.schedule_prefetch(FilterMode::Bilinear, false, 4096, false);
    assert_eq!(reqs[1].rotation, Rotation::R90);
}

#[test]
fn sorting_keeps_the_shown_page() {
    let mut m = Manager::<u8, NoReader>::new(NoReader);
    m.begin_listing("/d".to_string(), None, false);
    let meta = vec![
        ImageEntry { name: "p10.jpg".to_string(), mtime: 1, size: 0, archive_index: 0 },
        ImageEntry { name: "p2.jpg".to_string(), mtime: 2, size: 0, archive_index: 1 },
        ImageEntry { name: "p1.jpg".to_string(), mtime: 3, size: 0, archive_index: 2 },
    ];
    m.take_listing("/d".to_string(), meta);
    m.current = 1;
    m.target_index = 1;
    let mut cfg = hinjaku::config::Config::default();
    cfg.sort_mode = hinjaku::config::SortMode::Name;
    cfg.sort_order = hinjaku::config::SortOrder::Ascending;
    cfg.sort_natural = true;
    m.apply_sorting(&cfg);
    assert_eq!(m.entries, vec!["p1.jpg", "p2.jpg", "p10.jpg"]);
    assert_eq!(m.current, 1);
    assert_eq!(m.entries_meta[2].archive_index, 0);
    cfg.sort_mode = hinjaku::config::SortMode::Mtime;
    cfg.sort_order = hinjaku::config::SortOrder::Descending;
    m.apply_sorting(&cfg);
    assert_eq!(m.entries, vec!["p1.jpg", "p2.jpg", "p10.jpg"]);
    m.current = 0;
    cfg.sort_order = hinjaku::config::SortOrder::Ascending;
    m.apply_sorting(&cfg);
    assert_eq!(m.entries, vec!["p10.jpg", "p2.jpg", "p1.jpg"]);
    assert_eq!(m.current, 2);
    assert_eq!(m.target_index, 2);
}

#[test]
fn opening_a_folder_and_moving_between_folders() {
    let mut m = Manager::<u8, NoReader>::new(NoReader);
    let base = m.open_path("\\\\?\\C:\\books\\vol1", false);
    assert_eq!(base, "C:\\books\\vol1");
    assert!(m.is_listing);
    assert_eq!(m.archive_path.as_deref(), Some("C:\\books\\vol1"));
    let base = m.move_to_dir("/books/vol2", Some("/books/vol1"), true);
    assert_eq!(base, "/books/vol2");
    assert_eq!(m.pending_focus.as_deref(), Some("vol1"));
    assert!(m.pending_go_last);
}

#[test]
fn opening_an_image_file_opens_its_folder() {
    let mut m = Manager::<u8, NoReader>::new(NoReader);
    let base = m.open_path("/books/vol1/p03.png", true);
    assert_eq!(base, "/books/vol1");
    assert_eq!(m.entries, vec!["p03.png"]);
    assert_eq!(m.pending_focus.as_deref(), Some("p03.png"));
    let base = m.open_path("/books/notes.txt", true);
    assert_eq!(base, "/books/notes.txt");
    assert!(m.entries.is_empty());
}

#[test]
fn display_waits_for_both_pages_in_manga_mode() {
    let mut m = opened(6);
    m.target_index = 2;
    assert!(!m.sync_display_to_target(true, false, true, false));
    m.store(hinjaku::cache::make_cache_key(2, "002.jpg"), 1u8);
    assert!(!m.sync_display_to_target(true, false, true, false));
    assert_eq!(m.current, 0);
    m.store(hinjaku::cache::make_cache_key(3, "003.jpg"), 1u8);
    assert!(m.sync_display_to_target(true, false, true, false));
    assert_eq!(m.current, 2);
}

#[test]
fn a_spread_or_the_cover_shows_alone() {
    let mut m = opened(6);
    m.target_index = 2;
    m.store(hinjaku::cache::make_cache_key(2, "002.jpg"), 1u8);
    assert!(m.sync_display_to_target(true, false, false, false));
    assert_eq!(m.current, 2);
    let mut m = opened(6);
    m.target_index = 0;
    m.current = 3;
    m.store(hinjaku::cache::make_cache_key(0, "000.jpg"), 1u8);
    assert!(m.sync_display_to_target(true, false, true, false));
    assert_eq!(m.current, 0);
}

#[test]
fn failures_that_concern_the_shown_pages() {
    assert!(hinjaku::manager::failure_concerns_target(4, 4, false));
    assert!(!hinjaku::manager::failure_concerns_target(5, 4, false));
    assert!(hinjaku::manager::failure_concerns_target(5, 4, true));
    assert!(!hinjaku::manager::failure_concerns_target(3, 4, true));
}

struct ShelfReader;

impl ArchiveReader for ShelfReader {
    fn get_roots(&self) -> Vec<String> {
        vec!["/".to_string()]
    }
    fn list_images(&self, _path: &str) -> Result<Vec<ImageEntry>, String> {
        Ok(Vec::new())
    }
    fn list_nav_targets(&self, path: &str) -> Result<Vec<String>, String> {
        if path == "/books" {
            Ok(vec!["/books/a".to_string(), "/books/b".to_string(), "/books/c".to_string()])
        } else {
            Err("none".to_string())
        }
    }
}

#[test]
fn moving_to_the_neighbouring_folder() {
    let mut m = Manager::<u8, ShelfReader>::new(ShelfReader);
    assert_eq!(m.go_relative_dir(true), None);
    m.open_from_end = true;
    m.move_to_dir("/books/b", None, false);
    assert_eq!(m.go_relative_dir(true).as_deref(), Some("/books/c"));
    assert_eq!(m.pending_focus.as_deref(), Some("b"));
    assert!(!m.pending_go_last);
    assert_eq!(m.go_relative_dir(false).as_deref(), Some("/books/b"));
    assert_eq!(m.pending_focus.as_deref(), Some("c"));
    assert!(m.pending_go_last);
    assert_eq!(m.go_relative_dir(false).as_deref(), Some("/books/a"));
    assert_eq!(m.go_relative_dir(false), None);
    assert_eq!(m.archive_path.as_deref(), Some("/books/a"));
}

#[test]
fn a_page_turn_sends_for_the_pages_around_it() {
    let mut m = opened(20);
    m.target_index = 9;
    let (moved, reqs) = m.next_page(false, false, |_| false, FilterMode::Bilinear, 4096, true);
    assert!(moved);
    assert_eq!(m.target_index, 10);
    let idx: Vec<usize> = reqs.iter().map(|r| r.index).collect();
    assert_eq!(idx, vec![10, 8, 9, 11, 12, 13]);
    let (moved, reqs) = m.prev_page(false, false, |_| false, FilterMode::Bilinear, 4096, true);
    assert!(moved);
    assert_eq!(m.target_index, 9);
    let idx: Vec<usize> = reqs.iter().map(|r| r.index).collect();
    assert_eq!(idx, vec![7]);
    m.target_index = 19;
    let (moved, reqs) = m.next_page(false, false, |_| false, FilterMode::Bilinear, 4096, true);
    assert!(!moved);
    assert!(reqs.is_empty());
    assert_eq!(m.target_index, 19);
    m.target_index = 0;
    let (moved, reqs) = m.prev_page(false, false, |_| false, FilterMode::Bilinear, 4096, true);
    assert!(!moved && reqs.is_empty());
}
