use hinjaku::config::{SortMode, SortOrder};
use hinjaku::nav_tree::ImageEntry;
use hinjaku::sorting::{sort_entries, sort_names};

fn e(name: &str, mtime: u64, size: u64) -> ImageEntry {
    ImageEntry { name: name.to_string(), mtime, size, archive_index: 0 }
}

fn names(v: &[ImageEntry]) -> Vec<&str> {
    v.iter().map(|x| x.name.as_str()).collect()
}

#[test]
fn sorts_by_natural_name() {
    let v = vec![e("p10.jpg", 0, 0), e("p2.jpg", 0, 0), e("p1.jpg", 0, 0)];
    let out = sort_entries(v, SortMode::Name, SortOrder::Ascending, true);
    assert_eq!(names(&out), vec!["p1.jpg", "p2.jpg", "p10.jpg"]);
}

#[test]
fn sorts_by_plain_name() {
    let v = vec![e("p10.jpg", 0, 0), e("p2.jpg", 0, 0), e("p1.jpg", 0, 0)];
    let out = sort_entries(v, SortMode::Name, SortOrder::Ascending, false);
    assert_eq!(names(&out), vec!["p1.jpg", "p10.jpg", "p2.jpg"]);
}

#[test]
fn descending_by_size() {
    let v = vec![e("a", 0, 5), e("b", 0, 9), e("c", 0, 1)];
    let out = sort_entries(v, SortMode::Size, SortOrder::Descending, true);
    assert_eq!(names(&out), vec!["b", "a", "c"]);
}

#[test]
fn equal_keys_keep_their_order() {
    let v = vec![e("x", 3, 0), e("y", 1, 0), e("z", 3, 0), e("w", 1, 0)];
    let out = sort_entries(v.clone(), SortMode::Mtime, SortOrder::Ascending, true);
    assert_eq!(names(&out), vec!["y", "w", "x", "z"]);
    let out = sort_entries(v, SortMode::Mtime, SortOrder::Descending, true);
    assert_eq!(names(&out), vec!["x", "z", "y", "w"]);
}

#[test]
fn names_in_natural_order() {
    let v = vec!["vol10".to_string(), "vol9".to_string(), "Vol1".to_string()];
    assert_eq!(sort_names(v), vec!["Vol1", "vol9", "vol10"]);
}

#[test]
fn sorting_again_changes_nothing() {
    let v = vec![e("b10", 2, 1), e("B2", 1, 1), e("a", 2, 3), e("b02", 9, 1)];
    for (mode, dir, natural) in [
        (SortMode::Name, SortOrder::Ascending, true),
        (SortMode::Name, SortOrder::Descending, false),
        (SortMode::Mtime, SortOrder::Ascending, true),
        (SortMode::Size, SortOrder::Descending, true),
    ] {
        let once = sort_entries(v.clone(), mode, dir, natural);
        let twice = sort_entries(once.clone(), mode, dir, natural);
        assert_eq!(names(&once), names(&twice));
    }
}
