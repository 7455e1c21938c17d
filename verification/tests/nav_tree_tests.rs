use hinjaku::nav_tree::{clean_path, count_of_listing, neighbour_in, targets_of_listing, ArchiveReader, ImageEntry, NavTree};
use std::cell::Cell;
use std::collections::HashMap;

struct FakeReader {
    dirs: HashMap<String, Vec<String>>,
    calls: Cell<usize>,
}

impl ArchiveReader for FakeReader {
    fn get_roots(&self) -> Vec<String> {
        vec!["/".to_string()]
    }
    fn list_images(&self, path: &str) -> Result<Vec<ImageEntry>, String> {
        self.calls.set(self.calls.get() + 1);
        match self.dirs.get(path) {
            Some(v) => Ok(v
                .iter()
                .enumerate()
                .map(|(i, n)| ImageEntry { name: n.clone(), mtime: 0, size: 0, archive_index: i })
                .collect()),
            None => Err("missing".to_string()),
        }
    }
    fn list_nav_targets(&self, path: &str) -> Result<Vec<String>, String> {
        self.calls.set(self.calls.get() + 1);
        self.dirs.get(path).cloned().ok_or_else(|| "missing".to_string())
    }
}

fn reader() -> FakeReader {
    let mut dirs = HashMap::new();
    dirs.insert("/".to_string(), vec!["/a".to_string(), "/b".to_string(), "/c".to_string()]);
    dirs.insert("/a".to_string(), vec!["/a/x".to_string(), "/a/y".to_string()]);
    FakeReader { dirs, calls: Cell::new(0) }
}

#[test]
fn clean_path_drops_verbatim_prefix() {
    assert_eq!(clean_path("\\\\?\\C:\\dir"), "C:\\dir");
    assert_eq!(clean_path("\\\\?\\UNC\\srv\\share"), "\\\\srv\\share");
    assert_eq!(clean_path("/plain/path"), "/plain/path");
}

#[test]
fn children_are_cached() {
    let mut t = NavTree::new(reader());
    assert_eq!(t.get_children("/a"), vec!["/a/x", "/a/y"]);
    assert_eq!(t.get_children("/a"), vec!["/a/x", "/a/y"]);
    assert_eq!(t.archive_reader.calls.get(), 1);
    assert_eq!(t.get_children("/missing"), Vec::<String>::new());
    t.clear_metadata_cache();
    t.get_children("/a");
    assert_eq!(t.archive_reader.calls.get(), 3);
}

#[test]
fn image_counts_are_cached() {
    let mut t = NavTree::new(reader());
    assert_eq!(t.get_image_count("/a"), 2);
    assert_eq!(t.get_image_count("/a"), 2);
    assert_eq!(t.get_image_count("/nothing"), 0);
    assert_eq!(t.archive_reader.calls.get(), 2);
}

#[test]
fn relative_targets_and_neighbours() {
    let mut t = NavTree::new(reader());
    assert_eq!(t.get_relative_target("/b", true), Some("/c".to_string()));
    assert_eq!(t.get_relative_target("/b", false), Some("/a".to_string()));
    assert_eq!(t.get_relative_target("/c", true), None);
    assert_eq!(t.get_relative_target("/a", false), None);
    let sibs = vec!["p".to_string(), "q".to_string()];
    assert_eq!(neighbour_in(&sibs, "r", true), None);
    assert_eq!(neighbour_in(&sibs, "p", true), Some("q".to_string()));
}

#[test]
fn selection_moves_and_clamps() {
    let mut t = NavTree::new(reader());
    t.move_selection(1);
    assert_eq!(t.selected, Some("/".to_string()));
    assert!(t.scroll_to_selected);
    t.selected = Some("/a".to_string());
    t.move_selection(5);
    assert_eq!(t.selected, Some("/c".to_string()));
    t.move_selection(-1);
    assert_eq!(t.selected, Some("/b".to_string()));
    t.move_selection(isize::MIN);
    assert_eq!(t.selected, Some("/a".to_string()));
}

#[test]
fn reveal_opens_ancestors_and_selects() {
    let mut t = NavTree::new(reader());
    t.reveal_path("/a/x/1.zip");
    assert_eq!(t.selected, Some("/a/x/1.zip".to_string()));
    assert!(t.expanded.contains_key("/a/x"));
    assert!(t.expanded.contains_key("/a"));
    assert!(t.expanded.contains_key("/"));
    assert!(!t.expanded.contains_key("/a/x/1.zip"));
    assert_eq!(t.activate_current(), Some("/a/x/1.zip".to_string()));
}

#[test]
fn collapse_or_up_closes_then_climbs() {
    let mut t = NavTree::new(reader());
    t.expanded.insert("/a".to_string(), ());
    t.selected = Some("/a".to_string());
    t.collapse_or_up();
    assert!(!t.expanded.contains_key("/a"));
    assert_eq!(t.selected, Some("/a".to_string()));
    t.expanded.insert("/".to_string(), ());
    t.collapse_or_up();
    assert_eq!(t.selected, Some("/".to_string()));
    assert!(!t.expanded.contains_key("/"));
}

#[test]
fn steps_taking_outside_answers() {
    let mut t = NavTree::new(reader());
    t.select_first(&vec!["/".to_string(), "/z".to_string()]);
    assert_eq!(t.selected, Some("/".to_string()));
    assert!(t.scroll_to_selected);
    t.open_selected(true);
    assert!(t.expanded.contains_key("/"));
    assert_eq!(t.selected, Some("/a".to_string()));
    t.open_selected(false);
    assert!(!t.expanded.contains_key("/a"));
    assert_eq!(t.selected, Some("/a".to_string()));
    t.expanded.insert("/".to_string(), ());
    t.up_to_parent(Some("/".to_string()));
    assert_eq!(t.selected, Some("/".to_string()));
    assert!(!t.expanded.contains_key("/"));
    t.up_to_parent(None);
    assert_eq!(t.selected, Some("/".to_string()));
    assert_eq!(t.children_of_parent(Some("/".to_string())), vec!["/a", "/b", "/c"]);
    t.open_all(&vec!["/a".to_string(), "/b".to_string()]);
    assert!(t.expanded.contains_key("/a") && t.expanded.contains_key("/b"));
}

#[test]
fn listings_give_counts_and_targets() {
    let ok: Result<Vec<ImageEntry>, String> = Ok(vec![
        ImageEntry { name: "a.jpg".to_string(), mtime: 0, size: 0, archive_index: 0 },
        ImageEntry { name: "b.jpg".to_string(), mtime: 0, size: 0, archive_index: 1 },
    ]);
    assert_eq!(count_of_listing(&ok), 2);
    assert_eq!(count_of_listing(&Err("gone".to_string())), 0);
    assert_eq!(targets_of_listing(Ok(vec!["/a".to_string()])), vec!["/a".to_string()]);
    assert_eq!(targets_of_listing(Err("gone".to_string())), Vec::<String>::new());
}
