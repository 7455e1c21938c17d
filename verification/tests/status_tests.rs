use hinjaku::config::{SortMode, SortOrder};
use hinjaku::status::{page_counter, slider_range, sort_label};

#[test]
fn counter_counts_from_one() {
    assert_eq!(page_counter(0, 12), "1/12");
    assert_eq!(page_counter(11, 12), "12/12");
    assert_eq!(page_counter(0, 0), "0/0");
}

#[test]
fn slider_spans_the_pages() {
    assert_eq!(slider_range(3, 10), (9, 3));
    assert_eq!(slider_range(5, 0), (1, 0));
}

#[test]
fn sort_labels() {
    assert_eq!(sort_label(SortMode::Name, SortOrder::Ascending), "名前 ▲");
    assert_eq!(sort_label(SortMode::Mtime, SortOrder::Descending), "日付 ▼");
    assert_eq!(sort_label(SortMode::Size, SortOrder::Ascending), "サイズ ▲");
}
