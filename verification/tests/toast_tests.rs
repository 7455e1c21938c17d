use hinjaku::toast::{toast_accent, toast_background, ToastKind, ToastManager, TOAST_LIMIT};

fn shown_texts(m: &ToastManager) -> Vec<String> {
    m.entries().into_iter().map(|e| e.0).collect()
}

#[test]
fn posting_adds_at_the_end() {
    let mut m = ToastManager::new();
    m.add("one".to_string(), 1000);
    m.warn("two".to_string(), 2000);
    assert_eq!(shown_texts(&m), vec!["one", "two"]);
    let e = m.entries();
    assert_eq!(e[0].1, ToastKind::Info);
    assert_eq!(e[1].1, ToastKind::Warning);
    assert_eq!(e[1].2, 2000);
}

#[test]
fn same_text_only_refreshes() {
    let mut m = ToastManager::new();
    m.add("saved".to_string(), 1000);
    m.add("other".to_string(), 1100);
    m.error("saved".to_string(), 5000);
    assert_eq!(m.len(), 2);
    let e = m.entries();
    assert_eq!(e[0].0, "saved");
    assert_eq!(e[0].1, ToastKind::Info);
    assert_eq!(e[0].2, 5000);
}

#[test]
fn oldest_leaves_past_the_limit() {
    let mut m = ToastManager::new();
    for i in 0..6u64 {
        m.add(format!("m{}", i), 1000 + i);
    }
    assert_eq!(m.len(), TOAST_LIMIT);
    assert_eq!(shown_texts(&m), vec!["m1", "m2", "m3", "m4", "m5"]);
}

#[test]
fn expired_toasts_are_pruned() {
    let mut m = ToastManager::new();
    m.add("a".to_string(), 100);
    m.add("b".to_string(), 300);
    m.add("c".to_string(), 200);
    m.prune(200);
    assert_eq!(shown_texts(&m), vec!["b"]);
    m.prune(300);
    assert_eq!(m.len(), 0);
}

#[test]
fn kind_colours() {
    assert_eq!(toast_background(ToastKind::Info), (40, 40, 60));
    assert_eq!(toast_background(ToastKind::Error), (80, 20, 20));
    assert_eq!(toast_accent(ToastKind::Warning), (255, 200, 60));
    assert_eq!(toast_accent(ToastKind::Error), (255, 80, 80));
}

#[test]
fn kind_icons() {
    assert_eq!(hinjaku::toast::toast_icon(ToastKind::Info), "ℹ");
    assert_eq!(hinjaku::toast::toast_icon(ToastKind::Warning), "⚠");
    assert_eq!(hinjaku::toast::toast_icon(ToastKind::Error), "✕");
}
