use hinjaku::config::Config;
use hinjaku::conflicts::build_conflict_set;

#[test]
fn default_bindings_conflicts() {
    let cfg = Config::default();
    let c = build_conflict_set(&cfg);
    // "Enter" (tree) and "ToggleMaximized" (viewer) are in different groups
    assert!(!c.contains(&"Enter".to_string()));
    assert!(!c.contains(&"ToggleMaximized".to_string()));
    assert!(!c.contains(&"PrevPage".to_string()));
}

#[test]
fn shared_key_is_reported_for_both_actions() {
    let mut cfg = Config::default();
    cfg.keys.insert("ZoomReset".to_string(), "F, X".to_string());
    let c = build_conflict_set(&cfg);
    assert!(c.contains(&"ZoomReset".to_string()));
    assert!(c.contains(&"ToggleFit".to_string()));
    assert!(!c.contains(&"ZoomIn".to_string()));
}

#[test]
fn tree_actions_conflict_among_themselves() {
    let mut cfg = Config::default();
    cfg.keys.insert("Up".to_string(), " ArrowDown ".to_string());
    let c = build_conflict_set(&cfg);
    assert!(c.contains(&"Up".to_string()));
    assert!(c.contains(&"Down".to_string()));
}

#[test]
fn key_listed_twice_conflicts_with_itself() {
    let mut cfg = Config::default();
    cfg.keys.insert("ZoomReset".to_string(), "X,X".to_string());
    let c = build_conflict_set(&cfg);
    assert!(c.contains(&"ZoomReset".to_string()));
}
