use hinjaku::history::remember_path;

#[test]
fn opened_path_moves_to_front() {
    let mut r = vec!["a".to_string(), "b".to_string(), "c".to_string()];
    remember_path(&mut r, "b".to_string());
    assert_eq!(r, vec!["b", "a", "c"]);
    remember_path(&mut r, "d".to_string());
    assert_eq!(r, vec!["d", "b", "a", "c"]);
}

#[test]
fn recent_paths_stay_within_ten() {
    let mut r: Vec<String> = (0..10).map(|i| i.to_string()).collect();
    remember_path(&mut r, "new".to_string());
    assert_eq!(r.len(), 10);
    assert_eq!(r[0], "new");
    assert_eq!(r[9], "8");
}
