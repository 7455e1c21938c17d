use hinjaku::labels::get_action_label;

#[test]
fn known_actions_have_labels() {
    assert_eq!(get_action_label("PrevPage"), "前のページ");
    assert_eq!(get_action_label("OpenExternal7"), "外部アプリ 7 で開く");
    assert_eq!(get_action_label("None"), "なし");
}

#[test]
fn unknown_action_is_its_own_label() {
    assert_eq!(get_action_label("NoSuchAction"), "NoSuchAction");
    assert_eq!(get_action_label(""), "");
}
