use vstd::prelude::*;
use crate::keymap_store::pairs_lookup;
use crate::text::str_eq;

verus! {

/// Display names of the bindable actions, by action id.
pub open spec fn action_labels() -> Seq<(Seq<char>, Seq<char>)> {
    seq![
        ("PrevPage"@, "前のページ"@),
        ("NextPage"@, "次のページ"@),
        ("PrevPageSingle"@, "前のページ（単頁）"@),
        ("NextPageSingle"@, "次のページ（単頁）"@),
        ("FirstPage"@, "最初のページ"@),
        ("LastPage"@, "最後のページ"@),
        ("JumpPage"@, "ページジャンプ"@),
        ("PrevDir"@, "前のフォルダ"@),
        ("NextDir"@, "次のフォルダ"@),
        ("ToggleFit"@, "表示フィット切替"@),
        ("ZoomIn"@, "拡大"@),
        ("ZoomOut"@, "縮小"@),
        ("ZoomReset"@, "倍率リセット"@),
        ("ToggleManga"@, "見開きモード切替"@),
        ("ToggleMangaRtl"@, "右←左 / 左→右 切替"@),
        ("RotateCW"@, "右回転"@),
        ("RotateCCW"@, "左回転"@),
        ("ToggleLinear"@, "フィルター切替"@),
        ("ToggleBg"@, "背景色切替"@),
        ("Up"@, "上"@),
        ("Down"@, "下"@),
        ("Left"@, "左"@),
        ("Right"@, "右"@),
        ("Enter"@, "決定"@),
        ("ToggleTree"@, "ツリー表示切替"@),
        ("RevealExplorer"@, "エクスプローラーで表示"@),
        ("ToggleMaximized"@, "最大化切替"@),
        ("ToggleFullscreen"@, "全画面切替"@),
        ("ToggleBorderless"@, "ボーダレス切替"@),
        ("ToggleSmallBorderless"@, "小型ボーダレス切替"@),
        ("Escape"@, "Esc / 閉じる"@),
        ("SortSettings"@, "ソート設定"@),
        ("OpenKeyConfig"@, "キーコンフィグ設定"@),
        ("ToggleDebug"@, "デバッグ表示"@),
        ("Quit"@, "終了"@),
        ("OpenExternal1"@, "外部アプリ 1 で開く"@),
        ("OpenExternal2"@, "外部アプリ 2 で開く"@),
        ("OpenExternal3"@, "外部アプリ 3 で開く"@),
        ("OpenExternal4"@, "外部アプリ 4 で開く"@),
        ("OpenExternal5"@, "外部アプリ 5 で開く"@),
        ("OpenExternal6"@, "外部アプリ 6 で開く"@),
        ("OpenExternal7"@, "外部アプリ 7 で開く"@),
        ("OpenExternal8"@, "外部アプリ 8 で開く"@),
        ("OpenExternal9"@, "外部アプリ 9 で開く"@),
        ("WindSizeLock"@, "ウィンドウサイズ固定"@),
        ("None"@, "なし"@),
    ]
}

/// The display name of an action id; an id without one is shown as itself.
pub open spec fn action_label(id: Seq<char>) -> Seq<char> {
    match pairs_lookup(action_labels(), id) {
        Some(label) => label,
        None => id,
    }
}

/// Views of a table of string pairs.
pub open spec fn str_pairs_view(v: Seq<(&str, &str)>) -> Seq<(Seq<char>, Seq<char>)> {
    v.map_values(|p: (&str, &str)| (p.0@, p.1@))
}

fn label_table() -> (r: Vec<(&'static str, &'static str)>)
    ensures
        str_pairs_view(r@) == action_labels(),
{
    let r = vec![
        ("PrevPage", "前のページ"),
        ("NextPage", "次のページ"),
        ("PrevPageSingle", "前のページ（単頁）"),
        ("NextPageSingle", "次のページ（単頁）"),
        ("FirstPage", "最初のページ"),
        ("LastPage", "最後のページ"),
        ("JumpPage", "ページジャンプ"),
        ("PrevDir", "前のフォルダ"),
        ("NextDir", "次のフォルダ"),
        ("ToggleFit", "表示フィット切替"),
        ("ZoomIn", "拡大"),
        ("ZoomOut", "縮小"),
        ("ZoomReset", "倍率リセット"),
        ("ToggleManga", "見開きモード切替"),
        ("ToggleMangaRtl", "右←左 / 左→右 切替"),
        ("RotateCW", "右回転"),
        ("RotateCCW", "左回転"),
        ("ToggleLinear", "フィルター切替"),
        ("ToggleBg", "背景色切替"),
        ("Up", "上"),
        ("Down", "下"),
        ("Left", "左"),
        ("Right", "右"),
        ("Enter", "決定"),
        ("ToggleTree", "ツリー表示切替"),
        ("RevealExplorer", "エクスプローラーで表示"),
        ("ToggleMaximized", "最大化切替"),
        ("ToggleFullscreen", "全画面切替"),
        ("ToggleBorderless", "ボーダレス切替"),
        ("ToggleSmallBorderless", "小型ボーダレス切替"),
        ("Escape", "Esc / 閉じる"),
        ("SortSettings", "ソート設定"),
        ("OpenKeyConfig", "キーコンフィグ設定"),
        ("ToggleDebug", "デバッグ表示"),
        ("Quit", "終了"),
        ("OpenExternal1", "外部アプリ 1 で開く"),
        ("OpenExternal2", "外部アプリ 2 で開く"),
        ("OpenExternal3", "外部アプリ 3 で開く"),
        ("OpenExternal4", "外部アプリ 4 で開く"),
        ("OpenExternal5", "外部アプリ 5 で開く"),
        ("OpenExternal6", "外部アプリ 6 で開く"),
        ("OpenExternal7", "外部アプリ 7 で開く"),
        ("OpenExternal8", "外部アプリ 8 で開く"),
        ("OpenExternal9", "外部アプリ 9 で開く"),
        ("WindSizeLock", "ウィンドウサイズ固定"),
        ("None", "なし"),
    ];
    assert(str_pairs_view(r@) =~= action_labels());
    r
}

/// The display name of the action `id` (used by the key configuration screen);
/// an unknown id is returned as it is.
pub fn get_action_label(id: &str) -> (r: &str)
    ensures
        r@ == action_label(id@),
{
    let table = label_table();
    let ghost t = str_pairs_view(table@);
    let mut i: usize = 0;
    assert(t.skip(0) =~= t);
    while i < table.len()
        invariant
            i <= table@.len(),
            t == str_pairs_view(table@),
            t == action_labels(),
            pairs_lookup(t, id@) == pairs_lookup(t.skip(i as int), id@),
        decreases table.len() - i,
    {
        let (key, label) = table[i];
        assert(t.skip(i as int)[0] == t[i as int]);
        assert(t.skip(i as int).drop_first() =~= t.skip(i + 1));
        if str_eq(key, id) {
            return label;
        }
        i = i + 1;
    }
    assert(t.skip(i as int).len() == 0);
    id
}

} // verus!
