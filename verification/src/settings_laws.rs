use vstd::prelude::*;
use crate::keymap_store::{pairs_lookup, pairs_to_map, insert_all, unique_keys};
use crate::ini_store::{section_pairs, section_set, pairs_without};
use crate::settings::{
    set_all, apps_saved, app_pairs, app_section_name, global_pairs, saved_sections,
    config_from_sections, NumberTexts, non_empty, read_app, global_of, read_filter, read_flag,
    read_text, read_recent, read_limiter, read_dpi, read_window_mode,
};
use crate::config::{
    ConfigView, AppView, default_config, default_keys, law_filter_name_roundtrip,
    law_sort_mode_name_roundtrip, law_sort_order_name_roundtrip, law_display_name_roundtrip,
    law_window_name_roundtrip, sort_mode_text, sort_order_text, display_mode_text,
    law_background_name_roundtrip, background_mode_text,
};
use crate::text::{
    is_ws, split, join, decimal, law_split_join, law_split_ws_join, lemma_decimal_digits,
    law_parse_decimal_roundtrip, bool_text,
};
use crate::ini_store::no_sections;

verus! {

/// Pairs of a section after each pair of `pairs` is set into it, in order.
pub open spec fn set_fold(
    base: Seq<(Seq<char>, Seq<char>)>,
    pairs: Seq<(Seq<char>, Seq<char>)>,
) -> Seq<(Seq<char>, Seq<char>)>
    decreases pairs.len(),
{
    if pairs.len() == 0 {
        base
    } else {
        pairs_without(set_fold(base, pairs.drop_last()), pairs.last().0).push(pairs.last())
    }
}

proof fn lemma_set_all(
    secs: Map<Seq<char>, Seq<(Seq<char>, Seq<char>)>>,
    sec: Seq<char>,
    pairs: Seq<(Seq<char>, Seq<char>)>,
)
    ensures
        forall|other: Seq<char>|
            other != sec ==> #[trigger] section_pairs(set_all(secs, sec, pairs), other)
                == section_pairs(secs, other),
        section_pairs(set_all(secs, sec, pairs), sec) == set_fold(section_pairs(secs, sec), pairs),
    decreases pairs.len(),
{
    if pairs.len() > 0 {
        lemma_set_all(secs, sec, pairs.drop_last());
        let prev = set_all(secs, sec, pairs.drop_last());
        assert(set_all(secs, sec, pairs) == section_set(prev, sec, pairs.last().0, pairs.last().1));
        assert forall|other: Seq<char>| other != sec implies #[trigger] section_pairs(
            set_all(secs, sec, pairs),
            other,
        ) == section_pairs(secs, other) by {
            assert(section_pairs(set_all(secs, sec, pairs), other) == section_pairs(prev, other));
        }
    }
}

proof fn lemma_without_absent(pairs: Seq<(Seq<char>, Seq<char>)>, key: Seq<char>)
    requires
        forall|i: int| 0 <= i < pairs.len() ==> pairs[i].0 != key,
    ensures
        pairs_without(pairs, key) == pairs,
    decreases pairs.len(),
{
    if pairs.len() > 0 {
        lemma_without_absent(pairs.drop_last(), key);
        assert(pairs.drop_last().push(pairs.last()) == pairs);
    }
}

/// Setting pairs with distinct keys into an empty section leaves exactly those pairs.
proof fn lemma_set_fold_fresh(pairs: Seq<(Seq<char>, Seq<char>)>)
    requires
        unique_keys(pairs),
    ensures
        set_fold(Seq::empty(), pairs) == pairs,
    decreases pairs.len(),
{
    if pairs.len() > 0 {
        let init = pairs.drop_last();
        assert(unique_keys(init));
        lemma_set_fold_fresh(init);
        assert forall|i: int| 0 <= i < init.len() implies init[i].0 != pairs.last().0 by {
            assert(pairs[i].0 != pairs[pairs.len() - 1].0);
        }
        lemma_without_absent(init, pairs.last().0);
        assert(init.push(pairs.last()) == pairs);
    }
}

/// In a section whose keys are distinct, each key is found with its own value.
proof fn lemma_lookup_unique(pairs: Seq<(Seq<char>, Seq<char>)>, j: int)
    requires
        unique_keys(pairs),
        0 <= j < pairs.len(),
    ensures
        pairs_lookup(pairs, pairs[j].0) == Some(pairs[j].1),
    decreases j,
{
    if j > 0 {
        let rest = pairs.drop_first();
        assert(unique_keys(rest));
        assert(pairs[0].0 != pairs[j].0);
        assert(rest[j - 1] == pairs[j]);
        lemma_lookup_unique(rest, j - 1);
    }
}

/// A key that no pair carries is not found.
proof fn lemma_lookup_absent(pairs: Seq<(Seq<char>, Seq<char>)>, key: Seq<char>)
    requires
        forall|i: int| 0 <= i < pairs.len() ==> pairs[i].0 != key,
    ensures
        pairs_lookup(pairs, key) is None,
    decreases pairs.len(),
{
    if pairs.len() > 0 {
        assert forall|i: int| 0 <= i < pairs.drop_first().len() implies pairs.drop_first()[i].0
            != key by {
            assert(pairs.drop_first()[i] == pairs[i + 1]);
        }
        lemma_lookup_absent(pairs.drop_first(), key);
    }
}

proof fn lemma_insert_all_union(
    base: Map<Seq<char>, Seq<char>>,
    pairs: Seq<(Seq<char>, Seq<char>)>,
)
    ensures
        insert_all(base, pairs) == base.union_prefer_right(pairs_to_map(pairs)),
    decreases pairs.len(),
{
    if pairs.len() > 0 {
        lemma_insert_all_union(base, pairs.drop_last());
        assert(insert_all(base, pairs) =~= base.union_prefer_right(pairs_to_map(pairs)));
    } else {
        assert(insert_all(base, pairs) =~= base.union_prefer_right(pairs_to_map(pairs)));
    }
}

/// Key bindings read over defaults give back the saved bindings when every default
/// action is among them.
proof fn lemma_keys_back(base: Map<Seq<char>, Seq<char>>, pairs: Seq<(Seq<char>, Seq<char>)>)
    requires
        base.dom().subset_of(pairs_to_map(pairs).dom()),
    ensures
        insert_all(base, pairs) == pairs_to_map(pairs),
{
    lemma_insert_all_union(base, pairs);
    assert(base.union_prefer_right(pairs_to_map(pairs)) =~= pairs_to_map(pairs));
}

} // verus!

verus! {

/// Keys of the `Global` section, in the order they are written.
pub open spec fn global_keys() -> Seq<Seq<char>> {
    seq![
        "FilterMode"@,
        "AllowMultipleInstances"@,
        "AlwaysOnTop"@,
        "SortMode"@,
        "SortOrder"@,
        "SortNatural"@,
        "MangaRtl"@,
        "IsFirstRun"@,
        "WindowX"@,
        "WindowY"@,
        "WindowWidth"@,
        "WindowHeight"@,
        "WindowResizable"@,
        "WindowMaximized"@,
        "WindowCentered"@,
        "RecentPaths"@,
        "Mouse4Action"@,
        "Mouse5Action"@,
        "MouseMiddleAction"@,
        "LimiterMode"@,
        "LimiterPageDuration"@,
        "LimiterFolderDuration"@,
        "LimiterStopAtStart"@,
        "LimiterStopAtEnd"@,
        "ShowPdfWarning"@,
        "PdfRenderDpi"@,
        "OpenFromEnd"@,
        "MangaMode"@,
        "DisplayMode"@,
        "WindowMode"@,
        "ShowTree"@,
        "BackgroundMode"@,
    ]
}

proof fn lemma_global_keys_distinct_0()
    ensures
        forall|i: int, j: int| 0 <= i < 8 && i < j < 31 ==> global_keys()[i] != global_keys()[j],
{
    reveal_strlit("FilterMode");
    reveal_strlit("AllowMultipleInstances");
    reveal_strlit("AlwaysOnTop");
    reveal_strlit("SortMode");
    reveal_strlit("SortOrder");
    reveal_strlit("SortNatural");
    reveal_strlit("MangaRtl");
    reveal_strlit("IsFirstRun");
    reveal_strlit("WindowX");
    reveal_strlit("WindowY");
    reveal_strlit("WindowWidth");
    reveal_strlit("WindowHeight");
    reveal_strlit("WindowResizable");
    reveal_strlit("WindowMaximized");
    reveal_strlit("WindowCentered");
    reveal_strlit("RecentPaths");
    reveal_strlit("Mouse4Action");
    reveal_strlit("Mouse5Action");
    reveal_strlit("MouseMiddleAction");
    reveal_strlit("LimiterMode");
    reveal_strlit("LimiterPageDuration");
    reveal_strlit("LimiterFolderDuration");
    reveal_strlit("LimiterStopAtStart");
    reveal_strlit("LimiterStopAtEnd");
    reveal_strlit("ShowPdfWarning");
    reveal_strlit("PdfRenderDpi");
    reveal_strlit("OpenFromEnd");
    reveal_strlit("MangaMode");
    reveal_strlit("DisplayMode");
    reveal_strlit("WindowMode");
    reveal_strlit("ShowTree");
    assert(global_keys()[0].len() != global_keys()[1].len());
    assert(global_keys()[0].len() != global_keys()[2].len());
    assert(global_keys()[0].len() != global_keys()[3].len());
    assert(global_keys()[0].len() != global_keys()[4].len());
    assert(global_keys()[0].len() != global_keys()[5].len());
    assert(global_keys()[0].len() != global_keys()[6].len());
    assert(global_keys()[0][0] != global_keys()[7][0]);
    assert(global_keys()[0].len() != global_keys()[8].len());
    assert(global_keys()[0].len() != global_keys()[9].len());
    assert(global_keys()[0].len() != global_keys()[10].len());
    assert(global_keys()[0].len() != global_keys()[11].len());
    assert(global_keys()[0].len() != global_keys()[12].len());
    assert(global_keys()[0].len() != global_keys()[13].len());
    assert(global_keys()[0].len() != global_keys()[14].len());
    assert(global_keys()[0].len() != global_keys()[15].len());
    assert(global_keys()[0].len() != global_keys()[16].len());
    assert(global_keys()[0].len() != global_keys()[17].len());
    assert(global_keys()[0].len() != global_keys()[18].len());
    assert(global_keys()[0].len() != global_keys()[19].len());
    assert(global_keys()[0].len() != global_keys()[20].len());
    assert(global_keys()[0].len() != global_keys()[21].len());
    assert(global_keys()[0].len() != global_keys()[22].len());
    assert(global_keys()[0].len() != global_keys()[23].len());
    assert(global_keys()[0].len() != global_keys()[24].len());
    assert(global_keys()[0].len() != global_keys()[25].len());
    assert(global_keys()[0].len() != global_keys()[26].len());
    assert(global_keys()[0].len() != global_keys()[27].len());
    assert(global_keys()[0].len() != global_keys()[28].len());
    assert(global_keys()[0][0] != global_keys()[29][0]);
    assert(global_keys()[0].len() != global_keys()[30].len());
    assert(global_keys()[1].len() != global_keys()[2].len());
    assert(global_keys()[1].len() != global_keys()[3].len());
    assert(global_keys()[1].len() != global_keys()[4].len());
    assert(global_keys()[1].len() != global_keys()[5].len());
    assert(global_keys()[1].len() != global_keys()[6].len());
    assert(global_keys()[1].len() != global_keys()[7].len());
    assert(global_keys()[1].len() != global_keys()[8].len());
    assert(global_keys()[1].len() != global_keys()[9].len());
    assert(global_keys()[1].len() != global_keys()[10].len());
    assert(global_keys()[1].len() != global_keys()[11].len());
    assert(global_keys()[1].len() != global_keys()[12].len());
    assert(global_keys()[1].len() != global_keys()[13].len());
    assert(global_keys()[1].len() != global_keys()[14].len());
    assert(global_keys()[1].len() != global_keys()[15].len());
    assert(global_keys()[1].len() != global_keys()[16].len());
    assert(global_keys()[1].len() != global_keys()[17].len());
    assert(global_keys()[1].len() != global_keys()[18].len());
    assert(global_keys()[1].len() != global_keys()[19].len());
    assert(global_keys()[1].len() != global_keys()[20].len());
    assert(global_keys()[1].len() != global_keys()[21].len());
    assert(global_keys()[1].len() != global_keys()[22].len());
    assert(global_keys()[1].len() != global_keys()[23].len());
    assert(global_keys()[1].len() != global_keys()[24].len());
    assert(global_keys()[1].len() != global_keys()[25].len());
    assert(global_keys()[1].len() != global_keys()[26].len());
    assert(global_keys()[1].len() != global_keys()[27].len());
    assert(global_keys()[1].len() != global_keys()[28].len());
    assert(global_keys()[1].len() != global_keys()[29].len());
    assert(global_keys()[1].len() != global_keys()[30].len());
    assert(global_keys()[2].len() != global_keys()[3].len());
    assert(global_keys()[2].len() != global_keys()[4].len());
    assert(global_keys()[2][0] != global_keys()[5][0]);
    assert(global_keys()[2].len() != global_keys()[6].len());
    assert(global_keys()[2].len() != global_keys()[7].len());
    assert(global_keys()[2].len() != global_keys()[8].len());
    assert(global_keys()[2].len() != global_keys()[9].len());
    assert(global_keys()[2][0] != global_keys()[10][0]);
    assert(global_keys()[2].len() != global_keys()[11].len());
    assert(global_keys()[2].len() != global_keys()[12].len());
    assert(global_keys()[2].len() != global_keys()[13].len());
    assert(global_keys()[2].len() != global_keys()[14].len());
    assert(global_keys()[2][0] != global_keys()[15][0]);
    assert(global_keys()[2].len() != global_keys()[16].len());
    assert(global_keys()[2].len() != global_keys()[17].len());
    assert(global_keys()[2].len() != global_keys()[18].len());
    assert(global_keys()[2][0] != global_keys()[19][0]);
    assert(global_keys()[2].len() != global_keys()[20].len());
    assert(global_keys()[2].len() != global_keys()[21].len());
    assert(global_keys()[2].len() != global_keys()[22].len());
    assert(global_keys()[2].len() != global_keys()[23].len());
    assert(global_keys()[2].len() != global_keys()[24].len());
    assert(global_keys()[2].len() != global_keys()[25].len());
    assert(global_keys()[2][0] != global_keys()[26][0]);
    assert(global_keys()[2].len() != global_keys()[27].len());
    assert(global_keys()[2][0] != global_keys()[28][0]);
    assert(global_keys()[2].len() != global_keys()[29].len());
    assert(global_keys()[2].len() != global_keys()[30].len());
    assert(global_keys()[3].len() != global_keys()[4].len());
    assert(global_keys()[3].len() != global_keys()[5].len());
    assert(global_keys()[3][0] != global_keys()[6][0]);
    assert(global_keys()[3].len() != global_keys()[7].len());
    assert(global_keys()[3].len() != global_keys()[8].len());
    assert(global_keys()[3].len() != global_keys()[9].len());
    assert(global_keys()[3].len() != global_keys()[10].len());
    assert(global_keys()[3].len() != global_keys()[11].len());
    assert(global_keys()[3].len() != global_keys()[12].len());
    assert(global_keys()[3].len() != global_keys()[13].len());
    assert(global_keys()[3].len() != global_keys()[14].len());
    assert(global_keys()[3].len() != global_keys()[15].len());
    assert(global_keys()[3].len() != global_keys()[16].len());
    assert(global_keys()[3].len() != global_keys()[17].len());
    assert(global_keys()[3].len() != global_keys()[18].len());
    assert(global_keys()[3].len() != global_keys()[19].len());
    assert(global_keys()[3].len() != global_keys()[20].len());
    assert(global_keys()[3].len() != global_keys()[21].len());
    assert(global_keys()[3].len() != global_keys()[22].len());
    assert(global_keys()[3].len() != global_keys()[23].len());
    assert(global_keys()[3].len() != global_keys()[24].len());
    assert(global_keys()[3].len() != global_keys()[25].len());
    assert(global_keys()[3].len() != global_keys()[26].len());
    assert(global_keys()[3].len() != global_keys()[27].len());
    assert(global_keys()[3].len() != global_keys()[28].len());
    assert(global_keys()[3].len() != global_keys()[29].len());
    assert(global_keys()[3][1] != global_keys()[30][1]);
    assert(global_keys()[4].len() != global_keys()[5].len());
    assert(global_keys()[4].len() != global_keys()[6].len());
    assert(global_keys()[4].len() != global_keys()[7].len());
    assert(global_keys()[4].len() != global_keys()[8].len());
    assert(global_keys()[4].len() != global_keys()[9].len());
    assert(global_keys()[4].len() != global_keys()[10].len());
    assert(global_keys()[4].len() != global_keys()[11].len());
    assert(global_keys()[4].len() != global_keys()[12].len());
    assert(global_keys()[4].len() != global_keys()[13].len());
    assert(global_keys()[4].len() != global_keys()[14].len());
    assert(global_keys()[4].len() != global_keys()[15].len());
    assert(global_keys()[4].len() != global_keys()[16].len());
    assert(global_keys()[4].len() != global_keys()[17].len());
    assert(global_keys()[4].len() != global_keys()[18].len());
    assert(global_keys()[4].len() != global_keys()[19].len());
    assert(global_keys()[4].len() != global_keys()[20].len());
    assert(global_keys()[4].len() != global_keys()[21].len());
    assert(global_keys()[4].len() != global_keys()[22].len());
    assert(global_keys()[4].len() != global_keys()[23].len());
    assert(global_keys()[4].len() != global_keys()[24].len());
    assert(global_keys()[4].len() != global_keys()[25].len());
    assert(global_keys()[4].len() != global_keys()[26].len());
    assert(global_keys()[4][0] != global_keys()[27][0]);
    assert(global_keys()[4].len() != global_keys()[28].len());
    assert(global_keys()[4].len() != global_keys()[29].len());
    assert(global_keys()[4].len() != global_keys()[30].len());
    assert(global_keys()[5].len() != global_keys()[6].len());
    assert(global_keys()[5].len() != global_keys()[7].len());
    assert(global_keys()[5].len() != global_keys()[8].len());
    assert(global_keys()[5].len() != global_keys()[9].len());
    assert(global_keys()[5][0] != global_keys()[10][0]);
    assert(global_keys()[5].len() != global_keys()[11].len());
    assert(global_keys()[5].len() != global_keys()[12].len());
    assert(global_keys()[5].len() != global_keys()[13].len());
    assert(global_keys()[5].len() != global_keys()[14].len());
    assert(global_keys()[5][0] != global_keys()[15][0]);
    assert(global_keys()[5].len() != global_keys()[16].len());
    assert(global_keys()[5].len() != global_keys()[17].len());
    assert(global_keys()[5].len() != global_keys()[18].len());
    assert(global_keys()[5][0] != global_keys()[19][0]);
    assert(global_keys()[5].len() != global_keys()[20].len());
    assert(global_keys()[5].len() != global_keys()[21].len());
    assert(global_keys()[5].len() != global_keys()[22].len());
    assert(global_keys()[5].len() != global_keys()[23].len());
    assert(global_keys()[5].len() != global_keys()[24].len());
    assert(global_keys()[5].len() != global_keys()[25].len());
    assert(global_keys()[5][0] != global_keys()[26][0]);
    assert(global_keys()[5].len() != global_keys()[27].len());
    assert(global_keys()[5][0] != global_keys()[28][0]);
    assert(global_keys()[5].len() != global_keys()[29].len());
    assert(global_keys()[5].len() != global_keys()[30].len());
    assert(global_keys()[6].len() != global_keys()[7].len());
    assert(global_keys()[6].len() != global_keys()[8].len());
    assert(global_keys()[6].len() != global_keys()[9].len());
    assert(global_keys()[6].len() != global_keys()[10].len());
    assert(global_keys()[6].len() != global_keys()[11].len());
    assert(global_keys()[6].len() != global_keys()[12].len());
    assert(global_keys()[6].len() != global_keys()[13].len());
    assert(global_keys()[6].len() != global_keys()[14].len());
    assert(global_keys()[6].len() != global_keys()[15].len());
    assert(global_keys()[6].len() != global_keys()[16].len());
    assert(global_keys()[6].len() != global_keys()[17].len());
    assert(global_keys()[6].len() != global_keys()[18].len());
    assert(global_keys()[6].len() != global_keys()[19].len());
    assert(global_keys()[6].len() != global_keys()[20].len());
    assert(global_keys()[6].len() != global_keys()[21].len());
    assert(global_keys()[6].len() != global_keys()[22].len());
    assert(global_keys()[6].len() != global_keys()[23].len());
    assert(global_keys()[6].len() != global_keys()[24].len());
    assert(global_keys()[6].len() != global_keys()[25].len());
    assert(global_keys()[6].len() != global_keys()[26].len());
    assert(global_keys()[6].len() != global_keys()[27].len());
    assert(global_keys()[6].len() != global_keys()[28].len());
    assert(global_keys()[6].len() != global_keys()[29].len());
    assert(global_keys()[6][0] != global_keys()[30][0]);
    assert(global_keys()[7].len() != global_keys()[8].len());
    assert(global_keys()[7].len() != global_keys()[9].len());
    assert(global_keys()[7].len() != global_keys()[10].len());
    assert(global_keys()[7].len() != global_keys()[11].len());
    assert(global_keys()[7].len() != global_keys()[12].len());
    assert(global_keys()[7].len() != global_keys()[13].len());
    assert(global_keys()[7].len() != global_keys()[14].len());
    assert(global_keys()[7].len() != global_keys()[15].len());
    assert(global_keys()[7].len() != global_keys()[16].len());
    assert(global_keys()[7].len() != global_keys()[17].len());
    assert(global_keys()[7].len() != global_keys()[18].len());
    assert(global_keys()[7].len() != global_keys()[19].len());
    assert(global_keys()[7].len() != global_keys()[20].len());
    assert(global_keys()[7].len() != global_keys()[21].len());
    assert(global_keys()[7].len() != global_keys()[22].len());
    assert(global_keys()[7].len() != global_keys()[23].len());
    assert(global_keys()[7].len() != global_keys()[24].len());
    assert(global_keys()[7].len() != global_keys()[25].len());
    assert(global_keys()[7].len() != global_keys()[26].len());
    assert(global_keys()[7].len() != global_keys()[27].len());
    assert(global_keys()[7].len() != global_keys()[28].len());
    assert(global_keys()[7][0] != global_keys()[29][0]);
    assert(global_keys()[7].len() != global_keys()[30].len());
}

proof fn lemma_global_keys_distinct_1()
    ensures
        forall|i: int, j: int| 8 <= i < 16 && i < j < 31 ==> global_keys()[i] != global_keys()[j],
{
    reveal_strlit("FilterMode");
    reveal_strlit("AllowMultipleInstances");
    reveal_strlit("AlwaysOnTop");
    reveal_strlit("SortMode");
    reveal_strlit("SortOrder");
    reveal_strlit("SortNatural");
    reveal_strlit("MangaRtl");
    reveal_strlit("IsFirstRun");
    reveal_strlit("WindowX");
    reveal_strlit("WindowY");
    reveal_strlit("WindowWidth");
    reveal_strlit("WindowHeight");
    reveal_strlit("WindowResizable");
    reveal_strlit("WindowMaximized");
    reveal_strlit("WindowCentered");
    reveal_strlit("RecentPaths");
    reveal_strlit("Mouse4Action");
    reveal_strlit("Mouse5Action");
    reveal_strlit("MouseMiddleAction");
    reveal_strlit("LimiterMode");
    reveal_strlit("LimiterPageDuration");
    reveal_strlit("LimiterFolderDuration");
    reveal_strlit("LimiterStopAtStart");
    reveal_strlit("LimiterStopAtEnd");
    reveal_strlit("ShowPdfWarning");
    reveal_strlit("PdfRenderDpi");
    reveal_strlit("OpenFromEnd");
    reveal_strlit("MangaMode");
    reveal_strlit("DisplayMode");
    reveal_strlit("WindowMode");
    reveal_strlit("ShowTree");
    assert(global_keys()[8][6] != global_keys()[9][6]);
    assert(global_keys()[8].len() != global_keys()[10].len());
    assert(global_keys()[8].len() != global_keys()[11].len());
    assert(global_keys()[8].len() != global_keys()[12].len());
    assert(global_keys()[8].len() != global_keys()[13].len());
    assert(global_keys()[8].len() != global_keys()[14].len());
    assert(global_keys()[8].len() != global_keys()[15].len());
    assert(global_keys()[8].len() != global_keys()[16].len());
    assert(global_keys()[8].len() != global_keys()[17].len());
    assert(global_keys()[8].len() != global_keys()[18].len());
    assert(global_keys()[8].len() != global_keys()[19].len());
    assert(global_keys()[8].len() != global_keys()[20].len());
    assert(global_keys()[8].len() != global_keys()[21].len());
    assert(global_keys()[8].len() != global_keys()[22].len());
    assert(global_keys()[8].len() != global_keys()[23].len());
    assert(global_keys()[8].len() != global_keys()[24].len());
    assert(global_keys()[8].len() != global_keys()[25].len());
    assert(global_keys()[8].len() != global_keys()[26].len());
    assert(global_keys()[8].len() != global_keys()[27].len());
    assert(global_keys()[8].len() != global_keys()[28].len());
    assert(global_keys()[8].len() != global_keys()[29].len());
    assert(global_keys()[8].len() != global_keys()[30].len());
    assert(global_keys()[9].len() != global_keys()[10].len());
    assert(global_keys()[9].len() != global_keys()[11].len());
    assert(global_keys()[9].len() != global_keys()[12].len());
    assert(global_keys()[9].len() != global_keys()[13].len());
    assert(global_keys()[9].len() != global_keys()[14].len());
    assert(global_keys()[9].len() != global_keys()[15].len());
    assert(global_keys()[9].len() != global_keys()[16].len());
    assert(global_keys()[9].len() != global_keys()[17].len());
    assert(global_keys()[9].len() != global_keys()[18].len());
    assert(global_keys()[9].len() != global_keys()[19].len());
    assert(global_keys()[9].len() != global_keys()[20].len());
    assert(global_keys()[9].len() != global_keys()[21].len());
    assert(global_keys()[9].len() != global_keys()[22].len());
    assert(global_keys()[9].len() != global_keys()[23].len());
    assert(global_keys()[9].len() != global_keys()[24].len());
    assert(global_keys()[9].len() != global_keys()[25].len());
    assert(global_keys()[9].len() != global_keys()[26].len());
    assert(global_keys()[9].len() != global_keys()[27].len());
    assert(global_keys()[9].len() != global_keys()[28].len());
    assert(global_keys()[9].len() != global_keys()[29].len());
    assert(global_keys()[9].len() != global_keys()[30].len());
    assert(global_keys()[10].len() != global_keys()[11].len());
    assert(global_keys()[10].len() != global_keys()[12].len());
    assert(global_keys()[10].len() != global_keys()[13].len());
    assert(global_keys()[10].len() != global_keys()[14].len());
    assert(global_keys()[10][0] != global_keys()[15][0]);
    assert(global_keys()[10].len() != global_keys()[16].len());
    assert(global_keys()[10].len() != global_keys()[17].len());
    assert(global_keys()[10].len() != global_keys()[18].len());
    assert(global_keys()[10][0] != global_keys()[19][0]);
    assert(global_keys()[10].len() != global_keys()[20].len());
    assert(global_keys()[10].len() != global_keys()[21].len());
    assert(global_keys()[10].len() != global_keys()[22].len());
    assert(global_keys()[10].len() != global_keys()[23].len());
    assert(global_keys()[10].len() != global_keys()[24].len());
    assert(global_keys()[10].len() != global_keys()[25].len());
    assert(global_keys()[10][0] != global_keys()[26][0]);
    assert(global_keys()[10].len() != global_keys()[27].len());
    assert(global_keys()[10][0] != global_keys()[28][0]);
    assert(global_keys()[10].len() != global_keys()[29].len());
    assert(global_keys()[10].len() != global_keys()[30].len());
    assert(global_keys()[11].len() != global_keys()[12].len());
    assert(global_keys()[11].len() != global_keys()[13].len());
    assert(global_keys()[11].len() != global_keys()[14].len());
    assert(global_keys()[11].len() != global_keys()[15].len());
    assert(global_keys()[11][0] != global_keys()[16][0]);
    assert(global_keys()[11][0] != global_keys()[17][0]);
    assert(global_keys()[11].len() != global_keys()[18].len());
    assert(global_keys()[11].len() != global_keys()[19].len());
    assert(global_keys()[11].len() != global_keys()[20].len());
    assert(global_keys()[11].len() != global_keys()[21].len());
    assert(global_keys()[11].len() != global_keys()[22].len());
    assert(global_keys()[11].len() != global_keys()[23].len());
    assert(global_keys()[11].len() != global_keys()[24].len());
    assert(global_keys()[11][0] != global_keys()[25][0]);
    assert(global_keys()[11].len() != global_keys()[26].len());
    assert(global_keys()[11].len() != global_keys()[27].len());
    assert(global_keys()[11].len() != global_keys()[28].len());
    assert(global_keys()[11].len() != global_keys()[29].len());
    assert(global_keys()[11].len() != global_keys()[30].len());
    assert(global_keys()[12][6] != global_keys()[13][6]);
    assert(global_keys()[12].len() != global_keys()[14].len());
    assert(global_keys()[12].len() != global_keys()[15].len());
    assert(global_keys()[12].len() != global_keys()[16].len());
    assert(global_keys()[12].len() != global_keys()[17].len());
    assert(global_keys()[12].len() != global_keys()[18].len());
    assert(global_keys()[12].len() != global_keys()[19].len());
    assert(global_keys()[12].len() != global_keys()[20].len());
    assert(global_keys()[12].len() != global_keys()[21].len());
    assert(global_keys()[12].len() != global_keys()[22].len());
    assert(global_keys()[12].len() != global_keys()[23].len());
    assert(global_keys()[12].len() != global_keys()[24].len());
    assert(global_keys()[12].len() != global_keys()[25].len());
    assert(global_keys()[12].len() != global_keys()[26].len());
    assert(global_keys()[12].len() != global_keys()[27].len());
    assert(global_keys()[12].len() != global_keys()[28].len());
    assert(global_keys()[12].len() != global_keys()[29].len());
    assert(global_keys()[12].len() != global_keys()[30].len());
    assert(global_keys()[13].len() != global_keys()[14].len());
    assert(global_keys()[13].len() != global_keys()[15].len());
    assert(global_keys()[13].len() != global_keys()[16].len());
    assert(global_keys()[13].len() != global_keys()[17].len());
    assert(global_keys()[13].len() != global_keys()[18].len());
    assert(global_keys()[13].len() != global_keys()[19].len());
    assert(global_keys()[13].len() != global_keys()[20].len());
    assert(global_keys()[13].len() != global_keys()[21].len());
    assert(global_keys()[13].len() != global_keys()[22].len());
    assert(global_keys()[13].len() != global_keys()[23].len());
    assert(global_keys()[13].len() != global_keys()[24].len());
    assert(global_keys()[13].len() != global_keys()[25].len());
    assert(global_keys()[13].len() != global_keys()[26].len());
    assert(global_keys()[13].len() != global_keys()[27].len());
    assert(global_keys()[13].len() != global_keys()[28].len());
    assert(global_keys()[13].len() != global_keys()[29].len());
    assert(global_keys()[13].len() != global_keys()[30].len());
    assert(global_keys()[14].len() != global_keys()[15].len());
    assert(global_keys()[14].len() != global_keys()[16].len());
    assert(global_keys()[14].len() != global_keys()[17].len());
    assert(global_keys()[14].len() != global_keys()[18].len());
    assert(global_keys()[14].len() != global_keys()[19].len());
    assert(global_keys()[14].len() != global_keys()[20].len());
    assert(global_keys()[14].len() != global_keys()[21].len());
    assert(global_keys()[14].len() != global_keys()[22].len());
    assert(global_keys()[14].len() != global_keys()[23].len());
    assert(global_keys()[14][0] != global_keys()[24][0]);
    assert(global_keys()[14].len() != global_keys()[25].len());
    assert(global_keys()[14].len() != global_keys()[26].len());
    assert(global_keys()[14].len() != global_keys()[27].len());
    assert(global_keys()[14].len() != global_keys()[28].len());
    assert(global_keys()[14].len() != global_keys()[29].len());
    assert(global_keys()[14].len() != global_keys()[30].len());
    assert(global_keys()[15].len() != global_keys()[16].len());
    assert(global_keys()[15].len() != global_keys()[17].len());
    assert(global_keys()[15].len() != global_keys()[18].len());
    assert(global_keys()[15][0] != global_keys()[19][0]);
    assert(global_keys()[15].len() != global_keys()[20].len());
    assert(global_keys()[15].len() != global_keys()[21].len());
    assert(global_keys()[15].len() != global_keys()[22].len());
    assert(global_keys()[15].len() != global_keys()[23].len());
    assert(global_keys()[15].len() != global_keys()[24].len());
    assert(global_keys()[15].len() != global_keys()[25].len());
    assert(global_keys()[15][0] != global_keys()[26][0]);
    assert(global_keys()[15].len() != global_keys()[27].len());
    assert(global_keys()[15][0] != global_keys()[28][0]);
    assert(global_keys()[15].len() != global_keys()[29].len());
    assert(global_keys()[15].len() != global_keys()[30].len());
}

proof fn lemma_global_keys_distinct_2()
    ensures
        forall|i: int, j: int| 16 <= i < 24 && i < j < 31 ==> global_keys()[i] != global_keys()[j],
{
    reveal_strlit("FilterMode");
    reveal_strlit("AllowMultipleInstances");
    reveal_strlit("AlwaysOnTop");
    reveal_strlit("SortMode");
    reveal_strlit("SortOrder");
    reveal_strlit("SortNatural");
    reveal_strlit("MangaRtl");
    reveal_strlit("IsFirstRun");
    reveal_strlit("WindowX");
    reveal_strlit("WindowY");
    reveal_strlit("WindowWidth");
    reveal_strlit("WindowHeight");
    reveal_strlit("WindowResizable");
    reveal_strlit("WindowMaximized");
    reveal_strlit("WindowCentered");
    reveal_strlit("RecentPaths");
    reveal_strlit("Mouse4Action");
    reveal_strlit("Mouse5Action");
    reveal_strlit("MouseMiddleAction");
    reveal_strlit("LimiterMode");
    reveal_strlit("LimiterPageDuration");
    reveal_strlit("LimiterFolderDuration");
    reveal_strlit("LimiterStopAtStart");
    reveal_strlit("LimiterStopAtEnd");
    reveal_strlit("ShowPdfWarning");
    reveal_strlit("PdfRenderDpi");
    reveal_strlit("OpenFromEnd");
    reveal_strlit("MangaMode");
    reveal_strlit("DisplayMode");
    reveal_strlit("WindowMode");
    reveal_strlit("ShowTree");
    assert(global_keys()[16][5] != global_keys()[17][5]);
    assert(global_keys()[16].len() != global_keys()[18].len());
    assert(global_keys()[16].len() != global_keys()[19].len());
    assert(global_keys()[16].len() != global_keys()[20].len());
    assert(global_keys()[16].len() != global_keys()[21].len());
    assert(global_keys()[16].len() != global_keys()[22].len());
    assert(global_keys()[16].len() != global_keys()[23].len());
    assert(global_keys()[16].len() != global_keys()[24].len());
    assert(global_keys()[16][0] != global_keys()[25][0]);
    assert(global_keys()[16].len() != global_keys()[26].len());
    assert(global_keys()[16].len() != global_keys()[27].len());
    assert(global_keys()[16].len() != global_keys()[28].len());
    assert(global_keys()[16].len() != global_keys()[29].len());
    assert(global_keys()[16].len() != global_keys()[30].len());
    assert(global_keys()[17].len() != global_keys()[18].len());
    assert(global_keys()[17].len() != global_keys()[19].len());
    assert(global_keys()[17].len() != global_keys()[20].len());
    assert(global_keys()[17].len() != global_keys()[21].len());
    assert(global_keys()[17].len() != global_keys()[22].len());
    assert(global_keys()[17].len() != global_keys()[23].len());
    assert(global_keys()[17].len() != global_keys()[24].len());
    assert(global_keys()[17][0] != global_keys()[25][0]);
    assert(global_keys()[17].len() != global_keys()[26].len());
    assert(global_keys()[17].len() != global_keys()[27].len());
    assert(global_keys()[17].len() != global_keys()[28].len());
    assert(global_keys()[17].len() != global_keys()[29].len());
    assert(global_keys()[17].len() != global_keys()[30].len());
    assert(global_keys()[18].len() != global_keys()[19].len());
    assert(global_keys()[18].len() != global_keys()[20].len());
    assert(global_keys()[18].len() != global_keys()[21].len());
    assert(global_keys()[18].len() != global_keys()[22].len());
    assert(global_keys()[18].len() != global_keys()[23].len());
    assert(global_keys()[18].len() != global_keys()[24].len());
    assert(global_keys()[18].len() != global_keys()[25].len());
    assert(global_keys()[18].len() != global_keys()[26].len());
    assert(global_keys()[18].len() != global_keys()[27].len());
    assert(global_keys()[18].len() != global_keys()[28].len());
    assert(global_keys()[18].len() != global_keys()[29].len());
    assert(global_keys()[18].len() != global_keys()[30].len());
    assert(global_keys()[19].len() != global_keys()[20].len());
    assert(global_keys()[19].len() != global_keys()[21].len());
    assert(global_keys()[19].len() != global_keys()[22].len());
    assert(global_keys()[19].len() != global_keys()[23].len());
    assert(global_keys()[19].len() != global_keys()[24].len());
    assert(global_keys()[19].len() != global_keys()[25].len());
    assert(global_keys()[19][0] != global_keys()[26][0]);
    assert(global_keys()[19].len() != global_keys()[27].len());
    assert(global_keys()[19][0] != global_keys()[28][0]);
    assert(global_keys()[19].len() != global_keys()[29].len());
    assert(global_keys()[19].len() != global_keys()[30].len());
    assert(global_keys()[20].len() != global_keys()[21].len());
    assert(global_keys()[20].len() != global_keys()[22].len());
    assert(global_keys()[20].len() != global_keys()[23].len());
    assert(global_keys()[20].len() != global_keys()[24].len());
    assert(global_keys()[20].len() != global_keys()[25].len());
    assert(global_keys()[20].len() != global_keys()[26].len());
    assert(global_keys()[20].len() != global_keys()[27].len());
    assert(global_keys()[20].len() != global_keys()[28].len());
    assert(global_keys()[20].len() != global_keys()[29].len());
    assert(global_keys()[20].len() != global_keys()[30].len());
    assert(global_keys()[21].len() != global_keys()[22].len());
    assert(global_keys()[21].len() != global_keys()[23].len());
    assert(global_keys()[21].len() != global_keys()[24].len());
    assert(global_keys()[21].len() != global_keys()[25].len());
    assert(global_keys()[21].len() != global_keys()[26].len());
    assert(global_keys()[21].len() != global_keys()[27].len());
    assert(global_keys()[21].len() != global_keys()[28].len());
    assert(global_keys()[21].len() != global_keys()[29].len());
    assert(global_keys()[21].len() != global_keys()[30].len());
    assert(global_keys()[22].len() != global_keys()[23].len());
    assert(global_keys()[22].len() != global_keys()[24].len());
    assert(global_keys()[22].len() != global_keys()[25].len());
    assert(global_keys()[22].len() != global_keys()[26].len());
    assert(global_keys()[22].len() != global_keys()[27].len());
    assert(global_keys()[22].len() != global_keys()[28].len());
    assert(global_keys()[22].len() != global_keys()[29].len());
    assert(global_keys()[22].len() != global_keys()[30].len());
    assert(global_keys()[23].len() != global_keys()[24].len());
    assert(global_keys()[23].len() != global_keys()[25].len());
    assert(global_keys()[23].len() != global_keys()[26].len());
    assert(global_keys()[23].len() != global_keys()[27].len());
    assert(global_keys()[23].len() != global_keys()[28].len());
    assert(global_keys()[23].len() != global_keys()[29].len());
    assert(global_keys()[23].len() != global_keys()[30].len());
}

proof fn lemma_global_keys_distinct_3()
    ensures
        forall|i: int, j: int| 24 <= i < 31 && i < j < 31 ==> global_keys()[i] != global_keys()[j],
{
    reveal_strlit("FilterMode");
    reveal_strlit("AllowMultipleInstances");
    reveal_strlit("AlwaysOnTop");
    reveal_strlit("SortMode");
    reveal_strlit("SortOrder");
    reveal_strlit("SortNatural");
    reveal_strlit("MangaRtl");
    reveal_strlit("IsFirstRun");
    reveal_strlit("WindowX");
    reveal_strlit("WindowY");
    reveal_strlit("WindowWidth");
    reveal_strlit("WindowHeight");
    reveal_strlit("WindowResizable");
    reveal_strlit("WindowMaximized");
    reveal_strlit("WindowCentered");
    reveal_strlit("RecentPaths");
    reveal_strlit("Mouse4Action");
    reveal_strlit("Mouse5Action");
    reveal_strlit("MouseMiddleAction");
    reveal_strlit("LimiterMode");
    reveal_strlit("LimiterPageDuration");
    reveal_strlit("LimiterFolderDuration");
    reveal_strlit("LimiterStopAtStart");
    reveal_strlit("LimiterStopAtEnd");
    reveal_strlit("ShowPdfWarning");
    reveal_strlit("PdfRenderDpi");
    reveal_strlit("OpenFromEnd");
    reveal_strlit("MangaMode");
    reveal_strlit("DisplayMode");
    reveal_strlit("WindowMode");
    reveal_strlit("ShowTree");
    assert(global_keys()[24].len() != global_keys()[25].len());
    assert(global_keys()[24].len() != global_keys()[26].len());
    assert(global_keys()[24].len() != global_keys()[27].len());
    assert(global_keys()[24].len() != global_keys()[28].len());
    assert(global_keys()[24].len() != global_keys()[29].len());
    assert(global_keys()[24].len() != global_keys()[30].len());
    assert(global_keys()[25].len() != global_keys()[26].len());
    assert(global_keys()[25].len() != global_keys()[27].len());
    assert(global_keys()[25].len() != global_keys()[28].len());
    assert(global_keys()[25].len() != global_keys()[29].len());
    assert(global_keys()[25].len() != global_keys()[30].len());
    assert(global_keys()[26].len() != global_keys()[27].len());
    assert(global_keys()[26][0] != global_keys()[28][0]);
    assert(global_keys()[26].len() != global_keys()[29].len());
    assert(global_keys()[26].len() != global_keys()[30].len());
    assert(global_keys()[27].len() != global_keys()[28].len());
    assert(global_keys()[27].len() != global_keys()[29].len());
    assert(global_keys()[27].len() != global_keys()[30].len());
    assert(global_keys()[28].len() != global_keys()[29].len());
    assert(global_keys()[28].len() != global_keys()[30].len());
    assert(global_keys()[29].len() != global_keys()[30].len());
}

proof fn lemma_background_key_last()
    ensures
        global_keys()[31] == "BackgroundMode"@,
        forall|i: int| 0 <= i < 31 ==> #[trigger] global_keys()[i] != global_keys()[31],
{
    reveal_strlit("FilterMode");
    reveal_strlit("AllowMultipleInstances");
    reveal_strlit("AlwaysOnTop");
    reveal_strlit("SortMode");
    reveal_strlit("SortOrder");
    reveal_strlit("SortNatural");
    reveal_strlit("MangaRtl");
    reveal_strlit("IsFirstRun");
    reveal_strlit("WindowX");
    reveal_strlit("WindowY");
    reveal_strlit("WindowWidth");
    reveal_strlit("WindowHeight");
    reveal_strlit("WindowResizable");
    reveal_strlit("WindowMaximized");
    reveal_strlit("WindowCentered");
    reveal_strlit("RecentPaths");
    reveal_strlit("Mouse4Action");
    reveal_strlit("Mouse5Action");
    reveal_strlit("MouseMiddleAction");
    reveal_strlit("LimiterMode");
    reveal_strlit("LimiterPageDuration");
    reveal_strlit("LimiterFolderDuration");
    reveal_strlit("LimiterStopAtStart");
    reveal_strlit("LimiterStopAtEnd");
    reveal_strlit("ShowPdfWarning");
    reveal_strlit("PdfRenderDpi");
    reveal_strlit("OpenFromEnd");
    reveal_strlit("MangaMode");
    reveal_strlit("DisplayMode");
    reveal_strlit("WindowMode");
    reveal_strlit("ShowTree");
    reveal_strlit("BackgroundMode");
    assert(global_keys()[0].len() != "BackgroundMode"@.len());
    assert(global_keys()[1].len() != "BackgroundMode"@.len());
    assert(global_keys()[2].len() != "BackgroundMode"@.len());
    assert(global_keys()[3].len() != "BackgroundMode"@.len());
    assert(global_keys()[4].len() != "BackgroundMode"@.len());
    assert(global_keys()[5].len() != "BackgroundMode"@.len());
    assert(global_keys()[6].len() != "BackgroundMode"@.len());
    assert(global_keys()[7].len() != "BackgroundMode"@.len());
    assert(global_keys()[8].len() != "BackgroundMode"@.len());
    assert(global_keys()[9].len() != "BackgroundMode"@.len());
    assert(global_keys()[10].len() != "BackgroundMode"@.len());
    assert(global_keys()[11].len() != "BackgroundMode"@.len());
    assert(global_keys()[12].len() != "BackgroundMode"@.len());
    assert(global_keys()[13].len() != "BackgroundMode"@.len());
    assert(global_keys()[14][0] != "BackgroundMode"@[0]);
    assert(global_keys()[15].len() != "BackgroundMode"@.len());
    assert(global_keys()[16].len() != "BackgroundMode"@.len());
    assert(global_keys()[17].len() != "BackgroundMode"@.len());
    assert(global_keys()[18].len() != "BackgroundMode"@.len());
    assert(global_keys()[19].len() != "BackgroundMode"@.len());
    assert(global_keys()[20].len() != "BackgroundMode"@.len());
    assert(global_keys()[21].len() != "BackgroundMode"@.len());
    assert(global_keys()[22].len() != "BackgroundMode"@.len());
    assert(global_keys()[23].len() != "BackgroundMode"@.len());
    assert(global_keys()[24][0] != "BackgroundMode"@[0]);
    assert(global_keys()[25].len() != "BackgroundMode"@.len());
    assert(global_keys()[26].len() != "BackgroundMode"@.len());
    assert(global_keys()[27].len() != "BackgroundMode"@.len());
    assert(global_keys()[28].len() != "BackgroundMode"@.len());
    assert(global_keys()[29].len() != "BackgroundMode"@.len());
    assert(global_keys()[30].len() != "BackgroundMode"@.len());
}

/// Keys of an external program section, in the order they are written.
pub open spec fn app_keys() -> Seq<Seq<char>> {
    seq!["Name"@, "ExecutePath"@, "Args"@, "CloseAfterLaunch"@]
}

proof fn lemma_app_keys_distinct()
    ensures
        forall|i: int, j: int| 0 <= i < j < 4 ==> app_keys()[i] != app_keys()[j],
{
    reveal_strlit("Name");
    reveal_strlit("ExecutePath");
    reveal_strlit("Args");
    reveal_strlit("CloseAfterLaunch");
    assert(app_keys()[0].len() != app_keys()[1].len());
    assert(app_keys()[0][0] != app_keys()[2][0]);
    assert(app_keys()[0].len() != app_keys()[3].len());
    assert(app_keys()[1].len() != app_keys()[2].len());
    assert(app_keys()[1].len() != app_keys()[3].len());
    assert(app_keys()[2].len() != app_keys()[3].len());
}

} // verus!

verus! {

proof fn lemma_global_unique(c: ConfigView, t: NumberTexts)
    ensures
        unique_keys(global_pairs(c, t)),
        global_pairs(c, t).len() == 32,
        forall|j: int| 0 <= j < 32 ==> #[trigger] global_pairs(c, t)[j].0 == global_keys()[j],
{
    lemma_global_keys_distinct_0();
    lemma_global_keys_distinct_1();
    lemma_global_keys_distinct_2();
    lemma_global_keys_distinct_3();
    lemma_background_key_last();
    let g = global_pairs(c, t);
    assert(g.map_values(|p: (Seq<char>, Seq<char>)| p.0) =~= global_keys());
    assert forall|j: int| 0 <= j < 32 implies #[trigger] g[j].0 == global_keys()[j] by {
        assert(g.map_values(|p: (Seq<char>, Seq<char>)| p.0)[j] == g[j].0);
    }
}

proof fn lemma_app_pairs_unique(a: AppView)
    ensures
        unique_keys(app_pairs(a)),
{
    lemma_app_keys_distinct();
    assert(app_pairs(a).map_values(|p: (Seq<char>, Seq<char>)| p.0) =~= app_keys());
    assert forall|i: int, j: int| 0 <= i < j < 4 implies app_pairs(a)[i].0 != app_pairs(a)[j].0 by {
        assert(app_pairs(a).map_values(|p: (Seq<char>, Seq<char>)| p.0)[i] == app_pairs(a)[i].0);
        assert(app_pairs(a).map_values(|p: (Seq<char>, Seq<char>)| p.0)[j] == app_pairs(a)[j].0);
    }
}

proof fn lemma_app_names(i: nat, j: nat)
    ensures
        i != j ==> app_section_name(i) != app_section_name(j),
        app_section_name(i) != "Global"@,
        app_section_name(i) != "KeyConfig"@,
{
    reveal_strlit("App_");
    reveal_strlit("Global");
    reveal_strlit("KeyConfig");
    lemma_decimal_digits(i + 1);
    lemma_decimal_digits(j + 1);
    assert(app_section_name(i)[0] == 'A');
    if i != j && app_section_name(i) == app_section_name(j) {
        assert(app_section_name(i).skip(4) =~= decimal(i + 1));
        assert(app_section_name(j).skip(4) =~= decimal(j + 1));
    }
}

proof fn lemma_apps_saved_other(
    secs: Map<Seq<char>, Seq<(Seq<char>, Seq<char>)>>,
    apps: Seq<AppView>,
    n: nat,
    name: Seq<char>,
)
    requires
        forall|k: nat| k < n ==> app_section_name(k) != name,
    ensures
        section_pairs(apps_saved(secs, apps, n), name) == section_pairs(secs, name),
    decreases n,
{
    if n > 0 {
        lemma_apps_saved_other(secs, apps, (n - 1) as nat, name);
        let prev = apps_saved(secs, apps, (n - 1) as nat);
        lemma_set_all(prev, app_section_name((n - 1) as nat), app_pairs(apps[n - 1]));
        assert(app_section_name((n - 1) as nat) != name);
    }
}

proof fn lemma_apps_saved_app(
    secs: Map<Seq<char>, Seq<(Seq<char>, Seq<char>)>>,
    apps: Seq<AppView>,
    n: nat,
    i: nat,
)
    requires
        i < n,
        section_pairs(secs, app_section_name(i)).len() == 0,
    ensures
        section_pairs(apps_saved(secs, apps, n), app_section_name(i)) == app_pairs(apps[i as int]),
    decreases n,
{
    let prev = apps_saved(secs, apps, (n - 1) as nat);
    let last = app_section_name((n - 1) as nat);
    lemma_set_all(prev, last, app_pairs(apps[n - 1]));
    if i == n - 1 {
        assert forall|k: nat| k < (n - 1) as nat implies app_section_name(k) != app_section_name(i) by {
            lemma_app_names(k, i);
        }
        lemma_apps_saved_other(secs, apps, (n - 1) as nat, app_section_name(i));
        lemma_app_pairs_unique(apps[i as int]);
        lemma_set_fold_fresh(app_pairs(apps[i as int]));
        assert(section_pairs(prev, app_section_name(i)) =~= Seq::<(Seq<char>, Seq<char>)>::empty());
    } else {
        lemma_app_names(i, (n - 1) as nat);
        lemma_apps_saved_app(secs, apps, (n - 1) as nat, i);
    }
}

proof fn lemma_non_empty_all(ps: Seq<Seq<char>>)
    requires
        forall|a: int| 0 <= a < ps.len() ==> #[trigger] ps[a].len() > 0,
    ensures
        non_empty(ps) == ps,
    decreases ps.len(),
{
    if ps.len() > 0 {
        lemma_non_empty_all(ps.drop_last());
        assert(ps[ps.len() - 1].len() > 0);
        assert(ps.drop_last().push(ps.last()) == ps);
    }
}

proof fn lemma_recent_back(ps: Seq<Seq<char>>)
    requires
        forall|a: int| 0 <= a < ps.len() ==> #[trigger] ps[a].len() > 0,
        forall|a: int, k: int| 0 <= a < ps.len() && 0 <= k < ps[a].len() ==> ps[a][k] != '|',
    ensures
        non_empty(split(join(ps, "|"@), '|')) == ps,
{
    reveal_strlit("|");
    assert("|"@ =~= seq!['|']);
    if ps.len() == 0 {
        let e = Seq::<char>::empty();
        let one = seq![e];
        assert(split(e, '|') =~= one);
        assert(one.drop_last() =~= Seq::<Seq<char>>::empty());
        assert(non_empty(one.drop_last()) =~= Seq::<Seq<char>>::empty());
        assert(one.last().len() == 0);
        assert(non_empty(one) =~= ps);
    } else {
        law_split_join(ps, '|');
        lemma_non_empty_all(ps);
    }
}

proof fn lemma_app_back(d: AppView, a: AppView)
    requires
        forall|x: int| 0 <= x < a.args.len() ==> #[trigger] a.args[x].len() > 0,
        forall|x: int, k: int| 0 <= x < a.args.len() && 0 <= k < a.args[x].len() ==> !is_ws(
            a.args[x][k],
        ),
    ensures
        read_app(d, app_pairs(a)) == a,
{
    lemma_app_pairs_unique(a);
    let p = app_pairs(a);
    reveal_strlit("Name");
    reveal_strlit("ExecutePath");
    reveal_strlit("Args");
    reveal_strlit("CloseAfterLaunch");
    reveal_strlit(" ");
    assert(" "@ =~= seq![' ']);
    lemma_lookup_unique(p, 0);
    lemma_lookup_unique(p, 1);
    lemma_lookup_unique(p, 2);
    lemma_lookup_unique(p, 3);
    law_split_ws_join(a.args);
    assert(bool_text(false) != bool_text(true));
    assert(read_app(d, p) =~= a);
}

/// Where each section of the saved file comes from.
proof fn lemma_saved_shape(c: ConfigView, key_order: Seq<(Seq<char>, Seq<char>)>, t: NumberTexts)
    requires
        unique_keys(key_order),
        c.external_apps.len() == 9,
    ensures
        global_of(saved_sections(c, key_order, t)) == global_pairs(c, t),
        section_pairs(saved_sections(c, key_order, t), "KeyConfig"@) == key_order,
        forall|i: int|
            0 <= i < 9 ==> #[trigger] section_pairs(
                saved_sections(c, key_order, t),
                app_section_name(i as nat),
            ) == app_pairs(c.external_apps[i]),
{
    let g = global_pairs(c, t);
    let s0 = set_all(no_sections(), "Global"@, g);
    let s1 = apps_saved(s0, c.external_apps, c.external_apps.len());
    let s2 = set_all(s1, "KeyConfig"@, key_order);
    assert(s2 == saved_sections(c, key_order, t));
    reveal_strlit("Global");
    reveal_strlit("KeyConfig");
    assert("Global"@ != "KeyConfig"@) by {
        assert("Global"@[0] != "KeyConfig"@[0]);
    }
    lemma_global_unique(c, t);
    lemma_set_all(no_sections(), "Global"@, g);
    lemma_set_fold_fresh(g);
    assert(section_pairs(no_sections(), "Global"@) =~= Seq::<(Seq<char>, Seq<char>)>::empty());
    assert forall|k: nat| k < 9 implies app_section_name(k) != "Global"@ by {
        lemma_app_names(k, k);
    }
    lemma_apps_saved_other(s0, c.external_apps, 9, "Global"@);
    lemma_set_all(s1, "KeyConfig"@, key_order);
    assert(global_of(s2) == g);
    assert forall|i: int| 0 <= i < 9 implies #[trigger] section_pairs(s2, app_section_name(i as nat))
        == app_pairs(c.external_apps[i]) by {
        lemma_app_names(i as nat, i as nat);
        assert(section_pairs(s0, app_section_name(i as nat)) == section_pairs(
            no_sections(),
            app_section_name(i as nat),
        ));
        assert(section_pairs(no_sections(), app_section_name(i as nat)).len() == 0);
        lemma_apps_saved_app(s0, c.external_apps, 9, i as nat);
    }
    assert forall|k: nat| k < 9 implies app_section_name(k) != "KeyConfig"@ by {
        lemma_app_names(k, k);
    }
    lemma_apps_saved_other(s0, c.external_apps, 9, "KeyConfig"@);
    assert(section_pairs(s0, "KeyConfig"@) == section_pairs(no_sections(), "KeyConfig"@));
    assert(section_pairs(no_sections(), "KeyConfig"@) =~= Seq::<(Seq<char>, Seq<char>)>::empty());
    lemma_set_fold_fresh(key_order);
}

/// Every key of the `Global` section finds the value written under it.
proof fn lemma_global_lookup(c: ConfigView, t: NumberTexts)
    ensures
        forall|j: int|
            0 <= j < 32 ==> pairs_lookup(global_pairs(c, t), #[trigger] global_keys()[j]) == Some(
                global_pairs(c, t)[j].1,
            ),
{
    let g = global_pairs(c, t);
    lemma_global_unique(c, t);
    assert forall|j: int| 0 <= j < 32 implies pairs_lookup(g, #[trigger] global_keys()[j]) == Some(g[j].1) by {
        lemma_lookup_unique(g, j);
    }
}

/// The first flags and the sort settings of the `Global` section read back.
#[verifier::spinoff_prover]
#[verifier::rlimit(50)]
proof fn lemma_global_back_a(c: ConfigView, t: NumberTexts)
    ensures
        read_flag(global_pairs(c, t), "AllowMultipleInstances"@, default_config().allow_multiple_instances)
            == c.allow_multiple_instances,
        read_flag(global_pairs(c, t), "AlwaysOnTop"@, default_config().always_on_top) == c.always_on_top,
        pairs_lookup(global_pairs(c, t), "SortMode"@) == Some(sort_mode_text(c.sort_mode)),
        pairs_lookup(global_pairs(c, t), "SortOrder"@) == Some(sort_order_text(c.sort_order)),
        read_flag(global_pairs(c, t), "SortNatural"@, default_config().sort_natural) == c.sort_natural,
{
    lemma_global_lookup(c, t);
    assert(bool_text(false) != bool_text(true));
    assert(global_keys()[1] == "AllowMultipleInstances"@);
    assert(global_keys()[2] == "AlwaysOnTop"@);
    assert(global_keys()[3] == "SortMode"@);
    assert(global_keys()[4] == "SortOrder"@);
    assert(global_keys()[5] == "SortNatural"@);
}

/// The remaining window and reading flags of the `Global` section read back.
#[verifier::spinoff_prover]
#[verifier::rlimit(50)]
proof fn lemma_global_back_a2(c: ConfigView, t: NumberTexts)
    ensures
        read_flag(global_pairs(c, t), "MangaRtl"@, default_config().manga_rtl) == c.manga_rtl,
        read_flag(global_pairs(c, t), "IsFirstRun"@, default_config().is_first_run) == c.is_first_run,
        read_flag(global_pairs(c, t), "WindowResizable"@, default_config().window_resizable)
            == c.window_resizable,
        read_flag(global_pairs(c, t), "WindowMaximized"@, default_config().window_maximized)
            == c.window_maximized,
        read_flag(global_pairs(c, t), "WindowCentered"@, default_config().window_centered)
            == c.window_centered,
{
    lemma_global_lookup(c, t);
    assert(bool_text(false) != bool_text(true));
    assert(global_keys()[6] == "MangaRtl"@);
    assert(global_keys()[7] == "IsFirstRun"@);
    assert(global_keys()[12] == "WindowResizable"@);
    assert(global_keys()[13] == "WindowMaximized"@);
    assert(global_keys()[14] == "WindowCentered"@);
}

/// The filter mode read back.
proof fn lemma_global_back_filter(c: ConfigView, t: NumberTexts)
    ensures
        read_filter(global_pairs(c, t), default_config().filter_mode) == c.filter_mode,
{
    lemma_global_lookup(c, t);
    assert(global_keys()[0] == "FilterMode"@);
    law_filter_name_roundtrip(c.filter_mode);
}

/// The recent paths read back.
proof fn lemma_global_back_recent(c: ConfigView, t: NumberTexts)
    requires
        forall|a: int| 0 <= a < c.recent_paths.len() ==> #[trigger] c.recent_paths[a].len() > 0,
        forall|a: int, k: int|
            0 <= a < c.recent_paths.len() && 0 <= k < c.recent_paths[a].len() ==> #[trigger] c.recent_paths[a][k]
                != '|',
    ensures
        read_recent(global_pairs(c, t), default_config().recent_paths) == c.recent_paths,
{
    lemma_global_lookup(c, t);
    assert(global_keys()[15] == "RecentPaths"@);
    lemma_recent_back(c.recent_paths);
}

/// The second half of the `Global` values read back.
#[verifier::spinoff_prover]
#[verifier::rlimit(50)]
proof fn lemma_global_back_b(c: ConfigView, t: NumberTexts)
    requires
        72 <= c.pdf_render_dpi <= 600,
    ensures
        read_text(global_pairs(c, t), "Mouse4Action"@, default_config().mouse4_action) == c.mouse4_action,
        read_text(global_pairs(c, t), "Mouse5Action"@, default_config().mouse5_action) == c.mouse5_action,
        read_text(global_pairs(c, t), "MouseMiddleAction"@, default_config().mouse_middle_action)
            == c.mouse_middle_action,
        read_limiter(global_pairs(c, t), default_config().limiter_mode) == c.limiter_mode,
        read_flag(global_pairs(c, t), "LimiterStopAtStart"@, default_config().limiter_stop_at_start)
            == c.limiter_stop_at_start,
        read_flag(global_pairs(c, t), "LimiterStopAtEnd"@, default_config().limiter_stop_at_end)
            == c.limiter_stop_at_end,
        read_dpi(global_pairs(c, t), default_config().pdf_render_dpi) == c.pdf_render_dpi,
        read_flag(global_pairs(c, t), "OpenFromEnd"@, default_config().open_from_end) == c.open_from_end,
        read_flag(global_pairs(c, t), "MangaMode"@, default_config().manga_mode) == c.manga_mode,
        pairs_lookup(global_pairs(c, t), "DisplayMode"@) == Some(display_mode_text(c.display_mode)),
        read_window_mode(global_pairs(c, t), default_config().window_mode) == c.window_mode,
        read_flag(global_pairs(c, t), "ShowTree"@, default_config().show_tree) == c.show_tree,
        read_flag(global_pairs(c, t), "ShowPdfWarning"@, default_config().show_pdf_warning)
            == c.show_pdf_warning,
        pairs_lookup(global_pairs(c, t), "BackgroundMode"@) == Some(background_mode_text(c.bg_mode)),
{
    let g = global_pairs(c, t);
    lemma_global_lookup(c, t);
    assert(bool_text(false) != bool_text(true));
    assert(global_keys()[16] == "Mouse4Action"@);
    assert(global_keys()[17] == "Mouse5Action"@);
    assert(global_keys()[18] == "MouseMiddleAction"@);
    assert(global_keys()[19] == "LimiterMode"@);
    assert(global_keys()[22] == "LimiterStopAtStart"@);
    assert(global_keys()[23] == "LimiterStopAtEnd"@);
    assert(global_keys()[25] == "PdfRenderDpi"@);
    assert(global_keys()[26] == "OpenFromEnd"@);
    assert(global_keys()[27] == "MangaMode"@);
    assert(global_keys()[28] == "DisplayMode"@);
    assert(global_keys()[29] == "WindowMode"@);
    assert(global_keys()[30] == "ShowTree"@);
    assert(global_keys()[24] == "ShowPdfWarning"@);
    assert(global_keys()[31] == "BackgroundMode"@);
    law_window_name_roundtrip(c.window_mode);
    law_parse_decimal_roundtrip(c.pdf_render_dpi as nat, u32::MAX as nat);
}

/// Saving the settings and reading the saved file back gives the same settings.
/// This holds for settings whose values the file can carry: nine external programs,
/// arguments and recent paths that survive being joined and split again, a PDF resolution
/// inside 72..=600, and every default key action still bound.
pub proof fn law_settings_roundtrip(
    c: ConfigView,
    key_order: Seq<(Seq<char>, Seq<char>)>,
    t: NumberTexts,
)
    requires
        unique_keys(key_order),
        pairs_to_map(key_order) == c.keys,
        default_keys().dom().subset_of(c.keys.dom()),
        c.external_apps.len() == 9,
        forall|i: int, x: int|
            0 <= i < 9 && 0 <= x < c.external_apps[i].args.len() ==> #[trigger] c.external_apps[i].args[x].len()
                > 0,
        forall|i: int, x: int, k: int|
            0 <= i < 9 && 0 <= x < c.external_apps[i].args.len() && 0 <= k
                < c.external_apps[i].args[x].len() ==> !is_ws(#[trigger] c.external_apps[i].args[x][k]),
        forall|a: int| 0 <= a < c.recent_paths.len() ==> #[trigger] c.recent_paths[a].len() > 0,
        forall|a: int, k: int|
            0 <= a < c.recent_paths.len() && 0 <= k < c.recent_paths[a].len() ==> #[trigger] c.recent_paths[a][k]
                != '|',
        72 <= c.pdf_render_dpi <= 600,
    ensures
        config_from_sections(saved_sections(c, key_order, t)) == c,
{
    let s = saved_sections(c, key_order, t);
    lemma_saved_shape(c, key_order, t);
    lemma_keys_back(default_keys(), key_order);
    lemma_global_back_a(c, t);
    lemma_global_back_a2(c, t);
    lemma_global_back_filter(c, t);
    lemma_global_back_recent(c, t);
    lemma_global_back_b(c, t);
    lemma_global_lookup(c, t);
    law_sort_mode_name_roundtrip(c.sort_mode);
    law_sort_order_name_roundtrip(c.sort_order);
    law_display_name_roundtrip(c.display_mode);
    law_background_name_roundtrip(c.bg_mode);
    let r = config_from_sections(s);
    assert forall|i: int| 0 <= i < 9 implies #[trigger] r.external_apps[i] == c.external_apps[i] by {
        assert(forall|x: int| 0 <= x < c.external_apps[i].args.len() ==> #[trigger] c.external_apps[i].args[x].len() > 0);
        lemma_app_back(default_config().external_apps[i], c.external_apps[i]);
    }
    assert(r.external_apps =~= c.external_apps);
    assert(r =~= c);
}

} // verus!
