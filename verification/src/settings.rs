use vstd::prelude::*;
use crate::text::{
    bool_text, join, bool_string, join_chars, lowercase, split, split_ws, decimal, parse_unsigned, str_chars, is_true_text,
    string_of, split_chars, split_whitespace_chars, parse_unsigned_chars, decimal_chars,
};
use crate::startup::opt_view;
use crate::keymap_store::{pairs_lookup, pairs_get, string_pairs_view, insert_all};
use ini::Ini;
use crate::ini_store::{
    section_pairs, ini_sections, ini_section_pairs, section_set, no_sections, ini_new, ini_set, parsed_ini,
    ini_from_text,
};
use crate::config::{
    ConfigView, AppView, FilterMode, WindowMode, ExternalAppConfig, default_config, filter_mode_of,
    sort_mode_of, sort_order_of, background_mode_of, display_mode_of, window_mode_of, strings_view,
    parse_filter_mode, parse_window_mode, Config, default_key_map, parse_sort_mode,
    parse_sort_order, parse_background_mode, parse_display_mode, apps_view, filter_mode_text,
    sort_mode_text, sort_order_text, display_mode_text, window_mode_text, filter_mode_name,
    sort_mode_name, sort_order_name, display_mode_name, window_mode_name, background_mode_name,
    background_mode_text,
};

verus! {

/// Pairs of the `Global` section.
pub open spec fn global_of(secs: Map<Seq<char>, Seq<(Seq<char>, Seq<char>)>>) -> Seq<
    (Seq<char>, Seq<char>),
> {
    section_pairs(secs, "Global"@)
}

/// A flag: `true` exactly when the value is the text `true`; `d` when absent.
pub open spec fn read_flag(g: Seq<(Seq<char>, Seq<char>)>, key: Seq<char>, d: bool) -> bool {
    match pairs_lookup(g, key) {
        Some(v) => v == bool_text(true),
        None => d,
    }
}

/// A text value, or `d` when absent.
pub open spec fn read_text(g: Seq<(Seq<char>, Seq<char>)>, key: Seq<char>, d: Seq<char>) -> Seq<
    char,
> {
    match pairs_lookup(g, key) {
        Some(v) => v,
        None => d,
    }
}

/// Filter mode: `FilterMode` by name, else the older `LinearFilter` flag.
pub open spec fn read_filter(g: Seq<(Seq<char>, Seq<char>)>, d: FilterMode) -> FilterMode {
    match pairs_lookup(g, "FilterMode"@) {
        Some(v) => filter_mode_of(lowercase(v)),
        None => match pairs_lookup(g, "LinearFilter"@) {
            Some(v) => if v == bool_text(true) {
                FilterMode::Bilinear
            } else {
                FilterMode::Nearest
            },
            None => d,
        },
    }
}

/// The non-empty pieces, order kept.
pub open spec fn non_empty(pieces: Seq<Seq<char>>) -> Seq<Seq<char>>
    decreases pieces.len(),
{
    if pieces.len() == 0 {
        pieces
    } else if pieces.last().len() == 0 {
        non_empty(pieces.drop_last())
    } else {
        non_empty(pieces.drop_last()).push(pieces.last())
    }
}

/// Recent paths: the non-empty pieces between `|`.
pub open spec fn read_recent(g: Seq<(Seq<char>, Seq<char>)>, d: Seq<Seq<char>>) -> Seq<Seq<char>> {
    match pairs_lookup(g, "RecentPaths"@) {
        Some(v) => non_empty(split(v, '|')),
        None => d,
    }
}

/// Limiter flag, under its current name or one of two older ones.
pub open spec fn read_limiter(g: Seq<(Seq<char>, Seq<char>)>, d: bool) -> bool {
    match pairs_lookup(g, "LimiterMode"@) {
        Some(v) => v == bool_text(true),
        None => match pairs_lookup(g, "ReadingMode"@) {
            Some(v) => v == bool_text(true),
            None => match pairs_lookup(g, "PreviewMode"@) {
                Some(v) => v == bool_text(true),
                None => d,
            },
        },
    }
}

/// `n` held to `lo..=hi`.
pub open spec fn clamp(n: nat, lo: nat, hi: nat) -> nat {
    if n < lo {
        lo
    } else if n > hi {
        hi
    } else {
        n
    }
}

/// PDF resolution: a number, held to 72..=600; unreadable text keeps `d`.
pub open spec fn read_dpi(g: Seq<(Seq<char>, Seq<char>)>, d: u32) -> u32 {
    match pairs_lookup(g, "PdfRenderDpi"@) {
        Some(v) => match parse_unsigned(v, u32::MAX as nat) {
            Some(n) => clamp(n, 72, 600) as u32,
            None => d,
        },
        None => d,
    }
}

/// Window mode by name, else the older full-screen and borderless flags.
pub open spec fn read_window_mode(g: Seq<(Seq<char>, Seq<char>)>, d: WindowMode) -> WindowMode {
    match pairs_lookup(g, "WindowMode"@) {
        Some(v) => window_mode_of(lowercase(v)),
        None => if pairs_lookup(g, "IsFullscreen"@) == Some(bool_text(true)) {
            WindowMode::Fullscreen
        } else if pairs_lookup(g, "IsSmallBorderless"@) == Some(bool_text(true)) {
            WindowMode::Borderless
        } else {
            d
        },
    }
}

/// Name of the section of external program `i` (counted from zero): `App_1`, `App_2`, ...
pub open spec fn app_section_name(i: nat) -> Seq<char> {
    "App_"@ + decimal(i + 1)
}

/// An external program entry read from its section over the defaults `d`.
pub open spec fn read_app(d: AppView, p: Seq<(Seq<char>, Seq<char>)>) -> AppView {
    AppView {
        name: read_text(p, "Name"@, d.name),
        exe: read_text(p, "ExecutePath"@, d.exe),
        args: match pairs_lookup(p, "Args"@) {
            Some(v) => split_ws(v),
            None => d.args,
        },
        close_after_launch: read_flag(p, "CloseAfterLaunch"@, d.close_after_launch),
    }
}

/// The settings a loaded settings file stands for: defaults, overridden by what it holds.
pub open spec fn config_from_sections(secs: Map<Seq<char>, Seq<(Seq<char>, Seq<char>)>>) -> ConfigView {
    let g = global_of(secs);
    let d = default_config();
    ConfigView {
        external_apps: Seq::new(
            9,
            |i: int| read_app(d.external_apps[i], section_pairs(secs, app_section_name(i as nat))),
        ),
        filter_mode: read_filter(g, d.filter_mode),
        allow_multiple_instances: read_flag(g, "AllowMultipleInstances"@, d.allow_multiple_instances),
        always_on_top: read_flag(g, "AlwaysOnTop"@, d.always_on_top),
        sort_mode: match pairs_lookup(g, "SortMode"@) {
            Some(v) => sort_mode_of(lowercase(v)),
            None => d.sort_mode,
        },
        sort_order: match pairs_lookup(g, "SortOrder"@) {
            Some(v) => sort_order_of(lowercase(v)),
            None => d.sort_order,
        },
        sort_natural: read_flag(g, "SortNatural"@, d.sort_natural),
        manga_rtl: read_flag(g, "MangaRtl"@, d.manga_rtl),
        open_from_end: read_flag(g, "OpenFromEnd"@, d.open_from_end),
        bg_mode: match pairs_lookup(g, "BackgroundMode"@) {
            Some(v) => background_mode_of(lowercase(v)),
            None => d.bg_mode,
        },
        keys: insert_all(d.keys, section_pairs(secs, "KeyConfig"@)),
        is_first_run: read_flag(g, "IsFirstRun"@, d.is_first_run),
        recent_paths: read_recent(g, d.recent_paths),
        window_resizable: read_flag(g, "WindowResizable"@, d.window_resizable),
        window_maximized: read_flag(g, "WindowMaximized"@, d.window_maximized),
        window_centered: read_flag(g, "WindowCentered"@, d.window_centered),
        mouse4_action: read_text(g, "Mouse4Action"@, d.mouse4_action),
        mouse5_action: read_text(g, "Mouse5Action"@, d.mouse5_action),
        mouse_middle_action: read_text(g, "MouseMiddleAction"@, d.mouse_middle_action),
        limiter_mode: read_limiter(g, d.limiter_mode),
        limiter_stop_at_start: read_flag(g, "LimiterStopAtStart"@, d.limiter_stop_at_start),
        limiter_stop_at_end: read_flag(g, "LimiterStopAtEnd"@, d.limiter_stop_at_end),
        show_pdf_warning: read_flag(g, "ShowPdfWarning"@, d.show_pdf_warning),
        pdf_render_dpi: read_dpi(g, d.pdf_render_dpi),
        manga_mode: read_flag(g, "MangaMode"@, d.manga_mode),
        display_mode: match pairs_lookup(g, "DisplayMode"@) {
            Some(v) => display_mode_of(lowercase(v)),
            None => d.display_mode,
        },
        window_mode: read_window_mode(g, d.window_mode),
        show_tree: read_flag(g, "ShowTree"@, d.show_tree),
    }
}

fn get_flag(g: &Vec<(String, String)>, key: &str, d: bool) -> (r: bool)
    ensures
        r == read_flag(string_pairs_view(g@), key@, d),
{
    match pairs_get(g, key) {
        Some(v) => {
            let c = str_chars(v.as_str());
            is_true_text(&c)
        },
        None => d,
    }
}

fn get_text(g: &Vec<(String, String)>, key: &str, d: String) -> (r: String)
    ensures
        r@ == read_text(string_pairs_view(g@), key@, d@),
{
    match pairs_get(g, key) {
        Some(v) => v.clone(),
        None => d,
    }
}

fn is_true_str(v: &String) -> (r: bool)
    ensures
        r == (v@ == bool_text(true)),
{
    let c = str_chars(v.as_str());
    is_true_text(&c)
}

fn get_filter(g: &Vec<(String, String)>, d: FilterMode) -> (r: FilterMode)
    ensures
        r == read_filter(string_pairs_view(g@), d),
{
    match pairs_get(g, "FilterMode") {
        Some(v) => parse_filter_mode(v.as_str()),
        None => match pairs_get(g, "LinearFilter") {
            Some(v) => if is_true_str(v) {
                FilterMode::Bilinear
            } else {
                FilterMode::Nearest
            },
            None => d,
        },
    }
}

/// The non-empty pieces of `pieces`, order kept.
fn keep_non_empty(pieces: Vec<Vec<char>>) -> (r: Vec<String>)
    ensures
        strings_view(r@) == non_empty(pieces@.map_values(|p: Vec<char>| p@)),
{
    let ghost pv = pieces@.map_values(|p: Vec<char>| p@);
    let mut r: Vec<String> = Vec::new();
    let mut i: usize = 0;
    assert(strings_view(r@) =~= non_empty(pv.take(0)));
    while i < pieces.len()
        invariant
            i <= pieces.len(),
            pv == pieces@.map_values(|p: Vec<char>| p@),
            strings_view(r@) == non_empty(pv.take(i as int)),
        decreases pieces.len() - i,
    {
        assert(pv.take(i as int + 1).drop_last() == pv.take(i as int));
        if pieces[i].len() > 0 {
            let s = string_of(&pieces[i]);
            let ghost before = r@;
            r.push(s);
            assert(strings_view(r@) =~= strings_view(before).push(s@));
        }
        i = i + 1;
    }
    assert(pv.take(pieces.len() as int) == pv);
    r
}

fn get_recent(g: &Vec<(String, String)>, d: Vec<String>) -> (r: Vec<String>)
    ensures
        strings_view(r@) == read_recent(string_pairs_view(g@), strings_view(d@)),
{
    match pairs_get(g, "RecentPaths") {
        Some(v) => {
            let c = str_chars(v.as_str());
            let pieces = split_chars(&c, '|');
            keep_non_empty(pieces)
        },
        None => d,
    }
}

fn get_limiter(g: &Vec<(String, String)>, d: bool) -> (r: bool)
    ensures
        r == read_limiter(string_pairs_view(g@), d),
{
    match pairs_get(g, "LimiterMode") {
        Some(v) => is_true_str(v),
        None => match pairs_get(g, "ReadingMode") {
            Some(v) => is_true_str(v),
            None => match pairs_get(g, "PreviewMode") {
                Some(v) => is_true_str(v),
                None => d,
            },
        },
    }
}

fn get_dpi(g: &Vec<(String, String)>, d: u32) -> (r: u32)
    ensures
        r == read_dpi(string_pairs_view(g@), d),
{
    match pairs_get(g, "PdfRenderDpi") {
        Some(v) => {
            let c = str_chars(v.as_str());
            match parse_unsigned_chars(&c, u32::MAX as u64) {
                Some(n) => if n < 72 {
                    72
                } else if n > 600 {
                    600
                } else {
                    n as u32
                },
                None => d,
            }
        },
        None => d,
    }
}

fn get_window_mode(g: &Vec<(String, String)>, d: WindowMode) -> (r: WindowMode)
    ensures
        r == read_window_mode(string_pairs_view(g@), d),
{
    match pairs_get(g, "WindowMode") {
        Some(v) => parse_window_mode(v.as_str()),
        None => {
            let fs = match pairs_get(g, "IsFullscreen") {
                Some(v) => is_true_str(v),
                None => false,
            };
            if fs {
                WindowMode::Fullscreen
            } else {
                let sb = match pairs_get(g, "IsSmallBorderless") {
                    Some(v) => is_true_str(v),
                    None => false,
                };
                if sb {
                    WindowMode::Borderless
                } else {
                    d
                }
            }
        },
    }
}

/// `App_1` for `i == 0`, and so on.
pub fn app_section(i: usize) -> (r: String)
    requires
        i < usize::MAX,
    ensures
        r@ == app_section_name(i as nat),
{
    let mut v: Vec<char> = Vec::new();
    v.push('A');
    v.push('p');
    v.push('p');
    v.push('_');
    let d = decimal_chars((i + 1) as u64);
    let mut k: usize = 0;
    let ghost prefix = v@;
    proof {
        reveal_strlit("App_");
        assert(prefix =~= "App_"@);
    }
    while k < d.len()
        invariant
            k <= d.len(),
            v@ == prefix + d@.take(k as int),
        decreases d.len() - k,
    {
        v.push(d[k]);
        k = k + 1;
    }
    assert(d@.take(d.len() as int) == d@);
    string_of(&v)
}

fn read_app_entry(d: &ExternalAppConfig, p: &Vec<(String, String)>) -> (r: ExternalAppConfig)
    ensures
        r@ == read_app(d@, string_pairs_view(p@)),
{
    let args = match pairs_get(p, "Args") {
        Some(v) => {
            let c = str_chars(v.as_str());
            let words = split_whitespace_chars(&c);
            let mut out: Vec<String> = Vec::new();
            let mut i: usize = 0;
            while i < words.len()
                invariant
                    i <= words.len(),
                    strings_view(out@) == words@.map_values(|w: Vec<char>| w@).take(i as int),
                decreases words.len() - i,
            {
                let ghost before = out@;
                out.push(string_of(&words[i]));
                assert(strings_view(out@) =~= strings_view(before).push(words@[i as int]@));
                assert(words@.map_values(|w: Vec<char>| w@).take(i as int + 1)
                    =~= words@.map_values(|w: Vec<char>| w@).take(i as int).push(words@[i as int]@));
                i = i + 1;
            }
            assert(words@.map_values(|w: Vec<char>| w@).take(words.len() as int)
                == words@.map_values(|w: Vec<char>| w@));
            out
        },
        None => d.args.clone(),
    };
    let r = ExternalAppConfig {
        name: get_text(p, "Name", d.name.clone()),
        exe: get_text(p, "ExecutePath", d.exe.clone()),
        args,
        close_after_launch: get_flag(p, "CloseAfterLaunch", d.close_after_launch),
    };
    assert(r@ =~= read_app(d@, string_pairs_view(p@)));
    r
}


/// Pairs of the section `name`, none when it is absent.
fn section_or_empty(ini: &Ini, name: &str) -> (r: Vec<(String, String)>)
    ensures
        string_pairs_view(r@) == section_pairs(ini_sections(*ini), name@),
{
    match ini_section_pairs(ini, name) {
        Some(v) => v,
        None => {
            let v: Vec<(String, String)> = Vec::new();
            assert(string_pairs_view(v@) =~= Seq::<(Seq<char>, Seq<char>)>::empty());
            v
        },
    }
}

/// The settings a loaded settings file stands for: the defaults, with every value the
/// file holds (in `Global`, `App_1`..`App_9` and `KeyConfig`) put over them.
#[verifier::rlimit(60)]
pub fn config_from_ini(ini: &Ini) -> (r: Config)
    ensures
        r.wf(),
        r@ == config_from_sections(ini_sections(*ini)),
{
    let ghost secs = ini_sections(*ini);
    let d = Config::default();
    let g = section_or_empty(ini, "Global");
    let mut apps: Vec<ExternalAppConfig> = Vec::new();
    let mut i: usize = 0;
    assert(d.external_apps@.len() == apps_view(d.external_apps@).len());
    while i < 9
        invariant
            i <= 9,
            d.external_apps@.len() == 9,
            secs == ini_sections(*ini),
            apps_view(d.external_apps@) == default_config().external_apps,
            apps@.len() == i,
            forall|k: int|
                0 <= k < i ==> (#[trigger] apps@[k])@ == read_app(
                    default_config().external_apps[k],
                    section_pairs(secs, app_section_name(k as nat)),
                ),
        decreases 9 - i,
    {
        let name = app_section(i);
        let p = section_or_empty(ini, name.as_str());
        assert(d.external_apps@[i as int]@ == default_config().external_apps[i as int]);
        apps.push(read_app_entry(&d.external_apps[i], &p));
        i = i + 1;
    }
    let mut keys = default_key_map();
    let kv = section_or_empty(ini, "KeyConfig");
    let ghost kview = string_pairs_view(kv@);
    let mut k: usize = 0;
    while k < kv.len()
        invariant
            k <= kv.len(),
            kview == string_pairs_view(kv@),
            keys.wf(),
            keys@ == insert_all(default_config().keys, kview.take(k as int)),
        decreases kv.len() - k,
    {
        keys.insert(kv[k].0.clone(), kv[k].1.clone());
        assert(kview.take(k as int + 1).drop_last() == kview.take(k as int));
        k = k + 1;
    }
    assert(kview.take(kv.len() as int) == kview);
    let filter_mode = get_filter(&g, d.filter_mode);
    let sort_mode = match pairs_get(&g, "SortMode") {
        Some(v) => parse_sort_mode(v.as_str()),
        None => d.sort_mode,
    };
    let sort_order = match pairs_get(&g, "SortOrder") {
        Some(v) => parse_sort_order(v.as_str()),
        None => d.sort_order,
    };
    let bg_mode = match pairs_get(&g, "BackgroundMode") {
        Some(v) => parse_background_mode(v.as_str()),
        None => d.bg_mode,
    };
    let display_mode = match pairs_get(&g, "DisplayMode") {
        Some(v) => parse_display_mode(v.as_str()),
        None => d.display_mode,
    };
    let r = Config {
        external_apps: apps,
        filter_mode,
        allow_multiple_instances: get_flag(&g, "AllowMultipleInstances", d.allow_multiple_instances),
        always_on_top: get_flag(&g, "AlwaysOnTop", d.always_on_top),
        sort_mode,
        sort_order,
        sort_natural: get_flag(&g, "SortNatural", d.sort_natural),
        manga_rtl: get_flag(&g, "MangaRtl", d.manga_rtl),
        open_from_end: get_flag(&g, "OpenFromEnd", d.open_from_end),
        bg_mode,
        keys,
        is_first_run: get_flag(&g, "IsFirstRun", d.is_first_run),
        recent_paths: get_recent(&g, d.recent_paths),
        window_resizable: get_flag(&g, "WindowResizable", d.window_resizable),
        window_maximized: get_flag(&g, "WindowMaximized", d.window_maximized),
        window_centered: get_flag(&g, "WindowCentered", d.window_centered),
        mouse4_action: get_text(&g, "Mouse4Action", d.mouse4_action),
        mouse5_action: get_text(&g, "Mouse5Action", d.mouse5_action),
        mouse_middle_action: get_text(&g, "MouseMiddleAction", d.mouse_middle_action),
        limiter_mode: get_limiter(&g, d.limiter_mode),
        limiter_stop_at_start: get_flag(&g, "LimiterStopAtStart", d.limiter_stop_at_start),
        limiter_stop_at_end: get_flag(&g, "LimiterStopAtEnd", d.limiter_stop_at_end),
        show_pdf_warning: get_flag(&g, "ShowPdfWarning", d.show_pdf_warning),
        pdf_render_dpi: get_dpi(&g, d.pdf_render_dpi),
        manga_mode: get_flag(&g, "MangaMode", d.manga_mode),
        display_mode,
        window_mode: get_window_mode(&g, d.window_mode),
        show_tree: get_flag(&g, "ShowTree", d.show_tree),
    };
    assert(apps_view(r.external_apps@) =~= config_from_sections(secs).external_apps);
    assert(r@ =~= config_from_sections(secs));
    r
}

/// Settings for a first start without a settings file. A settings file named on the
/// command line does not count as a first start.
pub fn fresh_config(named_on_command_line: bool) -> (r: Config)
    ensures
        r.wf(),
        r@ == (ConfigView { is_first_run: !named_on_command_line, ..default_config() }),
{
    let mut cfg = Config::default();
    if named_on_command_line {
        cfg.is_first_run = false;
    }
    assert(cfg@ =~= (ConfigView { is_first_run: !named_on_command_line, ..default_config() }));
    cfg
}


/// Settings the caller keeps as floating-point numbers, already written as text:
/// window position and size, and the two limiter waiting times.
pub struct NumberTexts {
    pub window_x: String,
    pub window_y: String,
    pub window_width: String,
    pub window_height: String,
    pub limiter_page_duration: String,
    pub limiter_folder_duration: String,
}

/// The texts of the floating-point settings as found in the `Global` section, for the
/// caller to read as numbers (absent: `None`).
pub struct StoredNumbers {
    pub window_x: Option<String>,
    pub window_y: Option<String>,
    pub window_width: Option<String>,
    pub window_height: Option<String>,
    pub limiter_page_duration: Option<String>,
    pub limiter_folder_duration: Option<String>,
}

/// The page waiting time of the limiter, under its current key or one of the names it
/// had before (`LimiterDuration`, `ReadingGuardDuration`, `PreviewGuardDuration`), the
/// first present winning.
pub open spec fn page_duration_text(g: Seq<(Seq<char>, Seq<char>)>) -> Option<Seq<char>> {
    match pairs_lookup(g, "LimiterPageDuration"@) {
        Some(v) => Some(v),
        None => match pairs_lookup(g, "LimiterDuration"@) {
            Some(v) => Some(v),
            None => match pairs_lookup(g, "ReadingGuardDuration"@) {
                Some(v) => Some(v),
                None => pairs_lookup(g, "PreviewGuardDuration"@),
            },
        },
    }
}

fn opt_text(v: Option<&String>) -> (r: Option<String>)
    ensures
        match v {
            Some(s) => r matches Some(t) && t@ == s@,
            None => r is None,
        },
{
    match v {
        Some(s) => Some(s.clone()),
        None => None,
    }
}

/// Reads the texts of the floating-point settings from the `Global` section.
pub fn stored_numbers(ini: &Ini) -> (r: StoredNumbers)
    ensures
        ({
            let g = global_of(ini_sections(*ini));
            &&& opt_view(r.window_x) == pairs_lookup(g, "WindowX"@)
            &&& opt_view(r.window_y) == pairs_lookup(g, "WindowY"@)
            &&& opt_view(r.window_width) == pairs_lookup(g, "WindowWidth"@)
            &&& opt_view(r.window_height) == pairs_lookup(g, "WindowHeight"@)
            &&& opt_view(r.limiter_page_duration) == page_duration_text(g)
            &&& opt_view(r.limiter_folder_duration) == pairs_lookup(g, "LimiterFolderDuration"@)
        }),
{
    let g = section_or_empty(ini, "Global");
    let page = match pairs_get(&g, "LimiterPageDuration") {
        Some(v) => Some(v),
        None => match pairs_get(&g, "LimiterDuration") {
            Some(v) => Some(v),
            None => match pairs_get(&g, "ReadingGuardDuration") {
                Some(v) => Some(v),
                None => pairs_get(&g, "PreviewGuardDuration"),
            },
        },
    };
    StoredNumbers {
        window_x: opt_text(pairs_get(&g, "WindowX")),
        window_y: opt_text(pairs_get(&g, "WindowY")),
        window_width: opt_text(pairs_get(&g, "WindowWidth")),
        window_height: opt_text(pairs_get(&g, "WindowHeight")),
        limiter_page_duration: opt_text(page),
        limiter_folder_duration: opt_text(pairs_get(&g, "LimiterFolderDuration")),
    }
}

/// The `Global` section as saved, in the order it is written.
pub open spec fn global_pairs(c: ConfigView, t: NumberTexts) -> Seq<(Seq<char>, Seq<char>)> {
    global_part1(c, t) + global_part2(c, t) + global_part3(c, t) + global_part4(c, t)
}

/// Part 1 of the `Global` section.
pub open spec fn global_part1(c: ConfigView, t: NumberTexts) -> Seq<(Seq<char>, Seq<char>)> {
    seq![
        ("FilterMode"@, filter_mode_text(c.filter_mode)),
        ("AllowMultipleInstances"@, bool_text(c.allow_multiple_instances)),
        ("AlwaysOnTop"@, bool_text(c.always_on_top)),
        ("SortMode"@, sort_mode_text(c.sort_mode)),
        ("SortOrder"@, sort_order_text(c.sort_order)),
        ("SortNatural"@, bool_text(c.sort_natural)),
        ("MangaRtl"@, bool_text(c.manga_rtl)),
        ("IsFirstRun"@, bool_text(c.is_first_run)),
    ]
}

/// Part 2 of the `Global` section.
pub open spec fn global_part2(c: ConfigView, t: NumberTexts) -> Seq<(Seq<char>, Seq<char>)> {
    seq![
        ("WindowX"@, t.window_x@),
        ("WindowY"@, t.window_y@),
        ("WindowWidth"@, t.window_width@),
        ("WindowHeight"@, t.window_height@),
        ("WindowResizable"@, bool_text(c.window_resizable)),
        ("WindowMaximized"@, bool_text(c.window_maximized)),
        ("WindowCentered"@, bool_text(c.window_centered)),
        ("RecentPaths"@, join(c.recent_paths, "|"@)),
    ]
}

/// Part 3 of the `Global` section.
pub open spec fn global_part3(c: ConfigView, t: NumberTexts) -> Seq<(Seq<char>, Seq<char>)> {
    seq![
        ("Mouse4Action"@, c.mouse4_action),
        ("Mouse5Action"@, c.mouse5_action),
        ("MouseMiddleAction"@, c.mouse_middle_action),
        ("LimiterMode"@, bool_text(c.limiter_mode)),
        ("LimiterPageDuration"@, t.limiter_page_duration@),
        ("LimiterFolderDuration"@, t.limiter_folder_duration@),
        ("LimiterStopAtStart"@, bool_text(c.limiter_stop_at_start)),
        ("LimiterStopAtEnd"@, bool_text(c.limiter_stop_at_end)),
    ]
}

/// Part 4 of the `Global` section.
pub open spec fn global_part4(c: ConfigView, t: NumberTexts) -> Seq<(Seq<char>, Seq<char>)> {
    seq![
        ("ShowPdfWarning"@, bool_text(c.show_pdf_warning)),
        ("PdfRenderDpi"@, decimal(c.pdf_render_dpi as nat)),
        ("OpenFromEnd"@, bool_text(c.open_from_end)),
        ("MangaMode"@, bool_text(c.manga_mode)),
        ("DisplayMode"@, display_mode_text(c.display_mode)),
        ("WindowMode"@, window_mode_text(c.window_mode)),
        ("ShowTree"@, bool_text(c.show_tree)),
        ("BackgroundMode"@, background_mode_text(c.bg_mode)),
    ]
}

/// The section of one external program as saved.
pub open spec fn app_pairs(a: AppView) -> Seq<(Seq<char>, Seq<char>)> {
    seq![
        ("Name"@, a.name),
        ("ExecutePath"@, a.exe),
        ("Args"@, join(a.args, " "@)),
        ("CloseAfterLaunch"@, bool_text(a.close_after_launch)),
    ]
}

/// Sections after each pair of `pairs` is set into section `sec`, in order.
pub open spec fn set_all(
    secs: Map<Seq<char>, Seq<(Seq<char>, Seq<char>)>>,
    sec: Seq<char>,
    pairs: Seq<(Seq<char>, Seq<char>)>,
) -> Map<Seq<char>, Seq<(Seq<char>, Seq<char>)>>
    decreases pairs.len(),
{
    if pairs.len() == 0 {
        secs
    } else {
        section_set(set_all(secs, sec, pairs.drop_last()), sec, pairs.last().0, pairs.last().1)
    }
}

/// Sections after the first `n` external programs are written.
pub open spec fn apps_saved(
    secs: Map<Seq<char>, Seq<(Seq<char>, Seq<char>)>>,
    apps: Seq<AppView>,
    n: nat,
) -> Map<Seq<char>, Seq<(Seq<char>, Seq<char>)>>
    decreases n,
{
    if n == 0 {
        secs
    } else {
        let prev = apps_saved(secs, apps, (n - 1) as nat);
        set_all(prev, app_section_name((n - 1) as nat), app_pairs(apps[n - 1]))
    }
}

/// What saving writes: `Global`, then `App_1`, `App_2`, ... for each external program,
/// then the key bindings in `KeyConfig` in the order they are kept.
pub open spec fn saved_sections(
    c: ConfigView,
    key_order: Seq<(Seq<char>, Seq<char>)>,
    t: NumberTexts,
) -> Map<Seq<char>, Seq<(Seq<char>, Seq<char>)>> {
    let s0 = set_all(no_sections(), "Global"@, global_pairs(c, t));
    let s1 = apps_saved(s0, c.external_apps, c.external_apps.len());
    set_all(s1, "KeyConfig"@, key_order)
}

fn owned(s: &str) -> (r: String)
    ensures
        r@ == s@,
{
    String::from_str(s)
}

fn push_pair(v: &mut Vec<(String, String)>, k: &str, val: String)
    ensures
        string_pairs_view(final(v)@) == string_pairs_view(old(v)@).push((k@, val@)),
{
    v.push((owned(k), val));
    assert(string_pairs_view(v@) =~= string_pairs_view(old(v)@).push((k@, val@)));
}

fn joined(pieces: &Vec<String>, sep: &str) -> (r: String)
    ensures
        r@ == join(strings_view(pieces@), sep@),
{
    let mut vs: Vec<Vec<char>> = Vec::new();
    let mut i: usize = 0;
    while i < pieces.len()
        invariant
            i <= pieces.len(),
            vs@.map_values(|p: Vec<char>| p@) == strings_view(pieces@).take(i as int),
        decreases pieces.len() - i,
    {
        let ghost before = vs@;
        vs.push(str_chars(pieces[i].as_str()));
        assert(vs@.map_values(|p: Vec<char>| p@) =~= before.map_values(|p: Vec<char>| p@).push(
            pieces@[i as int]@,
        ));
        assert(strings_view(pieces@).take(i as int + 1) =~= strings_view(pieces@).take(
            i as int,
        ).push(pieces@[i as int]@));
        i = i + 1;
    }
    assert(strings_view(pieces@).take(pieces.len() as int) == strings_view(pieces@));
    let sc = str_chars(sep);
    let j = join_chars(&vs, &sc);
    string_of(&j)
}

fn global_entries1(c: &Config, t: &NumberTexts) -> (v: Vec<(String, String)>)
    ensures
        string_pairs_view(v@) == global_part1(c@, *t),
{
    let mut v: Vec<(String, String)> = Vec::new();
    push_pair(&mut v, "FilterMode", owned(filter_mode_name(c.filter_mode)));
    push_pair(&mut v, "AllowMultipleInstances", bool_string(c.allow_multiple_instances));
    push_pair(&mut v, "AlwaysOnTop", bool_string(c.always_on_top));
    push_pair(&mut v, "SortMode", owned(sort_mode_name(c.sort_mode)));
    push_pair(&mut v, "SortOrder", owned(sort_order_name(c.sort_order)));
    push_pair(&mut v, "SortNatural", bool_string(c.sort_natural));
    push_pair(&mut v, "MangaRtl", bool_string(c.manga_rtl));
    push_pair(&mut v, "IsFirstRun", bool_string(c.is_first_run));
    assert(string_pairs_view(v@) =~= global_part1(c@, *t));
    v
}

fn global_entries2(c: &Config, t: &NumberTexts) -> (v: Vec<(String, String)>)
    ensures
        string_pairs_view(v@) == global_part2(c@, *t),
{
    let mut v: Vec<(String, String)> = Vec::new();
    push_pair(&mut v, "WindowX", t.window_x.clone());
    push_pair(&mut v, "WindowY", t.window_y.clone());
    push_pair(&mut v, "WindowWidth", t.window_width.clone());
    push_pair(&mut v, "WindowHeight", t.window_height.clone());
    push_pair(&mut v, "WindowResizable", bool_string(c.window_resizable));
    push_pair(&mut v, "WindowMaximized", bool_string(c.window_maximized));
    push_pair(&mut v, "WindowCentered", bool_string(c.window_centered));
    push_pair(&mut v, "RecentPaths", joined(&c.recent_paths, "|"));
    assert(string_pairs_view(v@) =~= global_part2(c@, *t));
    v
}

fn global_entries3(c: &Config, t: &NumberTexts) -> (v: Vec<(String, String)>)
    ensures
        string_pairs_view(v@) == global_part3(c@, *t),
{
    let mut v: Vec<(String, String)> = Vec::new();
    push_pair(&mut v, "Mouse4Action", c.mouse4_action.clone());
    push_pair(&mut v, "Mouse5Action", c.mouse5_action.clone());
    push_pair(&mut v, "MouseMiddleAction", c.mouse_middle_action.clone());
    push_pair(&mut v, "LimiterMode", bool_string(c.limiter_mode));
    push_pair(&mut v, "LimiterPageDuration", t.limiter_page_duration.clone());
    push_pair(&mut v, "LimiterFolderDuration", t.limiter_folder_duration.clone());
    push_pair(&mut v, "LimiterStopAtStart", bool_string(c.limiter_stop_at_start));
    push_pair(&mut v, "LimiterStopAtEnd", bool_string(c.limiter_stop_at_end));
    assert(string_pairs_view(v@) =~= global_part3(c@, *t));
    v
}

fn global_entries4(c: &Config, t: &NumberTexts) -> (v: Vec<(String, String)>)
    ensures
        string_pairs_view(v@) == global_part4(c@, *t),
{
    let mut v: Vec<(String, String)> = Vec::new();
    push_pair(&mut v, "ShowPdfWarning", bool_string(c.show_pdf_warning));
    push_pair(&mut v, "PdfRenderDpi", string_of(&decimal_chars(c.pdf_render_dpi as u64)));
    push_pair(&mut v, "OpenFromEnd", bool_string(c.open_from_end));
    push_pair(&mut v, "MangaMode", bool_string(c.manga_mode));
    push_pair(&mut v, "DisplayMode", owned(display_mode_name(c.display_mode)));
    push_pair(&mut v, "WindowMode", owned(window_mode_name(c.window_mode)));
    push_pair(&mut v, "ShowTree", bool_string(c.show_tree));
    push_pair(&mut v, "BackgroundMode", owned(background_mode_name(c.bg_mode)));
    assert(string_pairs_view(v@) =~= global_part4(c@, *t));
    v
}

fn global_entries(c: &Config, t: &NumberTexts) -> (v: Vec<(String, String)>)
    ensures
        string_pairs_view(v@) == global_pairs(c@, *t),
{
    let mut v = global_entries1(c, t);
    let mut v2 = global_entries2(c, t);
    let mut v3 = global_entries3(c, t);
    let mut v4 = global_entries4(c, t);
    let ghost (a, b, cc, d) = (v@, v2@, v3@, v4@);
    v.append(&mut v2);
    v.append(&mut v3);
    v.append(&mut v4);
    assert(v@ == a + b + cc + d);
    assert(string_pairs_view(v@) =~= string_pairs_view(a) + string_pairs_view(b)
        + string_pairs_view(cc) + string_pairs_view(d));
    v
}

fn app_entries(a: &ExternalAppConfig) -> (v: Vec<(String, String)>)
    ensures
        string_pairs_view(v@) == app_pairs(a@),
{
    let mut v: Vec<(String, String)> = Vec::new();
    push_pair(&mut v, "Name", a.name.clone());
    push_pair(&mut v, "ExecutePath", a.exe.clone());
    push_pair(&mut v, "Args", joined(&a.args, " "));
    push_pair(&mut v, "CloseAfterLaunch", bool_string(a.close_after_launch));
    assert(string_pairs_view(v@) =~= app_pairs(a@));
    v
}

fn set_section(ini: &mut Ini, sec: &str, pairs: &Vec<(String, String)>)
    ensures
        ini_sections(*final(ini)) == set_all(ini_sections(*old(ini)), sec@, string_pairs_view(
            pairs@,
        )),
{
    let ghost pv = string_pairs_view(pairs@);
    let mut i: usize = 0;
    while i < pairs.len()
        invariant
            i <= pairs.len(),
            pv == string_pairs_view(pairs@),
            ini_sections(*ini) == set_all(ini_sections(*old(ini)), sec@, pv.take(i as int)),
        decreases pairs.len() - i,
    {
        ini_set(ini, sec, pairs[i].0.as_str(), pairs[i].1.as_str());
        assert(pv.take(i as int + 1).drop_last() == pv.take(i as int));
        i = i + 1;
    }
    assert(pv.take(pairs.len() as int) == pv);
}

/// The settings file contents for `c`: `Global`, one `App_<n>` section per external
/// program, and the key bindings in `KeyConfig`.
pub fn config_to_ini(c: &Config, t: &NumberTexts) -> (r: Ini)
    requires
        c.wf(),
    ensures
        ini_sections(r) == saved_sections(c@, c.keys.pair_seq(), *t),
{
    let mut ini = ini_new();
    let g = global_entries(c, t);
    set_section(&mut ini, "Global", &g);
    let ghost s0 = ini_sections(ini);
    let mut i: usize = 0;
    while i < c.external_apps.len()
        invariant
            i <= c.external_apps.len(),
            ini_sections(ini) == apps_saved(s0, c@.external_apps, i as nat),
        decreases c.external_apps.len() - i,
    {
        let name = app_section(i);
        let p = app_entries(&c.external_apps[i]);
        assert(c@.external_apps[i as int] == c.external_apps@[i as int]@);
        set_section(&mut ini, name.as_str(), &p);
        i = i + 1;
    }
    set_section(&mut ini, "KeyConfig", c.keys.pairs());
    ini
}

/// A settings text with a leading byte-order mark (U+FEFF) dropped.
pub open spec fn without_bom(t: Seq<char>) -> Seq<char> {
    if t.len() > 0 && t[0] == '\u{FEFF}' {
        t.drop_first()
    } else {
        t
    }
}

/// The texts of the floating-point settings as `stored_numbers` reads them from `Global`.
pub open spec fn numbers_of(r: StoredNumbers, g: Seq<(Seq<char>, Seq<char>)>) -> bool {
    &&& opt_view(r.window_x) == pairs_lookup(g, "WindowX"@)
    &&& opt_view(r.window_y) == pairs_lookup(g, "WindowY"@)
    &&& opt_view(r.window_width) == pairs_lookup(g, "WindowWidth"@)
    &&& opt_view(r.window_height) == pairs_lookup(g, "WindowHeight"@)
    &&& opt_view(r.limiter_page_duration) == page_duration_text(g)
    &&& opt_view(r.limiter_folder_duration) == pairs_lookup(g, "LimiterFolderDuration"@)
}

/// Reads the settings and the texts of the floating-point settings from the text of a
/// settings file (a leading byte-order mark dropped); `None` where it does not parse.
pub fn settings_from_text(text: &str) -> (r: Option<(Config, StoredNumbers)>)
    ensures
        r is None <==> parsed_ini(without_bom(text@)) is None,
        r matches Some(p) ==> ({
            let secs = parsed_ini(without_bom(text@))->0;
            &&& p.0.wf()
            &&& p.0@ == config_from_sections(secs)
            &&& numbers_of(p.1, global_of(secs))
        }),
{
    let v = str_chars(text);
    let body = if v.len() > 0 && v[0] == '\u{FEFF}' {
        let mut rest: Vec<char> = Vec::new();
        let mut i: usize = 1;
        while i < v.len()
            invariant
                1 <= i <= v@.len(),
                rest@ == v@.subrange(1, i as int),
            decreases v.len() - i,
        {
            rest.push(v[i]);
            i = i + 1;
        }
        assert(rest@ =~= v@.drop_first());
        string_of(&rest)
    } else {
        string_of(&v)
    };
    match ini_from_text(body.as_str()) {
        Some(ini) => {
            let c = config_from_ini(&ini);
            let t = stored_numbers(&ini);
            Some((c, t))
        },
        None => None,
    }
}

} // verus!
