use vstd::prelude::*;
use vstd::string::*;
use crate::text::{str_eq, to_lowercase, lowercase, ascii_lower, is_ascii_chars};
use crate::keymap_store::{KeyMap, insert_all};

verus! {

/// Order in which pages are sorted.
#[derive(Clone, Copy, PartialEq, Eq, Debug, Structural)]
pub enum SortMode {
    Name,
    Mtime,
    Size,
}

/// Sort direction.
#[derive(Clone, Copy, PartialEq, Eq, Debug, Structural)]
pub enum SortOrder {
    Ascending,
    Descending,
}

/// Interpolation used when an image is scaled.
#[derive(Clone, Copy, PartialEq, Eq, Debug, Structural)]
pub enum FilterMode {
    Nearest,
    Bilinear,
    Bicubic,
    Lanczos,
}

/// What is painted behind transparent images.
#[derive(Clone, Copy, PartialEq, Eq, Debug, Structural)]
pub enum BackgroundMode {
    Theme,
    Black,
    Gray,
    White,
    Checkerboard,
    Green,
}

/// Graphics back end the window is drawn with.
#[derive(Clone, Copy, PartialEq, Eq, Debug, Structural)]
pub enum RendererMode {
    Glow,
    Wgpu,
}

/// How an image is fitted into the view.
#[derive(Clone, Copy, PartialEq, Eq, Debug, Structural)]
pub enum DisplayMode {
    Fit,
    WindowFit,
    Manual,
}

/// Window frame style.
#[derive(Clone, Copy, PartialEq, Eq, Debug, Structural)]
pub enum WindowMode {
    /// Framed window with the menu always shown.
    Standard,
    /// No frame; menu shown as an overlay.
    Borderless,
    /// Whole screen; menu shown as an overlay.
    Fullscreen,
}

// ---- names written to the settings file ----
pub open spec fn filter_mode_text(m: FilterMode) -> Seq<char> {
    match m {
        FilterMode::Nearest => "Nearest"@,
        FilterMode::Bilinear => "Bilinear"@,
        FilterMode::Bicubic => "Bicubic"@,
        FilterMode::Lanczos => "Lanczos"@,
    }
}

pub open spec fn sort_mode_text(m: SortMode) -> Seq<char> {
    match m {
        SortMode::Name => "Name"@,
        SortMode::Mtime => "Mtime"@,
        SortMode::Size => "Size"@,
    }
}

pub open spec fn sort_order_text(m: SortOrder) -> Seq<char> {
    match m {
        SortOrder::Ascending => "Ascending"@,
        SortOrder::Descending => "Descending"@,
    }
}

pub open spec fn display_mode_text(m: DisplayMode) -> Seq<char> {
    match m {
        DisplayMode::Fit => "Fit"@,
        DisplayMode::WindowFit => "WindowFit"@,
        DisplayMode::Manual => "Manual"@,
    }
}

pub open spec fn background_mode_text(m: BackgroundMode) -> Seq<char> {
    match m {
        BackgroundMode::Theme => "Theme"@,
        BackgroundMode::Checkerboard => "Checkerboard"@,
        BackgroundMode::Black => "Black"@,
        BackgroundMode::Gray => "Gray"@,
        BackgroundMode::White => "White"@,
        BackgroundMode::Green => "Green"@,
    }
}

pub open spec fn window_mode_text(m: WindowMode) -> Seq<char> {
    match m {
        WindowMode::Standard => "Standard"@,
        WindowMode::Borderless => "Borderless"@,
        WindowMode::Fullscreen => "Fullscreen"@,
    }
}

/// Name of a filter mode in the settings file.
pub fn filter_mode_name(m: FilterMode) -> (r: &'static str)
    ensures
        r@ == filter_mode_text(m),
{
    match m {
        FilterMode::Nearest => "Nearest",
        FilterMode::Bilinear => "Bilinear",
        FilterMode::Bicubic => "Bicubic",
        FilterMode::Lanczos => "Lanczos",
    }
}

/// Name of a sort mode in the settings file.
pub fn sort_mode_name(m: SortMode) -> (r: &'static str)
    ensures
        r@ == sort_mode_text(m),
{
    match m {
        SortMode::Name => "Name",
        SortMode::Mtime => "Mtime",
        SortMode::Size => "Size",
    }
}

/// Name of a sort order in the settings file.
pub fn sort_order_name(m: SortOrder) -> (r: &'static str)
    ensures
        r@ == sort_order_text(m),
{
    match m {
        SortOrder::Ascending => "Ascending",
        SortOrder::Descending => "Descending",
    }
}

/// Name of a display mode in the settings file.
pub fn display_mode_name(m: DisplayMode) -> (r: &'static str)
    ensures
        r@ == display_mode_text(m),
{
    match m {
        DisplayMode::Fit => "Fit",
        DisplayMode::WindowFit => "WindowFit",
        DisplayMode::Manual => "Manual",
    }
}

/// Name of a background mode in the settings file.
pub fn background_mode_name(m: BackgroundMode) -> (r: &'static str)
    ensures
        r@ == background_mode_text(m),
{
    match m {
        BackgroundMode::Theme => "Theme",
        BackgroundMode::Checkerboard => "Checkerboard",
        BackgroundMode::Black => "Black",
        BackgroundMode::Gray => "Gray",
        BackgroundMode::White => "White",
        BackgroundMode::Green => "Green",
    }
}

/// Name of a window mode in the settings file.
pub fn window_mode_name(m: WindowMode) -> (r: &'static str)
    ensures
        r@ == window_mode_text(m),
{
    match m {
        WindowMode::Standard => "Standard",
        WindowMode::Borderless => "Borderless",
        WindowMode::Fullscreen => "Fullscreen",
    }
}

// ---- reading names back (case-insensitive; unknown text gives the default) ----
pub open spec fn filter_mode_of(lower: Seq<char>) -> FilterMode {
    if lower == "nearest"@ {
        FilterMode::Nearest
    } else if lower == "bicubic"@ {
        FilterMode::Bicubic
    } else if lower == "lanczos"@ {
        FilterMode::Lanczos
    } else {
        FilterMode::Bilinear
    }
}

pub open spec fn sort_mode_of(lower: Seq<char>) -> SortMode {
    if lower == "mtime"@ {
        SortMode::Mtime
    } else if lower == "size"@ {
        SortMode::Size
    } else {
        SortMode::Name
    }
}

pub open spec fn sort_order_of(lower: Seq<char>) -> SortOrder {
    if lower == "descending"@ {
        SortOrder::Descending
    } else {
        SortOrder::Ascending
    }
}

pub open spec fn background_mode_of(lower: Seq<char>) -> BackgroundMode {
    if lower == "black"@ {
        BackgroundMode::Black
    } else if lower == "gray"@ {
        BackgroundMode::Gray
    } else if lower == "white"@ {
        BackgroundMode::White
    } else if lower == "checkerboard"@ {
        BackgroundMode::Checkerboard
    } else if lower == "green"@ {
        BackgroundMode::Green
    } else {
        BackgroundMode::Theme
    }
}

pub open spec fn display_mode_of(lower: Seq<char>) -> DisplayMode {
    if lower == "windowfit"@ {
        DisplayMode::WindowFit
    } else if lower == "manual"@ {
        DisplayMode::Manual
    } else {
        DisplayMode::Fit
    }
}

pub open spec fn window_mode_of(lower: Seq<char>) -> WindowMode {
    if lower == "borderless"@ {
        WindowMode::Borderless
    } else if lower == "fullscreen"@ {
        WindowMode::Fullscreen
    } else {
        WindowMode::Standard
    }
}

/// Filter mode named by a settings value, in any letter case.
pub fn parse_filter_mode(v: &str) -> (r: FilterMode)
    ensures
        r == filter_mode_of(lowercase(v@)),
{
    let l = to_lowercase(v);
    if str_eq(l.as_str(), "nearest") {
        FilterMode::Nearest
    } else if str_eq(l.as_str(), "bicubic") {
        FilterMode::Bicubic
    } else if str_eq(l.as_str(), "lanczos") {
        FilterMode::Lanczos
    } else {
        FilterMode::Bilinear
    }
}

/// Sort mode named by a settings value, in any letter case.
pub fn parse_sort_mode(v: &str) -> (r: SortMode)
    ensures
        r == sort_mode_of(lowercase(v@)),
{
    let l = to_lowercase(v);
    if str_eq(l.as_str(), "mtime") {
        SortMode::Mtime
    } else if str_eq(l.as_str(), "size") {
        SortMode::Size
    } else {
        SortMode::Name
    }
}

/// Sort order named by a settings value, in any letter case.
pub fn parse_sort_order(v: &str) -> (r: SortOrder)
    ensures
        r == sort_order_of(lowercase(v@)),
{
    let l = to_lowercase(v);
    if str_eq(l.as_str(), "descending") {
        SortOrder::Descending
    } else {
        SortOrder::Ascending
    }
}

/// Background mode named by a settings value, in any letter case.
pub fn parse_background_mode(v: &str) -> (r: BackgroundMode)
    ensures
        r == background_mode_of(lowercase(v@)),
{
    let l = to_lowercase(v);
    if str_eq(l.as_str(), "black") {
        BackgroundMode::Black
    } else if str_eq(l.as_str(), "gray") {
        BackgroundMode::Gray
    } else if str_eq(l.as_str(), "white") {
        BackgroundMode::White
    } else if str_eq(l.as_str(), "checkerboard") {
        BackgroundMode::Checkerboard
    } else if str_eq(l.as_str(), "green") {
        BackgroundMode::Green
    } else {
        BackgroundMode::Theme
    }
}

/// Display mode named by a settings value, in any letter case.
pub fn parse_display_mode(v: &str) -> (r: DisplayMode)
    ensures
        r == display_mode_of(lowercase(v@)),
{
    let l = to_lowercase(v);
    if str_eq(l.as_str(), "windowfit") {
        DisplayMode::WindowFit
    } else if str_eq(l.as_str(), "manual") {
        DisplayMode::Manual
    } else {
        DisplayMode::Fit
    }
}

/// Window mode named by a settings value, in any letter case.
pub fn parse_window_mode(v: &str) -> (r: WindowMode)
    ensures
        r == window_mode_of(lowercase(v@)),
{
    let l = to_lowercase(v);
    if str_eq(l.as_str(), "borderless") {
        WindowMode::Borderless
    } else if str_eq(l.as_str(), "fullscreen") {
        WindowMode::Fullscreen
    } else {
        WindowMode::Standard
    }
}

} // verus!

verus! {

/// One external program the current page can be handed to.
#[derive(Clone, Debug)]
pub struct ExternalAppConfig {
    pub name: String,
    pub exe: String,
    pub args: Vec<String>,
    pub close_after_launch: bool,
}

/// Model of an external program entry.
#[verifier::ext_equal]
pub struct AppView {
    pub name: Seq<char>,
    pub exe: Seq<char>,
    pub args: Seq<Seq<char>>,
    pub close_after_launch: bool,
}

/// View of a list of owned strings.
pub open spec fn strings_view(v: Seq<String>) -> Seq<Seq<char>> {
    v.map_values(|s: String| s@)
}

impl View for ExternalAppConfig {
    type V = AppView;

    open spec fn view(&self) -> AppView {
        AppView {
            name: self.name@,
            exe: self.exe@,
            args: strings_view(self.args@),
            close_after_launch: self.close_after_launch,
        }
    }
}

/// Viewer settings kept in the settings file. Window geometry and the limiter
/// durations, which are floating-point values, are kept beside it by the caller.
#[derive(Clone, Debug)]
pub struct Config {
    /// External programs (nine of them).
    pub external_apps: Vec<ExternalAppConfig>,
    pub filter_mode: FilterMode,
    pub allow_multiple_instances: bool,
    pub always_on_top: bool,
    pub sort_mode: SortMode,
    pub sort_order: SortOrder,
    pub sort_natural: bool,
    /// Right-to-left page order in two-page mode.
    pub manga_rtl: bool,
    /// Open a folder at its last page when moving backwards into it.
    pub open_from_end: bool,
    pub bg_mode: BackgroundMode,
    pub keys: KeyMap,
    pub is_first_run: bool,
    /// Recently opened paths, newest first (at most ten).
    pub recent_paths: Vec<String>,
    pub window_resizable: bool,
    pub window_maximized: bool,
    pub window_centered: bool,
    pub mouse4_action: String,
    pub mouse5_action: String,
    pub mouse_middle_action: String,
    pub limiter_mode: bool,
    pub limiter_stop_at_start: bool,
    pub limiter_stop_at_end: bool,
    pub show_pdf_warning: bool,
    pub pdf_render_dpi: u32,
    pub manga_mode: bool,
    pub display_mode: DisplayMode,
    pub window_mode: WindowMode,
    pub show_tree: bool,
}

/// Model of the settings.
#[verifier::ext_equal]
pub struct ConfigView {
    pub external_apps: Seq<AppView>,
    pub filter_mode: FilterMode,
    pub allow_multiple_instances: bool,
    pub always_on_top: bool,
    pub sort_mode: SortMode,
    pub sort_order: SortOrder,
    pub sort_natural: bool,
    pub manga_rtl: bool,
    pub open_from_end: bool,
    pub bg_mode: BackgroundMode,
    pub keys: Map<Seq<char>, Seq<char>>,
    pub is_first_run: bool,
    pub recent_paths: Seq<Seq<char>>,
    pub window_resizable: bool,
    pub window_maximized: bool,
    pub window_centered: bool,
    pub mouse4_action: Seq<char>,
    pub mouse5_action: Seq<char>,
    pub mouse_middle_action: Seq<char>,
    pub limiter_mode: bool,
    pub limiter_stop_at_start: bool,
    pub limiter_stop_at_end: bool,
    pub show_pdf_warning: bool,
    pub pdf_render_dpi: u32,
    pub manga_mode: bool,
    pub display_mode: DisplayMode,
    pub window_mode: WindowMode,
    pub show_tree: bool,
}

/// Views of the external program entries.
pub open spec fn apps_view(v: Seq<ExternalAppConfig>) -> Seq<AppView> {
    v.map_values(|a: ExternalAppConfig| a@)
}

impl View for Config {
    type V = ConfigView;

    open spec fn view(&self) -> ConfigView {
        ConfigView {
            external_apps: apps_view(self.external_apps@),
            filter_mode: self.filter_mode,
            allow_multiple_instances: self.allow_multiple_instances,
            always_on_top: self.always_on_top,
            sort_mode: self.sort_mode,
            sort_order: self.sort_order,
            sort_natural: self.sort_natural,
            manga_rtl: self.manga_rtl,
            open_from_end: self.open_from_end,
            bg_mode: self.bg_mode,
            keys: self.keys@,
            is_first_run: self.is_first_run,
            recent_paths: strings_view(self.recent_paths@),
            window_resizable: self.window_resizable,
            window_maximized: self.window_maximized,
            window_centered: self.window_centered,
            mouse4_action: self.mouse4_action@,
            mouse5_action: self.mouse5_action@,
            mouse_middle_action: self.mouse_middle_action@,
            limiter_mode: self.limiter_mode,
            limiter_stop_at_start: self.limiter_stop_at_start,
            limiter_stop_at_end: self.limiter_stop_at_end,
            show_pdf_warning: self.show_pdf_warning,
            pdf_render_dpi: self.pdf_render_dpi,
            manga_mode: self.manga_mode,
            display_mode: self.display_mode,
            window_mode: self.window_mode,
            show_tree: self.show_tree,
        }
    }
}

impl Config {
    /// The key bindings are well formed.
    pub open spec fn wf(&self) -> bool {
        self.keys.wf()
    }
}

/// Default key bindings, in the order they are set up.
pub open spec fn default_key_pairs() -> Seq<(Seq<char>, Seq<char>)> {
    seq![
        ("PrevPage"@, "ArrowLeft, P"@),
        ("NextPage"@, "ArrowRight, N"@),
        ("Left"@, "ArrowLeft"@),
        ("Right"@, "ArrowRight"@),
        ("PrevPageSingle"@, "ArrowUp"@),
        ("NextPageSingle"@, "ArrowDown"@),
        ("Up"@, "ArrowUp"@),
        ("Down"@, "ArrowDown"@),
        ("Enter"@, "Enter"@),
        ("ToggleMaximized"@, "Enter"@),
        ("ToggleFullscreen"@, "Shift+Enter"@),
        ("ToggleBorderless"@, "Alt+Enter"@),
        ("Escape"@, "Escape"@),
        ("ToggleTree"@, "T"@),
        ("ToggleFit"@, "F"@),
        ("ZoomIn"@, "Plus, Equals"@),
        ("ZoomOut"@, "Minus"@),
        ("ZoomReset"@, "Z"@),
        ("ToggleManga"@, "M, Space"@),
        ("RotateCW"@, "R"@),
        ("OpenKeyConfig"@, "K"@),
        ("RotateCCW"@, "Ctrl+R"@),
        ("PrevDir"@, "PageUp"@),
        ("NextDir"@, "PageDown"@),
        ("SortSettings"@, "S"@),
        ("FirstPage"@, "Home"@),
        ("LastPage"@, "End"@),
        ("RevealExplorer"@, "Backspace"@),
        ("OpenExternal1"@, "E"@),
        ("OpenExternal2"@, ""@),
        ("OpenExternal3"@, ""@),
        ("OpenExternal4"@, ""@),
        ("OpenExternal5"@, ""@),
        ("OpenExternal6"@, ""@),
        ("OpenExternal7"@, ""@),
        ("OpenExternal8"@, ""@),
        ("OpenExternal9"@, ""@),
        ("ToggleLinear"@, "I"@),
        ("ToggleMangaRtl"@, "Y"@),
        ("Quit"@, "Q, Ctrl+W"@),
        ("ToggleBg"@, "B"@),
        ("ToggleDebug"@, "F12"@),
        ("ToggleLimiter"@, "L"@),
        ("JumpPage"@, "J"@)
    ]
}

fn default_key_table() -> (t: Vec<(&'static str, &'static str)>)
    ensures
        t@.map_values(|p: (&'static str, &'static str)| (p.0@, p.1@)) == default_key_pairs(),
{
    let mut t: Vec<(&'static str, &'static str)> = Vec::new();
    t.push(("PrevPage", "ArrowLeft, P"));
    t.push(("NextPage", "ArrowRight, N"));
    t.push(("Left", "ArrowLeft"));
    t.push(("Right", "ArrowRight"));
    t.push(("PrevPageSingle", "ArrowUp"));
    t.push(("NextPageSingle", "ArrowDown"));
    t.push(("Up", "ArrowUp"));
    t.push(("Down", "ArrowDown"));
    t.push(("Enter", "Enter"));
    t.push(("ToggleMaximized", "Enter"));
    t.push(("ToggleFullscreen", "Shift+Enter"));
    t.push(("ToggleBorderless", "Alt+Enter"));
    t.push(("Escape", "Escape"));
    t.push(("ToggleTree", "T"));
    t.push(("ToggleFit", "F"));
    t.push(("ZoomIn", "Plus, Equals"));
    t.push(("ZoomOut", "Minus"));
    t.push(("ZoomReset", "Z"));
    t.push(("ToggleManga", "M, Space"));
    t.push(("RotateCW", "R"));
    t.push(("OpenKeyConfig", "K"));
    t.push(("RotateCCW", "Ctrl+R"));
    t.push(("PrevDir", "PageUp"));
    t.push(("NextDir", "PageDown"));
    t.push(("SortSettings", "S"));
    t.push(("FirstPage", "Home"));
    t.push(("LastPage", "End"));
    t.push(("RevealExplorer", "Backspace"));
    t.push(("OpenExternal1", "E"));
    t.push(("OpenExternal2", ""));
    t.push(("OpenExternal3", ""));
    t.push(("OpenExternal4", ""));
    t.push(("OpenExternal5", ""));
    t.push(("OpenExternal6", ""));
    t.push(("OpenExternal7", ""));
    t.push(("OpenExternal8", ""));
    t.push(("OpenExternal9", ""));
    t.push(("ToggleLinear", "I"));
    t.push(("ToggleMangaRtl", "Y"));
    t.push(("Quit", "Q, Ctrl+W"));
    t.push(("ToggleBg", "B"));
    t.push(("ToggleDebug", "F12"));
    t.push(("ToggleLimiter", "L"));
    t.push(("JumpPage", "J"));
    assert(t@.map_values(|p: (&'static str, &'static str)| (p.0@, p.1@)) =~= default_key_pairs());
    t
}

/// The default key bindings.
pub open spec fn default_keys() -> Map<Seq<char>, Seq<char>> {
    insert_all(Map::empty(), default_key_pairs())
}

/// An external program entry.
pub open spec fn app_model(name: Seq<char>, exe: Seq<char>, args: Seq<Seq<char>>) -> AppView {
    AppView { name, exe, args, close_after_launch: false }
}

/// An entry with no program set.
pub open spec fn unset_app() -> AppView {
    app_model("未設定"@, ""@, seq!["%P"@])
}

/// The nine default external program entries.
pub open spec fn default_apps() -> Seq<AppView> {
    seq![
        app_model("既定のプログラム"@, "cmd"@, seq!["/C"@, "start"@, ""@, "%P"@]),
        app_model("例エキスプローラに送る"@, "explorer.exe"@, seq!["/select,"@, "%P"@]),
        unset_app(),
        unset_app(),
        unset_app(),
        unset_app(),
        unset_app(),
        unset_app(),
        unset_app(),
    ]
}

/// The settings used when no settings file exists.
pub open spec fn default_config() -> ConfigView {
    ConfigView {
        external_apps: default_apps(),
        filter_mode: FilterMode::Bilinear,
        allow_multiple_instances: false,
        always_on_top: false,
        sort_mode: SortMode::Name,
        sort_order: SortOrder::Ascending,
        sort_natural: true,
        manga_rtl: true,
        open_from_end: false,
        bg_mode: BackgroundMode::Theme,
        keys: default_keys(),
        is_first_run: true,
        recent_paths: Seq::empty(),
        window_resizable: true,
        window_maximized: false,
        window_centered: false,
        mouse4_action: "PrevPage"@,
        mouse5_action: "NextPage"@,
        mouse_middle_action: "ToggleFit"@,
        limiter_mode: false,
        limiter_stop_at_start: true,
        limiter_stop_at_end: false,
        show_pdf_warning: true,
        pdf_render_dpi: 96,
        manga_mode: false,
        display_mode: DisplayMode::Fit,
        window_mode: WindowMode::Standard,
        show_tree: false,
    }
}

fn owned(s: &str) -> (r: String)
    ensures
        r@ == s@,
{
    String::from_str(s)
}

fn make_app(name: &str, exe: &str, args: Vec<String>) -> (r: ExternalAppConfig)
    ensures
        r@ == app_model(name@, exe@, strings_view(args@)),
{
    ExternalAppConfig { name: owned(name), exe: owned(exe), args, close_after_launch: false }
}

fn unset_app_entry() -> (r: ExternalAppConfig)
    ensures
        r@ == unset_app(),
{
    let mut args: Vec<String> = Vec::new();
    args.push(owned("%P"));
    assert(strings_view(args@) =~= seq!["%P"@]);
    make_app("未設定", "", args)
}

fn default_app_entries() -> (v: Vec<ExternalAppConfig>)
    ensures
        apps_view(v@) == default_apps(),
{
    let mut v: Vec<ExternalAppConfig> = Vec::new();
    let mut a1: Vec<String> = Vec::new();
    a1.push(owned("/C"));
    a1.push(owned("start"));
    a1.push(owned(""));
    a1.push(owned("%P"));
    assert(strings_view(a1@) =~= seq!["/C"@, "start"@, ""@, "%P"@]);
    v.push(make_app("既定のプログラム", "cmd", a1));
    let mut a2: Vec<String> = Vec::new();
    a2.push(owned("/select,"));
    a2.push(owned("%P"));
    assert(strings_view(a2@) =~= seq!["/select,"@, "%P"@]);
    v.push(make_app("例エキスプローラに送る", "explorer.exe", a2));
    let mut i: usize = 0;
    while i < 7
        invariant
            i <= 7,
            v@.len() == 2 + i,
            apps_view(v@).take(2) == default_apps().take(2),
            forall|k: int| 2 <= k < v@.len() ==> #[trigger] v@[k]@ == unset_app(),
        decreases 7 - i,
    {
        let ghost before = v@;
        v.push(unset_app_entry());
        assert(apps_view(v@).take(2) =~= apps_view(before).take(2));
        i = i + 1;
    }
    assert forall|k: int| 0 <= k < 9 implies apps_view(v@)[k] == default_apps()[k] by {
        if k < 2 {
            assert(apps_view(v@).take(2)[k] == default_apps().take(2)[k]);
        } else {
            assert(v@[k]@ == unset_app());
        }
    }
    assert(apps_view(v@) =~= default_apps());
    v
}

/// The default key bindings.
pub fn default_key_map() -> (k: KeyMap)
    ensures
        k.wf(),
        k@ == default_keys(),
{
    let t = default_key_table();
    let ghost tv = t@.map_values(|p: (&'static str, &'static str)| (p.0@, p.1@));
    let mut k = KeyMap::new();
    let mut i: usize = 0;
    while i < t.len()
        invariant
            i <= t.len(),
            tv == t@.map_values(|p: (&'static str, &'static str)| (p.0@, p.1@)),
            k.wf(),
            k@ == insert_all(Map::empty(), tv.take(i as int)),
        decreases t.len() - i,
    {
        let (name, binding) = t[i];
        k.insert(owned(name), owned(binding));
        assert(tv.take(i as int + 1).drop_last() == tv.take(i as int));
        i = i + 1;
    }
    assert(tv.take(t.len() as int) == tv);
    k
}

impl Default for Config {
    fn default() -> (r: Self)
        ensures
            r.wf(),
            r@ == default_config(),
    {
        let r = Config {
            external_apps: default_app_entries(),
            filter_mode: FilterMode::Bilinear,
            allow_multiple_instances: false,
            always_on_top: false,
            sort_mode: SortMode::Name,
            sort_order: SortOrder::Ascending,
            sort_natural: true,
            manga_rtl: true,
            open_from_end: false,
            bg_mode: BackgroundMode::Theme,
            keys: default_key_map(),
            is_first_run: true,
            recent_paths: Vec::new(),
            window_resizable: true,
            window_maximized: false,
            window_centered: false,
            mouse4_action: owned("PrevPage"),
            mouse5_action: owned("NextPage"),
            mouse_middle_action: owned("ToggleFit"),
            limiter_mode: false,
            limiter_stop_at_start: true,
            limiter_stop_at_end: false,
            show_pdf_warning: true,
            pdf_render_dpi: 96,
            manga_mode: false,
            display_mode: DisplayMode::Fit,
            window_mode: WindowMode::Standard,
            show_tree: false,
        };
        assert(strings_view(r.recent_paths@) =~= Seq::<Seq<char>>::empty());
        assert(r@ =~= default_config());
        r
    }
}

} // verus!


verus! {

/// A FilterMode written to the settings file is read back as itself.
pub proof fn law_filter_name_roundtrip(m: FilterMode)
    ensures
        filter_mode_of(lowercase(filter_mode_text(m))) == m,
{
    reveal_strlit("Bicubic");
    reveal_strlit("Bilinear");
    reveal_strlit("Lanczos");
    reveal_strlit("Nearest");
    reveal_strlit("bicubic");
    reveal_strlit("bilinear");
    reveal_strlit("lanczos");
    reveal_strlit("nearest");
    match m {
        FilterMode::Nearest => {
            assert(is_ascii_chars("Nearest"@));
            assert("Nearest"@.map_values(|c: char| ascii_lower(c)) =~= "nearest"@);
            assert("nearest"@[0] != "bicubic"@[0]);
            assert("nearest"@[0] != "lanczos"@[0]);
            assert("nearest"@.len() != "bilinear"@.len());
            assert(filter_mode_text(m) == "Nearest"@);
            assert(lowercase(filter_mode_text(m)) == "nearest"@);
        },
        FilterMode::Bilinear => {
            assert(is_ascii_chars("Bilinear"@));
            assert("Bilinear"@.map_values(|c: char| ascii_lower(c)) =~= "bilinear"@);
            assert("bilinear"@.len() != "nearest"@.len());
            assert("bilinear"@.len() != "bicubic"@.len());
            assert("bilinear"@.len() != "lanczos"@.len());
        },
        FilterMode::Bicubic => {
            assert(is_ascii_chars("Bicubic"@));
            assert("Bicubic"@.map_values(|c: char| ascii_lower(c)) =~= "bicubic"@);
            assert("bicubic"@[0] != "nearest"@[0]);
            assert("bicubic"@[0] != "lanczos"@[0]);
            assert("bicubic"@.len() != "bilinear"@.len());
        },
        FilterMode::Lanczos => {
            assert(is_ascii_chars("Lanczos"@));
            assert("Lanczos"@.map_values(|c: char| ascii_lower(c)) =~= "lanczos"@);
            assert("lanczos"@[0] != "nearest"@[0]);
            assert("lanczos"@[0] != "bicubic"@[0]);
            assert("lanczos"@.len() != "bilinear"@.len());
        },
    }
}

/// A SortMode written to the settings file is read back as itself.
pub proof fn law_sort_mode_name_roundtrip(m: SortMode)
    ensures
        sort_mode_of(lowercase(sort_mode_text(m))) == m,
{
    reveal_strlit("Mtime");
    reveal_strlit("Name");
    reveal_strlit("Size");
    reveal_strlit("mtime");
    reveal_strlit("name");
    reveal_strlit("size");
    match m {
        SortMode::Name => {
            assert(is_ascii_chars("Name"@));
            assert("Name"@.map_values(|c: char| ascii_lower(c)) =~= "name"@);
            assert("name"@.len() != "mtime"@.len());
            assert("name"@[0] != "size"@[0]);
        },
        SortMode::Mtime => {
            assert(is_ascii_chars("Mtime"@));
            assert("Mtime"@.map_values(|c: char| ascii_lower(c)) =~= "mtime"@);
            assert("mtime"@.len() != "size"@.len());
            assert("mtime"@.len() != "name"@.len());
        },
        SortMode::Size => {
            assert(is_ascii_chars("Size"@));
            assert("Size"@.map_values(|c: char| ascii_lower(c)) =~= "size"@);
            assert("size"@.len() != "mtime"@.len());
            assert("size"@[0] != "name"@[0]);
        },
    }
}

/// A SortOrder written to the settings file is read back as itself.
pub proof fn law_sort_order_name_roundtrip(m: SortOrder)
    ensures
        sort_order_of(lowercase(sort_order_text(m))) == m,
{
    reveal_strlit("Ascending");
    reveal_strlit("Descending");
    reveal_strlit("ascending");
    reveal_strlit("descending");
    match m {
        SortOrder::Ascending => {
            assert(is_ascii_chars("Ascending"@));
            assert("Ascending"@.map_values(|c: char| ascii_lower(c)) =~= "ascending"@);
            assert("ascending"@.len() != "descending"@.len());
        },
        SortOrder::Descending => {
            assert(is_ascii_chars("Descending"@));
            assert("Descending"@.map_values(|c: char| ascii_lower(c)) =~= "descending"@);
            assert("descending"@.len() != "ascending"@.len());
        },
    }
}

/// A DisplayMode written to the settings file is read back as itself.
pub proof fn law_display_name_roundtrip(m: DisplayMode)
    ensures
        display_mode_of(lowercase(display_mode_text(m))) == m,
{
    reveal_strlit("Fit");
    reveal_strlit("Manual");
    reveal_strlit("WindowFit");
    reveal_strlit("fit");
    reveal_strlit("manual");
    reveal_strlit("windowfit");
    match m {
        DisplayMode::Fit => {
            assert(is_ascii_chars("Fit"@));
            assert("Fit"@.map_values(|c: char| ascii_lower(c)) =~= "fit"@);
            assert("fit"@.len() != "windowfit"@.len());
            assert("fit"@.len() != "manual"@.len());
        },
        DisplayMode::WindowFit => {
            assert(is_ascii_chars("WindowFit"@));
            assert("WindowFit"@.map_values(|c: char| ascii_lower(c)) =~= "windowfit"@);
            assert("windowfit"@.len() != "manual"@.len());
            assert("windowfit"@.len() != "fit"@.len());
        },
        DisplayMode::Manual => {
            assert(is_ascii_chars("Manual"@));
            assert("Manual"@.map_values(|c: char| ascii_lower(c)) =~= "manual"@);
            assert("manual"@.len() != "windowfit"@.len());
            assert("manual"@.len() != "fit"@.len());
        },
    }
}

/// A WindowMode written to the settings file is read back as itself.
pub proof fn law_window_name_roundtrip(m: WindowMode)
    ensures
        window_mode_of(lowercase(window_mode_text(m))) == m,
{
    reveal_strlit("Borderless");
    reveal_strlit("Fullscreen");
    reveal_strlit("Standard");
    reveal_strlit("borderless");
    reveal_strlit("fullscreen");
    reveal_strlit("standard");
    match m {
        WindowMode::Standard => {
            assert(is_ascii_chars("Standard"@));
            assert("Standard"@.map_values(|c: char| ascii_lower(c)) =~= "standard"@);
            assert("standard"@.len() != "borderless"@.len());
            assert("standard"@.len() != "fullscreen"@.len());
        },
        WindowMode::Borderless => {
            assert(is_ascii_chars("Borderless"@));
            assert("Borderless"@.map_values(|c: char| ascii_lower(c)) =~= "borderless"@);
            assert("borderless"@[0] != "fullscreen"@[0]);
            assert("borderless"@.len() != "standard"@.len());
        },
        WindowMode::Fullscreen => {
            assert(is_ascii_chars("Fullscreen"@));
            assert("Fullscreen"@.map_values(|c: char| ascii_lower(c)) =~= "fullscreen"@);
            assert("fullscreen"@[0] != "borderless"@[0]);
            assert("fullscreen"@.len() != "standard"@.len());
        },
    }
}

/// A BackgroundMode written to the settings file is read back as itself.
pub proof fn law_background_name_roundtrip(m: BackgroundMode)
    ensures
        background_mode_of(lowercase(background_mode_text(m))) == m,
{
    reveal_strlit("Theme");
    reveal_strlit("Checkerboard");
    reveal_strlit("Black");
    reveal_strlit("Gray");
    reveal_strlit("White");
    reveal_strlit("Green");
    reveal_strlit("theme");
    reveal_strlit("checkerboard");
    reveal_strlit("black");
    reveal_strlit("gray");
    reveal_strlit("white");
    reveal_strlit("green");
    match m {
        BackgroundMode::Theme => {
            assert(is_ascii_chars("Theme"@));
            assert("Theme"@.map_values(|c: char| ascii_lower(c)) =~= "theme"@);
            assert("theme"@[0] != "black"@[0]);
            assert("theme"@.len() != "gray"@.len());
            assert("theme"@[0] != "white"@[0]);
            assert("theme"@.len() != "checkerboard"@.len());
            assert("theme"@[0] != "green"@[0]);
        },
        BackgroundMode::Checkerboard => {
            assert(is_ascii_chars("Checkerboard"@));
            assert("Checkerboard"@.map_values(|c: char| ascii_lower(c)) =~= "checkerboard"@);
            assert("checkerboard"@.len() != "black"@.len());
            assert("checkerboard"@.len() != "gray"@.len());
            assert("checkerboard"@.len() != "white"@.len());
        },
        BackgroundMode::Black => {
            assert(is_ascii_chars("Black"@));
            assert("Black"@.map_values(|c: char| ascii_lower(c)) =~= "black"@);
        },
        BackgroundMode::Gray => {
            assert(is_ascii_chars("Gray"@));
            assert("Gray"@.map_values(|c: char| ascii_lower(c)) =~= "gray"@);
            assert("gray"@.len() != "black"@.len());
        },
        BackgroundMode::White => {
            assert(is_ascii_chars("White"@));
            assert("White"@.map_values(|c: char| ascii_lower(c)) =~= "white"@);
            assert("white"@[0] != "black"@[0]);
            assert("white"@.len() != "gray"@.len());
        },
        BackgroundMode::Green => {
            assert(is_ascii_chars("Green"@));
            assert("Green"@.map_values(|c: char| ascii_lower(c)) =~= "green"@);
            assert("green"@[0] != "black"@[0]);
            assert("green"@.len() != "gray"@.len());
            assert("green"@[0] != "white"@[0]);
            assert("green"@.len() != "checkerboard"@.len());
        },
    }
}

} // verus!
