use hinjaku::config::{
    BackgroundMode, parse_display_mode, parse_filter_mode, parse_sort_mode, parse_window_mode, Config, DisplayMode, FilterMode,
    SortMode, WindowMode,
};
use hinjaku::settings::{
    app_section, config_from_ini, config_to_ini, fresh_config, settings_from_text, stored_numbers, NumberTexts,
};
use ini::Ini;

fn texts() -> NumberTexts {
    NumberTexts {
        window_x: "10".to_string(),
        window_y: "20".to_string(),
        window_width: "800".to_string(),
        window_height: "600".to_string(),
        limiter_page_duration: "0.05".to_string(),
        limiter_folder_duration: "0.2".to_string(),
    }
}

#[test]
fn defaults() {
    let c = Config::default();
    assert_eq!(c.external_apps.len(), 9);
    assert_eq!(c.external_apps[0].exe, "cmd");
    assert_eq!(c.filter_mode, FilterMode::Bilinear);
    assert_eq!(c.pdf_render_dpi, 96);
    assert_eq!(c.keys.get("NextPage").map(|s| s.as_str()), Some("ArrowRight, N"));
    assert!(c.is_first_run);
    assert!(!fresh_config(true).is_first_run);
    assert!(fresh_config(false).is_first_run);
}

#[test]
fn names_parse_in_any_case() {
    assert_eq!(parse_filter_mode("LANCZOS"), FilterMode::Lanczos);
    assert_eq!(parse_filter_mode("bogus"), FilterMode::Bilinear);
    assert_eq!(parse_sort_mode("MTime"), SortMode::Mtime);
    assert_eq!(parse_display_mode("windowfit"), DisplayMode::WindowFit);
    assert_eq!(parse_window_mode("FullScreen"), WindowMode::Fullscreen);
}

#[test]
fn section_names() {
    assert_eq!(app_section(0), "App_1");
    assert_eq!(app_section(8), "App_9");
}

#[test]
fn saved_settings_read_back() {
    let mut c = Config::default();
    c.filter_mode = FilterMode::Lanczos;
    c.sort_mode = SortMode::Size;
    c.recent_paths = vec!["C:\\a".to_string(), "D:\\b c".to_string()];
    c.pdf_render_dpi = 300;
    c.window_mode = WindowMode::Borderless;
    c.display_mode = DisplayMode::Manual;
    c.external_apps[2].exe = "viewer.exe".to_string();
    c.external_apps[2].args = vec!["-open".to_string(), "%A".to_string()];
    c.external_apps[2].close_after_launch = true;
    c.keys.insert("ZoomReset".to_string(), "Ctrl+0".to_string());
    c.is_first_run = false;
    let ini = config_to_ini(&c, &texts());
    let back = config_from_ini(&ini);
    assert_eq!(back.filter_mode, FilterMode::Lanczos);
    assert_eq!(back.sort_mode, SortMode::Size);
    assert_eq!(back.recent_paths, c.recent_paths);
    assert_eq!(back.pdf_render_dpi, 300);
    assert_eq!(back.window_mode, WindowMode::Borderless);
    assert_eq!(back.display_mode, DisplayMode::Manual);
    assert_eq!(back.external_apps[2].exe, "viewer.exe");
    assert_eq!(back.external_apps[2].args, vec!["-open", "%A"]);
    assert!(back.external_apps[2].close_after_launch);
    assert_eq!(back.keys.get("ZoomReset").map(|s| s.as_str()), Some("Ctrl+0"));
    assert!(!back.is_first_run);
    assert_eq!(ini.section(Some("Global")).and_then(|s| s.get("WindowWidth")), Some("800"));
}

#[test]
fn reading_clamps_and_understands_old_keys() {
    let mut ini = Ini::new();
    ini.with_section(Some("Global"))
        .set("PdfRenderDpi", "5000")
        .set("LinearFilter", "false")
        .set("IsFullscreen", "true")
        .set("ReadingMode", "true")
        .set("RecentPaths", "|a||b|");
    let c = config_from_ini(&ini);
    assert_eq!(c.pdf_render_dpi, 600);
    assert_eq!(c.filter_mode, FilterMode::Nearest);
    assert_eq!(c.window_mode, WindowMode::Fullscreen);
    assert!(c.limiter_mode);
    assert_eq!(c.recent_paths, vec!["a", "b"]);
    let mut ini = Ini::new();
    ini.with_section(Some("Global")).set("PdfRenderDpi", "abc").set("WindowMode", "weird");
    let c = config_from_ini(&ini);
    assert_eq!(c.pdf_render_dpi, 96);
    assert_eq!(c.window_mode, WindowMode::Standard);
}

#[test]
fn stored_numbers_with_older_key_names() {
    let mut ini = Ini::new();
    ini.with_section(Some("Global")).set("WindowX", "12.5").set("ReadingGuardDuration", "0.3");
    let t = stored_numbers(&ini);
    assert_eq!(t.window_x.as_deref(), Some("12.5"));
    assert_eq!(t.window_y, None);
    assert_eq!(t.limiter_page_duration.as_deref(), Some("0.3"));
    ini.with_section(Some("Global")).set("LimiterPageDuration", "0.05");
    let t = stored_numbers(&ini);
    assert_eq!(t.limiter_page_duration.as_deref(), Some("0.05"));
}

#[test]
fn background_and_pdf_notice_read_back() {
    let mut c = Config::default();
    c.bg_mode = BackgroundMode::Checkerboard;
    c.show_pdf_warning = false;
    let ini = config_to_ini(&c, &texts());
    assert_eq!(ini.section(Some("Global")).and_then(|s| s.get("BackgroundMode")), Some("Checkerboard"));
    let back = config_from_ini(&ini);
    assert_eq!(back.bg_mode, BackgroundMode::Checkerboard);
    assert!(!back.show_pdf_warning);
}

#[test]
fn settings_are_read_from_file_text() {
    let text = "\u{feff}[Global]\nSortMode=Size\nWindowWidth=640\nBackgroundMode=white\n[KeyConfig]\nZoomReset=Ctrl+0\n";
    let (c, numbers) = settings_from_text(text).unwrap();
    assert_eq!(c.sort_mode, SortMode::Size);
    assert_eq!(c.bg_mode, BackgroundMode::White);
    assert_eq!(c.keys.get("ZoomReset").map(|s| s.as_str()), Some("Ctrl+0"));
    assert_eq!(numbers.window_width.as_deref(), Some("640"));
    assert_eq!(numbers.window_height, None);
    assert!(settings_from_text("[Global\nx=1\n").is_none());
}
