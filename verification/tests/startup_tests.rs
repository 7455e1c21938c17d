use hinjaku::config::RendererMode;
use hinjaku::startup::{build_window_title, parse_args, settings_file_name};

fn args(v: &[&str]) -> Vec<String> {
    v.iter().map(|s| s.to_string()).collect()
}

#[test]
fn parse_args_reads_every_option() {
    let r = parse_args(&args(&["hinjaku", "-c", "sub.ini", "-d", "-W", "-pro", "C:\\img"]));
    assert_eq!(r, (Some("sub.ini".to_string()), Some("C:\\img".to_string()), true, Some("wgpu".to_string()), true));
}

#[test]
fn parse_args_defaults_and_first_path_wins() {
    let r = parse_args(&args(&["hinjaku", "a", "b", "--unknown"]));
    assert_eq!(r, (None, Some("a".to_string()), false, None, false));
    let r = parse_args(&args(&["hinjaku"]));
    assert_eq!(r, (None, None, false, None, false));
}

#[test]
fn parse_args_trailing_config_is_ignored_and_last_renderer_wins() {
    let r = parse_args(&args(&["hinjaku", "--debug", "-W", "-O", "--config"]));
    assert_eq!(r, (None, None, true, Some("glow".to_string()), false));
}

#[test]
fn parse_args_skips_program_name() {
    let r = parse_args(&args(&["-d"]));
    assert_eq!(r, (None, None, false, None, false));
}

#[test]
fn window_title_parts() {
    assert_eq!(build_window_title(Some("custom.ini"), &RendererMode::Glow, true), "Hinjaku - ProMode - OpenGL {custom.ini}");
    assert_eq!(build_window_title(Some("config.ini"), &RendererMode::Wgpu, false), "Hinjaku - Wgpu");
    assert_eq!(build_window_title(None, &RendererMode::Glow, false), "Hinjaku - OpenGL");
}

#[test]
fn profile_names_become_ini_files() {
    assert_eq!(settings_file_name(None), "config.ini");
    assert_eq!(settings_file_name(Some("sub")), "sub.ini");
    assert_eq!(settings_file_name(Some("custom.ini")), "custom.ini");
    assert_eq!(settings_file_name(Some("Work.INI")), "Work.INI");
    assert_eq!(settings_file_name(Some("a.ini.bak")), "a.ini.bak.ini");
}
