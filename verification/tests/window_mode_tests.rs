use hinjaku::config::WindowMode;
use hinjaku::window_mode::{initial_state, WindowCommand};

#[test]
fn start_in_fullscreen_remembers_standard() {
    let s = initial_state(WindowMode::Fullscreen, false);
    assert_eq!(s.last_base_mode, WindowMode::Standard);
    let s = initial_state(WindowMode::Borderless, true);
    assert_eq!(s.last_base_mode, WindowMode::Borderless);
}

#[test]
fn fullscreen_twice_returns() {
    let mut s = initial_state(WindowMode::Borderless, false);
    let e = s.toggle_fullscreen();
    assert_eq!(s.window_mode, WindowMode::Fullscreen);
    assert_eq!(e.commands, vec![WindowCommand::Decorations(false), WindowCommand::Fullscreen(true), WindowCommand::Maximized(false)]);
    assert!(!e.resize);
    let e = s.toggle_fullscreen();
    assert_eq!(s.window_mode, WindowMode::Borderless);
    assert!(e.resize);
    assert!(e.save_mode);
}

#[test]
fn maximize_in_fullscreen_goes_back_maximized() {
    let mut s = initial_state(WindowMode::Standard, false);
    s.toggle_fullscreen();
    let e = s.toggle_maximized();
    assert_eq!(s.window_mode, WindowMode::Standard);
    assert!(s.is_maximized);
    assert_eq!(e.commands, vec![WindowCommand::Fullscreen(false), WindowCommand::Decorations(true), WindowCommand::Maximized(true)]);
    let e = s.toggle_maximized();
    assert!(!s.is_maximized);
    assert_eq!(e.commands, vec![WindowCommand::Maximized(false)]);
    assert!(!e.save_mode);
}

#[test]
fn escape_only_leaves_fullscreen() {
    let mut s = initial_state(WindowMode::Borderless, false);
    let e = s.exit_to_base();
    assert!(e.commands.is_empty());
    assert_eq!(s.window_mode, WindowMode::Borderless);
    s.toggle_fullscreen();
    s.exit_to_base();
    assert_eq!(s.window_mode, WindowMode::Borderless);
}

#[test]
fn borderless_toggle() {
    let mut s = initial_state(WindowMode::Standard, false);
    s.toggle_borderless();
    assert_eq!(s.window_mode, WindowMode::Borderless);
    s.toggle_borderless();
    assert_eq!(s.window_mode, WindowMode::Standard);
    s.toggle_fullscreen();
    s.toggle_borderless();
    assert_eq!(s.window_mode, WindowMode::Borderless);
    assert_eq!(s.last_base_mode, WindowMode::Borderless);
}
