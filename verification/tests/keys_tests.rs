use hinjaku::config::Config;
use hinjaku::keys::{
    detect_key_combination, gather_input, is_pressed, key_to_str, match_key, InputEvent, InputSnapshot, Key,
    Modifiers,
};

fn mods(ctrl: bool, alt: bool, shift: bool) -> Modifiers {
    Modifiers { ctrl, alt, shift }
}

fn press(key: Key, m: Modifiers) -> InputSnapshot {
    InputSnapshot { events: vec![InputEvent::Key { key, pressed: true, modifiers: m }], modifiers: m }
}

#[test]
fn key_names_match_any_case_and_short_forms() {
    assert_eq!(match_key("ArrowLeft"), Some(Key::ArrowLeft));
    assert_eq!(match_key("left"), Some(Key::ArrowLeft));
    assert_eq!(match_key("PgDn"), Some(Key::PageDown));
    assert_eq!(match_key("BS"), Some(Key::Backspace));
    assert_eq!(match_key("f12"), Some(Key::F12));
    assert_eq!(match_key("7"), Some(Key::Num7));
    assert_eq!(match_key("q"), Some(Key::Q));
    assert_eq!(match_key("Ctrl"), None);
    assert_eq!(match_key(""), None);
}

#[test]
fn key_to_str_names() {
    assert_eq!(key_to_str(Key::Num0), Some("0"));
    assert_eq!(key_to_str(Key::PageUp), Some("PageUp"));
    assert_eq!(key_to_str(Key::Other), None);
}

#[test]
fn bindings_with_modifiers() {
    let ctrl_r = press(Key::R, mods(true, false, false));
    assert!(is_pressed(&ctrl_r, "Ctrl+R"));
    assert!(is_pressed(&ctrl_r, "ctrl+r"));
    assert!(!is_pressed(&ctrl_r, "R"));
    assert!(!is_pressed(&ctrl_r, "Alt+R"));
    let plain = press(Key::R, mods(false, false, false));
    assert!(is_pressed(&plain, "R"));
    assert!(!is_pressed(&plain, "Ctrl+R"));
    assert!(!is_pressed(&plain, "Nope"));
}

#[test]
fn bracketed_bindings_match_typed_text() {
    let typed = InputSnapshot { events: vec![InputEvent::Text("@".to_string())], modifiers: mods(false, false, false) };
    assert!(is_pressed(&typed, "[@]"));
    assert!(!is_pressed(&typed, "[#]"));
    assert!(!is_pressed(&typed, "[]"));
}

#[test]
fn released_keys_do_not_count() {
    let s = InputSnapshot {
        events: vec![InputEvent::Key { key: Key::N, pressed: false, modifiers: mods(false, false, false) }],
        modifiers: mods(false, false, false),
    };
    assert!(!is_pressed(&s, "N"));
}

#[test]
fn gather_input_uses_the_bindings() {
    let cfg = Config::default();
    let k = gather_input(&press(Key::N, mods(false, false, false)), &cfg);
    assert!(k.next_page);
    assert!(!k.prev_page);
    let k = gather_input(&press(Key::Enter, mods(true, false, false)), &cfg);
    assert!(!k.enter);
    let k = gather_input(&press(Key::Enter, mods(false, true, false)), &cfg);
    assert!(k.borderless);
    assert!(!k.fullscreen);
    assert!(!k.enter);
    let k = gather_input(&press(Key::Enter, mods(false, false, true)), &cfg);
    assert!(k.fullscreen);
    assert!(!k.borderless);
    let k = gather_input(&press(Key::W, mods(true, false, false)), &cfg);
    assert!(k.quit);
    let k = gather_input(&press(Key::Space, mods(false, false, false)), &cfg);
    assert!(k.toggle_manga);
}

#[test]
fn captured_combination_is_a_binding_that_triggers() {
    let m = mods(true, true, false);
    let c = detect_key_combination(&vec![InputEvent::Key { key: Key::F5, pressed: true, modifiers: m }]).unwrap();
    assert_eq!(c, "Ctrl+Alt+F5");
    assert!(is_pressed(&press(Key::F5, m), &c));
    let c = detect_key_combination(&vec![InputEvent::Key { key: Key::Num3, pressed: true, modifiers: mods(false, false, true) }]).unwrap();
    assert_eq!(c, "Shift+3");
    assert!(is_pressed(&press(Key::Num3, mods(false, false, true)), &c));
}

#[test]
fn combination_from_typed_symbols_only() {
    let none = mods(false, false, false);
    assert_eq!(detect_key_combination(&vec![InputEvent::Text("@".to_string())]), Some("[@]".to_string()));
    assert_eq!(detect_key_combination(&vec![InputEvent::Text("a".to_string())]), None);
    assert_eq!(detect_key_combination(&vec![InputEvent::Text(" ".to_string())]), None);
    assert_eq!(detect_key_combination(&vec![InputEvent::Text("ab".to_string())]), None);
    assert_eq!(
        detect_key_combination(&vec![
            InputEvent::Other,
            InputEvent::Key { key: Key::Other, pressed: true, modifiers: none },
            InputEvent::Key { key: Key::A, pressed: false, modifiers: none },
            InputEvent::Key { key: Key::B, pressed: true, modifiers: none },
        ]),
        Some("B".to_string())
    );
    assert_eq!(detect_key_combination(&vec![]), None);
}

#[test]
fn every_key_name_resolves_to_its_key() {
    for k in [Key::ArrowLeft, Key::ArrowRight, Key::ArrowUp, Key::ArrowDown, Key::Enter, Key::Escape, Key::Space, Key::Backspace, Key::Tab, Key::Home, Key::End, Key::PageUp, Key::PageDown, Key::Plus, Key::Equals, Key::Minus, Key::F1, Key::F2, Key::F3, Key::F4, Key::F5, Key::F6, Key::F7, Key::F8, Key::F9, Key::F10, Key::F11, Key::F12, Key::A, Key::B, Key::C, Key::D, Key::E, Key::F, Key::G, Key::H, Key::I, Key::J, Key::K, Key::L, Key::M, Key::N, Key::O, Key::P, Key::Q, Key::R, Key::S, Key::T, Key::U, Key::V, Key::W, Key::X, Key::Y, Key::Z, Key::Num0, Key::Num1, Key::Num2, Key::Num3, Key::Num4, Key::Num5, Key::Num6, Key::Num7, Key::Num8, Key::Num9] {
        let name = key_to_str(k).unwrap();
        assert_eq!(match_key(name), Some(k));
        assert_eq!(match_key(&name.to_uppercase()), Some(k));
        assert!(!name.contains('+'));
        let m = mods(true, false, true);
        let combo = detect_key_combination(&vec![InputEvent::Key { key: k, pressed: true, modifiers: m }]).unwrap();
        assert!(is_pressed(&press(k, m), &combo));
        assert!(!is_pressed(&press(k, mods(true, false, false)), &combo));
    }
}
