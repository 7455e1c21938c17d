use hinjaku::commands::{keyboard_commands, mouse_command, Command};
use hinjaku::config::Config;
use hinjaku::keys::{gather_input, InputEvent, InputSnapshot, Key, KeyboardState, Modifiers};

fn keys_for(key: Key, ctrl: bool) -> KeyboardState {
    let m = Modifiers { ctrl, alt: false, shift: false };
    let s = InputSnapshot { events: vec![InputEvent::Key { key, pressed: true, modifiers: m }], modifiers: m };
    gather_input(&s, &Config::default())
}

#[test]
fn viewer_keys_give_viewer_commands() {
    assert_eq!(keyboard_commands(&keys_for(Key::N, false), false, false, false), vec![Command::NextPage]);
    assert_eq!(keyboard_commands(&keys_for(Key::R, true), false, false, false), vec![Command::RotateCcw]);
    assert_eq!(keyboard_commands(&keys_for(Key::E, false), false, false, false), vec![Command::OpenExternal(0)]);
    assert_eq!(keyboard_commands(&keys_for(Key::Enter, false), false, false, false), vec![Command::ToggleMaximized]);
}

#[test]
fn tree_keys_give_tree_commands() {
    assert_eq!(keyboard_commands(&keys_for(Key::ArrowUp, false), true, false, false), vec![Command::TreeUp]);
    assert_eq!(keyboard_commands(&keys_for(Key::Enter, false), true, false, false), vec![Command::TreeActivate]);
    assert_eq!(
        keyboard_commands(&keys_for(Key::Escape, false), true, false, false),
        vec![Command::HideTree, Command::ExitToBase]
    );
}

#[test]
fn dialogs_and_typing_block_keys() {
    assert!(keyboard_commands(&keys_for(Key::N, false), false, true, false).is_empty());
    assert!(keyboard_commands(&keys_for(Key::N, false), false, false, true).is_empty());
    assert_eq!(keyboard_commands(&keys_for(Key::Escape, false), false, false, true), vec![Command::ExitToBase]);
    assert!(keyboard_commands(&keys_for(Key::Escape, false), false, true, false).is_empty());
}

#[test]
fn quit_comes_first() {
    let c = keyboard_commands(&keys_for(Key::W, true), false, false, false);
    assert_eq!(c, vec![Command::Quit]);
}

#[test]
fn mouse_button_actions() {
    assert_eq!(mouse_command("PrevPage"), Some(Command::PrevPage));
    assert_eq!(mouse_command("ToggleMangaRtl"), Some(Command::ToggleRtl));
    assert_eq!(mouse_command("WindSizeLock"), Some(Command::WindSizeLock));
    assert_eq!(mouse_command("Nothing"), None);
}
