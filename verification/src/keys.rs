use vstd::prelude::*;
use crate::config::Config;
use crate::text::{
    split, trim, lowercase, str_chars, split_chars, trim_chars, str_eq, string_of, to_lowercase, is_ws,
    is_whitespace, join, law_split_join, is_ascii_chars, ascii_lower,
};

verus! {

/// A key the bindings can name.
#[derive(Clone, Copy, PartialEq, Eq, Debug, Structural)]
pub enum Key {
    ArrowLeft,
    ArrowRight,
    ArrowUp,
    ArrowDown,
    Enter,
    Escape,
    Space,
    Backspace,
    Tab,
    Home,
    End,
    PageUp,
    PageDown,
    Plus,
    Equals,
    Minus,
    F1,
    F2,
    F3,
    F4,
    F5,
    F6,
    F7,
    F8,
    F9,
    F10,
    F11,
    F12,
    A,
    B,
    C,
    D,
    E,
    F,
    G,
    H,
    I,
    J,
    K,
    L,
    M,
    N,
    O,
    P,
    Q,
    R,
    S,
    T,
    U,
    V,
    W,
    X,
    Y,
    Z,
    Num0,
    Num1,
    Num2,
    Num3,
    Num4,
    Num5,
    Num6,
    Num7,
    Num8,
    Num9,
    /// Any key without a name in the bindings.
    Other,
}

/// Which modifier keys are held.
#[derive(Clone, Copy, PartialEq, Eq, Debug, Structural)]
pub struct Modifiers {
    pub ctrl: bool,
    pub alt: bool,
    pub shift: bool,
}

/// One input event of a frame.
pub enum InputEvent {
    /// A key went down (`pressed`) or up, with the modifiers held at that moment.
    Key { key: Key, pressed: bool, modifiers: Modifiers },
    /// Text typed.
    Text(String),
    /// Any other event.
    Other,
}

/// The input of one frame: its events and the modifiers held.
pub struct InputSnapshot {
    pub events: Vec<InputEvent>,
    pub modifiers: Modifiers,
}

/// Which bound actions were triggered in a frame.
pub struct KeyboardState {
    pub prev_page: bool,
    pub next_page: bool,
    pub prev_page_single: bool,
    pub next_page_single: bool,
    pub left: bool,
    pub right: bool,
    pub up: bool,
    pub dn: bool,
    pub enter: bool,
    pub fullscreen: bool,
    pub borderless: bool,
    pub esc: bool,
    pub toggle_tree: bool,
    pub toggle_fit: bool,
    pub zoom_in: bool,
    pub zoom_out: bool,
    pub zoom_reset: bool,
    pub toggle_manga: bool,
    pub rcw: bool,
    pub rccw: bool,
    pub prev_dir: bool,
    pub next_dir: bool,
    pub sort_settings: bool,
    pub first_page: bool,
    pub last_page: bool,
    pub bs: bool,
    pub open_key_config: bool,
    pub open_external_1: bool,
    pub open_external_2: bool,
    pub open_external_3: bool,
    pub open_external_4: bool,
    pub open_external_5: bool,
    pub toggle_linear: bool,
    pub toggle_rtl: bool,
    pub quit: bool,
    pub toggle_bg: bool,
    pub toggle_debug: bool,
    pub toggle_limiter: bool,
}

/// The name a key is saved under in the bindings.
pub open spec fn key_name(k: Key) -> Option<Seq<char>> {
    match k {
        Key::ArrowLeft => Some("ArrowLeft"@),
        Key::ArrowRight => Some("ArrowRight"@),
        Key::ArrowUp => Some("ArrowUp"@),
        Key::ArrowDown => Some("ArrowDown"@),
        Key::Enter => Some("Enter"@),
        Key::Escape => Some("Escape"@),
        Key::Space => Some("Space"@),
        Key::Backspace => Some("Backspace"@),
        Key::Tab => Some("Tab"@),
        Key::Home => Some("Home"@),
        Key::End => Some("End"@),
        Key::PageUp => Some("PageUp"@),
        Key::PageDown => Some("PageDown"@),
        Key::Plus => Some("Plus"@),
        Key::Equals => Some("Equals"@),
        Key::Minus => Some("Minus"@),
        Key::F1 => Some("F1"@),
        Key::F2 => Some("F2"@),
        Key::F3 => Some("F3"@),
        Key::F4 => Some("F4"@),
        Key::F5 => Some("F5"@),
        Key::F6 => Some("F6"@),
        Key::F7 => Some("F7"@),
        Key::F8 => Some("F8"@),
        Key::F9 => Some("F9"@),
        Key::F10 => Some("F10"@),
        Key::F11 => Some("F11"@),
        Key::F12 => Some("F12"@),
        Key::A => Some("A"@),
        Key::B => Some("B"@),
        Key::C => Some("C"@),
        Key::D => Some("D"@),
        Key::E => Some("E"@),
        Key::F => Some("F"@),
        Key::G => Some("G"@),
        Key::H => Some("H"@),
        Key::I => Some("I"@),
        Key::J => Some("J"@),
        Key::K => Some("K"@),
        Key::L => Some("L"@),
        Key::M => Some("M"@),
        Key::N => Some("N"@),
        Key::O => Some("O"@),
        Key::P => Some("P"@),
        Key::Q => Some("Q"@),
        Key::R => Some("R"@),
        Key::S => Some("S"@),
        Key::T => Some("T"@),
        Key::U => Some("U"@),
        Key::V => Some("V"@),
        Key::W => Some("W"@),
        Key::X => Some("X"@),
        Key::Y => Some("Y"@),
        Key::Z => Some("Z"@),
        Key::Num0 => Some("0"@),
        Key::Num1 => Some("1"@),
        Key::Num2 => Some("2"@),
        Key::Num3 => Some("3"@),
        Key::Num4 => Some("4"@),
        Key::Num5 => Some("5"@),
        Key::Num6 => Some("6"@),
        Key::Num7 => Some("7"@),
        Key::Num8 => Some("8"@),
        Key::Num9 => Some("9"@),
        Key::Other => None,
    }
}

/// The name a key is saved under in the bindings, if it has one.
pub fn key_to_str(key: Key) -> (r: Option<&'static str>)
    ensures
        match r {
            Some(s) => key_name(key) == Some(s@),
            None => key_name(key) is None,
        },
{
    match key {
        Key::ArrowLeft => Some("ArrowLeft"),
        Key::ArrowRight => Some("ArrowRight"),
        Key::ArrowUp => Some("ArrowUp"),
        Key::ArrowDown => Some("ArrowDown"),
        Key::Enter => Some("Enter"),
        Key::Escape => Some("Escape"),
        Key::Space => Some("Space"),
        Key::Backspace => Some("Backspace"),
        Key::Tab => Some("Tab"),
        Key::Home => Some("Home"),
        Key::End => Some("End"),
        Key::PageUp => Some("PageUp"),
        Key::PageDown => Some("PageDown"),
        Key::Plus => Some("Plus"),
        Key::Equals => Some("Equals"),
        Key::Minus => Some("Minus"),
        Key::F1 => Some("F1"),
        Key::F2 => Some("F2"),
        Key::F3 => Some("F3"),
        Key::F4 => Some("F4"),
        Key::F5 => Some("F5"),
        Key::F6 => Some("F6"),
        Key::F7 => Some("F7"),
        Key::F8 => Some("F8"),
        Key::F9 => Some("F9"),
        Key::F10 => Some("F10"),
        Key::F11 => Some("F11"),
        Key::F12 => Some("F12"),
        Key::A => Some("A"),
        Key::B => Some("B"),
        Key::C => Some("C"),
        Key::D => Some("D"),
        Key::E => Some("E"),
        Key::F => Some("F"),
        Key::G => Some("G"),
        Key::H => Some("H"),
        Key::I => Some("I"),
        Key::J => Some("J"),
        Key::K => Some("K"),
        Key::L => Some("L"),
        Key::M => Some("M"),
        Key::N => Some("N"),
        Key::O => Some("O"),
        Key::P => Some("P"),
        Key::Q => Some("Q"),
        Key::R => Some("R"),
        Key::S => Some("S"),
        Key::T => Some("T"),
        Key::U => Some("U"),
        Key::V => Some("V"),
        Key::W => Some("W"),
        Key::X => Some("X"),
        Key::Y => Some("Y"),
        Key::Z => Some("Z"),
        Key::Num0 => Some("0"),
        Key::Num1 => Some("1"),
        Key::Num2 => Some("2"),
        Key::Num3 => Some("3"),
        Key::Num4 => Some("4"),
        Key::Num5 => Some("5"),
        Key::Num6 => Some("6"),
        Key::Num7 => Some("7"),
        Key::Num8 => Some("8"),
        Key::Num9 => Some("9"),
        Key::Other => None,
    }
}

/// Lowercase names (and short forms) the bindings may use for each key, in the order
/// they are tried.
pub open spec fn key_names_lower() -> Seq<(Seq<char>, Key)> {
    seq![
        ("arrowleft"@, Key::ArrowLeft),
        ("left"@, Key::ArrowLeft),
        ("arrowright"@, Key::ArrowRight),
        ("right"@, Key::ArrowRight),
        ("arrowup"@, Key::ArrowUp),
        ("up"@, Key::ArrowUp),
        ("arrowdown"@, Key::ArrowDown),
        ("down"@, Key::ArrowDown),
        ("enter"@, Key::Enter),
        ("escape"@, Key::Escape),
        ("esc"@, Key::Escape),
        ("space"@, Key::Space),
        ("backspace"@, Key::Backspace),
        ("bs"@, Key::Backspace),
        ("tab"@, Key::Tab),
        ("home"@, Key::Home),
        ("end"@, Key::End),
        ("pageup"@, Key::PageUp),
        ("pgup"@, Key::PageUp),
        ("pagedown"@, Key::PageDown),
        ("pgdn"@, Key::PageDown),
        ("plus"@, Key::Plus),
        ("equals"@, Key::Equals),
        ("minus"@, Key::Minus),
        ("f1"@, Key::F1),
        ("f2"@, Key::F2),
        ("f3"@, Key::F3),
        ("f4"@, Key::F4),
        ("f5"@, Key::F5),
        ("f6"@, Key::F6),
        ("f7"@, Key::F7),
        ("f8"@, Key::F8),
        ("f9"@, Key::F9),
        ("f10"@, Key::F10),
        ("f11"@, Key::F11),
        ("f12"@, Key::F12),
        ("a"@, Key::A),
        ("b"@, Key::B),
        ("c"@, Key::C),
        ("d"@, Key::D),
        ("e"@, Key::E),
        ("f"@, Key::F),
        ("g"@, Key::G),
        ("h"@, Key::H),
        ("i"@, Key::I),
        ("j"@, Key::J),
        ("k"@, Key::K),
        ("l"@, Key::L),
        ("m"@, Key::M),
        ("n"@, Key::N),
        ("o"@, Key::O),
        ("p"@, Key::P),
        ("q"@, Key::Q),
        ("r"@, Key::R),
        ("s"@, Key::S),
        ("t"@, Key::T),
        ("u"@, Key::U),
        ("v"@, Key::V),
        ("w"@, Key::W),
        ("x"@, Key::X),
        ("y"@, Key::Y),
        ("z"@, Key::Z),
        ("0"@, Key::Num0),
        ("1"@, Key::Num1),
        ("2"@, Key::Num2),
        ("3"@, Key::Num3),
        ("4"@, Key::Num4),
        ("5"@, Key::Num5),
        ("6"@, Key::Num6),
        ("7"@, Key::Num7),
        ("8"@, Key::Num8),
        ("9"@, Key::Num9),
    ]
}

/// The first entry of `table` named `s`.
pub open spec fn key_lookup(table: Seq<(Seq<char>, Key)>, s: Seq<char>) -> Option<Key>
    decreases table.len(),
{
    if table.len() == 0 {
        None
    } else if table[0].0 == s {
        Some(table[0].1)
    } else {
        key_lookup(table.drop_first(), s)
    }
}

/// The key a binding names, compared without regard to case.
pub open spec fn key_of_name(s: Seq<char>) -> Option<Key> {
    key_lookup(key_names_lower(), lowercase(s))
}

pub open spec fn key_table_view(v: Seq<(&str, Key)>) -> Seq<(Seq<char>, Key)> {
    v.map_values(|p: (&str, Key)| (p.0@, p.1))
}

fn key_table() -> (r: Vec<(&'static str, Key)>)
    ensures
        key_table_view(r@) == key_names_lower(),
{
    let r = vec![
        ("arrowleft", Key::ArrowLeft),
        ("left", Key::ArrowLeft),
        ("arrowright", Key::ArrowRight),
        ("right", Key::ArrowRight),
        ("arrowup", Key::ArrowUp),
        ("up", Key::ArrowUp),
        ("arrowdown", Key::ArrowDown),
        ("down", Key::ArrowDown),
        ("enter", Key::Enter),
        ("escape", Key::Escape),
        ("esc", Key::Escape),
        ("space", Key::Space),
        ("backspace", Key::Backspace),
        ("bs", Key::Backspace),
        ("tab", Key::Tab),
        ("home", Key::Home),
        ("end", Key::End),
        ("pageup", Key::PageUp),
        ("pgup", Key::PageUp),
        ("pagedown", Key::PageDown),
        ("pgdn", Key::PageDown),
        ("plus", Key::Plus),
        ("equals", Key::Equals),
        ("minus", Key::Minus),
        ("f1", Key::F1),
        ("f2", Key::F2),
        ("f3", Key::F3),
        ("f4", Key::F4),
        ("f5", Key::F5),
        ("f6", Key::F6),
        ("f7", Key::F7),
        ("f8", Key::F8),
        ("f9", Key::F9),
        ("f10", Key::F10),
        ("f11", Key::F11),
        ("f12", Key::F12),
        ("a", Key::A),
        ("b", Key::B),
        ("c", Key::C),
        ("d", Key::D),
        ("e", Key::E),
        ("f", Key::F),
        ("g", Key::G),
        ("h", Key::H),
        ("i", Key::I),
        ("j", Key::J),
        ("k", Key::K),
        ("l", Key::L),
        ("m", Key::M),
        ("n", Key::N),
        ("o", Key::O),
        ("p", Key::P),
        ("q", Key::Q),
        ("r", Key::R),
        ("s", Key::S),
        ("t", Key::T),
        ("u", Key::U),
        ("v", Key::V),
        ("w", Key::W),
        ("x", Key::X),
        ("y", Key::Y),
        ("z", Key::Z),
        ("0", Key::Num0),
        ("1", Key::Num1),
        ("2", Key::Num2),
        ("3", Key::Num3),
        ("4", Key::Num4),
        ("5", Key::Num5),
        ("6", Key::Num6),
        ("7", Key::Num7),
        ("8", Key::Num8),
        ("9", Key::Num9),
    ];
    assert(key_table_view(r@) =~= key_names_lower());
    r
}

/// The key a binding names (`ArrowLeft`, `left`, `PgUp`, `F5`, `a`, `7`, ...), case ignored.
pub fn match_key(s: &str) -> (r: Option<Key>)
    ensures
        r == key_of_name(s@),
{
    let lower = to_lowercase(s);
    assert(lower@ == lowercase(s@));
    let table = key_table();
    let ghost t = key_table_view(table@);
    let mut i: usize = 0;
    assert(t.skip(0) =~= t);
    while i < table.len()
        invariant
            i <= table@.len(),
            t == key_table_view(table@),
            t == key_names_lower(),
            lower@ == lowercase(s@),
            key_lookup(t, lower@) == key_lookup(t.skip(i as int), lower@),
        decreases table.len() - i,
    {
        let (name, key) = table[i];
        assert(t.skip(i as int)[0] == t[i as int]);
        assert(t.skip(i as int).drop_first() =~= t.skip(i + 1));
        assert(t[i as int] == (name@, key));
        if str_eq(name, lower.as_str()) {
            return Some(key);
        }
        i = i + 1;
    }
    assert(t.skip(i as int).len() == 0);
    None
}

/// Whether a key-down event for `k` is among the events.
pub open spec fn key_went_down(events: Seq<InputEvent>, k: Key) -> bool {
    exists|j: int|
        0 <= j < events.len() && (#[trigger] events[j] matches InputEvent::Key { key, pressed, .. } && pressed
            && key == k)
}

/// Whether the text `t` was typed among the events.
pub open spec fn text_typed(events: Seq<InputEvent>, t: Seq<char>) -> bool {
    exists|j: int| 0 <= j < events.len() && (#[trigger] events[j] matches InputEvent::Text(x) && x@ == t)
}

/// A binding of the form `[c]`: text, to be matched against typed characters.
pub open spec fn bracketed(s: Seq<char>) -> bool {
    s.len() >= 3 && s[0] == '[' && s[s.len() - 1] == ']'
}

/// Modifiers named by the first `n` pieces of a `+`-separated binding (case ignored;
/// other names are ignored).
pub open spec fn modifiers_named(parts: Seq<Seq<char>>, n: int) -> Modifiers
    decreases n,
{
    if n <= 0 {
        Modifiers { ctrl: false, alt: false, shift: false }
    } else {
        let m = modifiers_named(parts, n - 1);
        let p = lowercase(parts[n - 1]);
        if p == "ctrl"@ {
            Modifiers { ctrl: true, ..m }
        } else if p == "alt"@ {
            Modifiers { alt: true, ..m }
        } else if p == "shift"@ {
            Modifiers { shift: true, ..m }
        } else {
            m
        }
    }
}

/// Whether a single binding (`Ctrl+Alt+Shift+Key`, or `[c]` for a typed character) was
/// triggered: for `[c]`, `c` was typed; otherwise the named key went down and the held
/// modifiers are exactly the named ones.
pub open spec fn binding_pressed(input: InputSnapshot, s: Seq<char>) -> bool {
    if bracketed(s) {
        text_typed(input.events@, s.subrange(1, s.len() - 1))
    } else {
        let parts = split(s, '+');
        match key_of_name(parts.last()) {
            Some(k) => key_went_down(input.events@, k) && input.modifiers == modifiers_named(
                parts,
                parts.len() - 1,
            ),
            None => false,
        }
    }
}

fn key_went_down_in(events: &Vec<InputEvent>, k: Key) -> (r: bool)
    ensures
        r == key_went_down(events@, k),
{
    let mut i: usize = 0;
    while i < events.len()
        invariant
            i <= events@.len(),
            forall|j: int|
                0 <= j < i ==> !(#[trigger] events@[j] matches InputEvent::Key { key, pressed, .. } && pressed
                    && key == k),
        decreases events.len() - i,
    {
        match &events[i] {
            InputEvent::Key { key, pressed, .. } => {
                if *pressed && *key == k {
                    return true;
                }
            },
            _ => {},
        }
        i = i + 1;
    }
    false
}

fn text_typed_in(events: &Vec<InputEvent>, t: &Vec<char>) -> (r: bool)
    ensures
        r == text_typed(events@, t@),
{
    let ts = string_of(t);
    let mut i: usize = 0;
    while i < events.len()
        invariant
            i <= events@.len(),
            ts@ == t@,
            forall|j: int| 0 <= j < i ==> !(#[trigger] events@[j] matches InputEvent::Text(x) && x@ == t@),
        decreases events.len() - i,
    {
        match &events[i] {
            InputEvent::Text(x) => {
                if str_eq(x.as_str(), ts.as_str()) {
                    return true;
                }
            },
            _ => {},
        }
        i = i + 1;
    }
    false
}

/// Whether a single binding was triggered in this frame.
pub fn is_pressed(input: &InputSnapshot, s: &str) -> (r: bool)
    ensures
        r == binding_pressed(*input, s@),
{
    let cs = str_chars(s);
    if cs.len() >= 3 && cs[0] == '[' && cs[cs.len() - 1] == ']' {
        let mut target: Vec<char> = Vec::new();
        let mut k: usize = 1;
        while k < cs.len() - 1
            invariant
                1 <= k <= cs@.len() - 1,
                cs@.len() >= 3,
                target@ == cs@.subrange(1, k as int),
            decreases cs.len() - 1 - k,
        {
            target.push(cs[k]);
            k = k + 1;
        }
        return text_typed_in(&input.events, &target);
    }
    let parts = split_chars(&cs, '+');
    let ghost pv = parts@.map_values(|p: Vec<char>| p@);
    assert(pv.len() >= 1) by {
        crate::text::lemma_split_nonempty(cs@, '+');
    }
    let mut ctrl = false;
    let mut alt = false;
    let mut shift = false;
    let mut i: usize = 0;
    while i < parts.len() - 1
        invariant
            parts@.len() >= 1,
            i + 1 <= parts@.len(),
            pv == parts@.map_values(|p: Vec<char>| p@),
            (Modifiers { ctrl, alt, shift }) == modifiers_named(pv, i as int),
        decreases parts.len() - i,
    {
        let p = string_of(&parts[i]);
        let low = to_lowercase(p.as_str());
        assert(p@ == pv[i as int]);
        if str_eq(low.as_str(), "ctrl") {
            ctrl = true;
        } else if str_eq(low.as_str(), "alt") {
            alt = true;
        } else if str_eq(low.as_str(), "shift") {
            shift = true;
        }
        i = i + 1;
    }
    let key_part = string_of(&parts[parts.len() - 1]);
    assert(key_part@ == pv.last());
    match match_key(key_part.as_str()) {
        Some(k) => {
            key_went_down_in(&input.events, k) && input.modifiers.ctrl == ctrl && input.modifiers.alt
                == alt && input.modifiers.shift == shift
        },
        None => false,
    }
}

/// Whether the action `name` was triggered: it has a binding, and one of the
/// comma-separated bindings in it (each trimmed) was triggered.
pub open spec fn action_pressed(input: InputSnapshot, keys: Map<Seq<char>, Seq<char>>, name: Seq<char>) -> bool {
    keys.dom().contains(name) && exists|m: int|
        0 <= m < split(keys[name], ',').len() && binding_pressed(
            input,
            trim(#[trigger] split(keys[name], ',')[m]),
        )
}

fn check(input: &InputSnapshot, config: &Config, name: &str) -> (r: bool)
    requires
        config.keys.wf(),
    ensures
        r == action_pressed(*input, config.keys@, name@),
{
    match config.keys.get(name) {
        Some(mapping) => {
            let cs = str_chars(mapping.as_str());
            let pieces = split_chars(&cs, ',');
            let ghost pv = pieces@.map_values(|p: Vec<char>| p@);
            let mut i: usize = 0;
            while i < pieces.len()
                invariant
                    i <= pieces@.len(),
                    pv == pieces@.map_values(|p: Vec<char>| p@),
                    pv == split(mapping@, ','),
                    config.keys@.dom().contains(name@),
                    config.keys@[name@] == mapping@,
                    forall|m: int| 0 <= m < i ==> !binding_pressed(*input, trim(#[trigger] pv[m])),
                decreases pieces.len() - i,
            {
                let t = string_of(&trim_chars(&pieces[i]));
                assert(t@ == trim(pv[i as int]));
                if is_pressed(input, t.as_str()) {
                    assert(split(config.keys@[name@], ',')[i as int] == pv[i as int]);
                    return true;
                }
                i = i + 1;
            }
            false
        },
        None => false,
    }
}

/// Which bound actions this frame's input triggered.
pub fn gather_input(input: &InputSnapshot, config: &Config) -> (r: KeyboardState)
    requires
        config.wf(),
    ensures
        r.prev_page == action_pressed(*input, config.keys@, "PrevPage"@),
        r.next_page == action_pressed(*input, config.keys@, "NextPage"@),
        r.prev_page_single == action_pressed(*input, config.keys@, "PrevPageSingle"@),
        r.next_page_single == action_pressed(*input, config.keys@, "NextPageSingle"@),
        r.left == action_pressed(*input, config.keys@, "Left"@),
        r.right == action_pressed(*input, config.keys@, "Right"@),
        r.up == action_pressed(*input, config.keys@, "Up"@),
        r.dn == action_pressed(*input, config.keys@, "Down"@),
        r.enter == action_pressed(*input, config.keys@, "Enter"@),
        r.fullscreen == action_pressed(*input, config.keys@, "ToggleFullscreen"@),
        r.borderless == action_pressed(*input, config.keys@, "ToggleBorderless"@),
        r.esc == action_pressed(*input, config.keys@, "Escape"@),
        r.toggle_tree == action_pressed(*input, config.keys@, "ToggleTree"@),
        r.toggle_fit == action_pressed(*input, config.keys@, "ToggleFit"@),
        r.zoom_in == action_pressed(*input, config.keys@, "ZoomIn"@),
        r.zoom_out == action_pressed(*input, config.keys@, "ZoomOut"@),
        r.zoom_reset == action_pressed(*input, config.keys@, "ZoomReset"@),
        r.toggle_manga == action_pressed(*input, config.keys@, "ToggleManga"@),
        r.rcw == action_pressed(*input, config.keys@, "RotateCW"@),
        r.rccw == action_pressed(*input, config.keys@, "RotateCCW"@),
        r.prev_dir == action_pressed(*input, config.keys@, "PrevDir"@),
        r.next_dir == action_pressed(*input, config.keys@, "NextDir"@),
        r.sort_settings == action_pressed(*input, config.keys@, "SortSettings"@),
        r.first_page == action_pressed(*input, config.keys@, "FirstPage"@),
        r.last_page == action_pressed(*input, config.keys@, "LastPage"@),
        r.bs == action_pressed(*input, config.keys@, "RevealExplorer"@),
        r.open_key_config == action_pressed(*input, config.keys@, "OpenKeyConfig"@),
        r.open_external_1 == action_pressed(*input, config.keys@, "OpenExternal1"@),
        r.open_external_2 == action_pressed(*input, config.keys@, "OpenExternal2"@),
        r.open_external_3 == action_pressed(*input, config.keys@, "OpenExternal3"@),
        r.open_external_4 == action_pressed(*input, config.keys@, "OpenExternal4"@),
        r.open_external_5 == action_pressed(*input, config.keys@, "OpenExternal5"@),
        r.toggle_linear == action_pressed(*input, config.keys@, "ToggleLinear"@),
        r.toggle_rtl == action_pressed(*input, config.keys@, "ToggleMangaRtl"@),
        r.quit == action_pressed(*input, config.keys@, "Quit"@),
        r.toggle_bg == action_pressed(*input, config.keys@, "ToggleBg"@),
        r.toggle_debug == action_pressed(*input, config.keys@, "ToggleDebug"@),
        r.toggle_limiter == action_pressed(*input, config.keys@, "ToggleLimiter"@),
{
    let prev_page = check(input, config, "PrevPage");
    let next_page = check(input, config, "NextPage");
    let prev_page_single = check(input, config, "PrevPageSingle");
    let next_page_single = check(input, config, "NextPageSingle");
    let left = check(input, config, "Left");
    let right = check(input, config, "Right");
    let up = check(input, config, "Up");
    let dn = check(input, config, "Down");
    let enter = check(input, config, "Enter");
    let fullscreen = check(input, config, "ToggleFullscreen");
    let borderless = check(input, config, "ToggleBorderless");
    let esc = check(input, config, "Escape");
    let toggle_tree = check(input, config, "ToggleTree");
    let toggle_fit = check(input, config, "ToggleFit");
    let zoom_in = check(input, config, "ZoomIn");
    let zoom_out = check(input, config, "ZoomOut");
    let zoom_reset = check(input, config, "ZoomReset");
    let toggle_manga = check(input, config, "ToggleManga");
    let rcw = check(input, config, "RotateCW");
    let rccw = check(input, config, "RotateCCW");
    let prev_dir = check(input, config, "PrevDir");
    let next_dir = check(input, config, "NextDir");
    let sort_settings = check(input, config, "SortSettings");
    let first_page = check(input, config, "FirstPage");
    let last_page = check(input, config, "LastPage");
    let bs = check(input, config, "RevealExplorer");
    let open_key_config = check(input, config, "OpenKeyConfig");
    let open_external_1 = check(input, config, "OpenExternal1");
    let open_external_2 = check(input, config, "OpenExternal2");
    let open_external_3 = check(input, config, "OpenExternal3");
    let open_external_4 = check(input, config, "OpenExternal4");
    let open_external_5 = check(input, config, "OpenExternal5");
    let toggle_linear = check(input, config, "ToggleLinear");
    let toggle_rtl = check(input, config, "ToggleMangaRtl");
    let quit = check(input, config, "Quit");
    let toggle_bg = check(input, config, "ToggleBg");
    let toggle_debug = check(input, config, "ToggleDebug");
    let toggle_limiter = check(input, config, "ToggleLimiter");
    KeyboardState {
        prev_page,
        next_page,
        prev_page_single,
        next_page_single,
        left,
        right,
        up,
        dn,
        enter,
        fullscreen,
        borderless,
        esc,
        toggle_tree,
        toggle_fit,
        zoom_in,
        zoom_out,
        zoom_reset,
        toggle_manga,
        rcw,
        rccw,
        prev_dir,
        next_dir,
        sort_settings,
        first_page,
        last_page,
        bs,
        open_key_config,
        open_external_1,
        open_external_2,
        open_external_3,
        open_external_4,
        open_external_5,
        toggle_linear,
        toggle_rtl,
        quit,
        toggle_bg,
        toggle_debug,
        toggle_limiter,
    }
}

/// The binding text captured for a key press: `Ctrl+`, `Alt+`, `Shift+` for the held
/// modifiers, then the key's name.
pub open spec fn combo_text(m: Modifiers, name: Seq<char>) -> Seq<char> {
    (if m.ctrl {
        "Ctrl+"@
    } else {
        Seq::empty()
    }) + (if m.alt {
        "Alt+"@
    } else {
        Seq::empty()
    }) + (if m.shift {
        "Shift+"@
    } else {
        Seq::empty()
    }) + name
}

/// A typed text captured as a binding: a single ASCII character that is neither a letter,
/// a digit nor whitespace (symbols with no key of their own).
pub open spec fn capturable_text(t: Seq<char>) -> bool {
    t.len() == 1 && t[0] <= '\u{7F}' && !is_ws(t[0]) && !(('a' <= t[0] && t[0] <= 'z') || ('A'
        <= t[0] && t[0] <= 'Z') || ('0' <= t[0] && t[0] <= '9'))
}

/// The binding the first suitable event of `events[i..]` gives: a key press of a named key
/// (with its modifiers), or a capturable typed character as `[c]`.
pub open spec fn combination_from(events: Seq<InputEvent>, i: int) -> Option<Seq<char>>
    decreases events.len() - i,
{
    if i < 0 || i >= events.len() {
        None
    } else {
        match events[i] {
            InputEvent::Key { key, pressed, modifiers } => if pressed && key_name(key) is Some {
                Some(combo_text(modifiers, key_name(key)->0))
            } else {
                combination_from(events, i + 1)
            },
            InputEvent::Text(t) => if capturable_text(t@) {
                Some("["@ + t@ + "]"@)
            } else {
                combination_from(events, i + 1)
            },
            InputEvent::Other => combination_from(events, i + 1),
        }
    }
}

fn append(v: &mut Vec<char>, s: &str)
    ensures
        final(v)@ == old(v)@ + s@,
{
    let cs = str_chars(s);
    let ghost start = v@;
    let mut i: usize = 0;
    while i < cs.len()
        invariant
            i <= cs.len(),
            cs@ == s@,
            v@ == start + cs@.take(i as int),
        decreases cs.len() - i,
    {
        v.push(cs[i]);
        i = i + 1;
        assert(v@ =~= start + cs@.take(i as int));
    }
    assert(cs@.take(i as int) =~= s@);
}

/// The key combination pressed in this frame, as binding text (for example `Ctrl+A`, or
/// `[@]` for a typed symbol), taken from the first event that gives one.
pub fn detect_key_combination(events: &Vec<InputEvent>) -> (r: Option<String>)
    ensures
        match r {
            Some(s) => combination_from(events@, 0) == Some(s@),
            None => combination_from(events@, 0) is None,
        },
{
    let mut i: usize = 0;
    while i < events.len()
        invariant
            i <= events@.len(),
            combination_from(events@, 0) == combination_from(events@, i as int),
        decreases events.len() - i,
    {
        match &events[i] {
            InputEvent::Key { key, pressed, modifiers } => {
                if *pressed {
                    match key_to_str(*key) {
                        Some(name) => {
                            let mut v: Vec<char> = Vec::new();
                            if modifiers.ctrl {
                                append(&mut v, "Ctrl+");
                            }
                            if modifiers.alt {
                                append(&mut v, "Alt+");
                            }
                            if modifiers.shift {
                                append(&mut v, "Shift+");
                            }
                            append(&mut v, name);
                            assert(v@ =~= combo_text(*modifiers, name@));
                            return Some(string_of(&v));
                        },
                        None => {},
                    }
                }
            },
            InputEvent::Text(t) => {
                let cs = str_chars(t.as_str());
                if cs.len() == 1 {
                    let c = cs[0];
                    let alnum = ('a' <= c && c <= 'z') || ('A' <= c && c <= 'Z') || ('0' <= c && c <= '9');
                    if c <= '\u{7F}' && !alnum && !is_whitespace(c) {
                        let mut v: Vec<char> = Vec::new();
                        append(&mut v, "[");
                        append(&mut v, t.as_str());
                        append(&mut v, "]");
                        return Some(string_of(&v));
                    }
                }
            },
            InputEvent::Other => {},
        }
        i = i + 1;
    }
    None
}

} // verus!

verus! {

/// The modifier names a captured binding starts with, in the order it writes them.
pub open spec fn modifier_names(m: Modifiers) -> Seq<Seq<char>> {
    (if m.ctrl {
        seq!["Ctrl"@]
    } else {
        Seq::empty()
    }) + (if m.alt {
        seq!["Alt"@]
    } else {
        Seq::empty()
    }) + (if m.shift {
        seq!["Shift"@]
    } else {
        Seq::empty()
    })
}

proof fn lemma_modifier_words()
    ensures
        lowercase("Ctrl"@) == "ctrl"@,
        lowercase("Alt"@) == "alt"@,
        lowercase("Shift"@) == "shift"@,
        "ctrl"@ != "alt"@,
        "ctrl"@ != "shift"@,
        "alt"@ != "shift"@,
        forall|i: int| 0 <= i < "Ctrl"@.len() ==> "Ctrl"@[i] != '+',
        forall|i: int| 0 <= i < "Alt"@.len() ==> "Alt"@[i] != '+',
        forall|i: int| 0 <= i < "Shift"@.len() ==> "Shift"@[i] != '+',
        "Ctrl+"@ == "Ctrl"@ + seq!['+'],
        "Alt+"@ == "Alt"@ + seq!['+'],
        "Shift+"@ == "Shift"@ + seq!['+'],
{
    reveal_strlit("Ctrl");
    reveal_strlit("Alt");
    reveal_strlit("Shift");
    reveal_strlit("ctrl");
    reveal_strlit("alt");
    reveal_strlit("shift");
    reveal_strlit("Ctrl+");
    reveal_strlit("Alt+");
    reveal_strlit("Shift+");
    assert(is_ascii_chars("Ctrl"@));
    assert("Ctrl"@.map_values(|c: char| ascii_lower(c)) =~= "ctrl"@);
    assert(is_ascii_chars("Alt"@));
    assert("Alt"@.map_values(|c: char| ascii_lower(c)) =~= "alt"@);
    assert(is_ascii_chars("Shift"@));
    assert("Shift"@.map_values(|c: char| ascii_lower(c)) =~= "shift"@);
    assert("ctrl"@.len() != "alt"@.len());
    assert("ctrl"@.len() != "shift"@.len());
    assert("alt"@.len() != "shift"@.len());
    assert("Ctrl+"@ =~= "Ctrl"@ + seq!['+']);
    assert("Alt+"@ =~= "Alt"@ + seq!['+']);
    assert("Shift+"@ =~= "Shift"@ + seq!['+']);
}

proof fn lemma_join_push(ps: Seq<Seq<char>>, x: Seq<char>)
    ensures
        ps.len() == 0 ==> join(ps.push(x), seq!['+']) == x,
        ps.len() > 0 ==> join(ps.push(x), seq!['+']) == join(ps, seq!['+']) + seq!['+'] + x,
{
    assert(ps.push(x).drop_last() =~= ps);
}

proof fn lemma_modifiers_fold(m: Modifiers, name: Seq<char>)
    ensures
        modifiers_named(modifier_names(m).push(name), modifier_names(m).len() as int) == m,
{
    lemma_modifier_words();
    let ms = modifier_names(m);
    let ps = ms.push(name);
    // walk the (at most three) modifier words in order
    let c = if m.ctrl {
        1int
    } else {
        0int
    };
    let a = if m.alt {
        1int
    } else {
        0int
    };
    let s = if m.shift {
        1int
    } else {
        0int
    };
    assert(ms.len() == c + a + s);
    assert(modifiers_named(ps, 0) == Modifiers { ctrl: false, alt: false, shift: false });
    if m.ctrl {
        assert(ps[0] == "Ctrl"@);
    }
    assert(modifiers_named(ps, c) == Modifiers { ctrl: m.ctrl, alt: false, shift: false });
    if m.alt {
        assert(ps[c] == "Alt"@);
    }
    assert(modifiers_named(ps, c + a) == Modifiers { ctrl: m.ctrl, alt: m.alt, shift: false });
    if m.shift {
        assert(ps[c + a] == "Shift"@);
    }
    assert(modifiers_named(ps, c + a + s) == m);
}

/// A captured key combination (see `combo_text`) triggers exactly when its key goes down
/// with exactly the same modifiers held, for a key whose name the bindings resolve back to
/// that key (a name without `+` that is not of the `[c]` form).
pub proof fn law_captured_binding_triggers(input: InputSnapshot, m: Modifiers, name: Seq<char>, k: Key)
    requires
        key_of_name(name) == Some(k),
        forall|i: int| 0 <= i < name.len() ==> name[i] != '+',
        !bracketed(name),
    ensures
        binding_pressed(input, combo_text(m, name)) == (key_went_down(input.events@, k)
            && input.modifiers == m),
{
    lemma_modifier_words();
    let ms = modifier_names(m);
    let ps = ms.push(name);
    let s = combo_text(m, name);
    let e = Seq::<char>::empty();
    // the text is the modifier words and the name, joined by '+'
    let pc = if m.ctrl {
        "Ctrl+"@
    } else {
        e
    };
    let pa = if m.alt {
        "Alt+"@
    } else {
        e
    };
    let psh = if m.shift {
        "Shift+"@
    } else {
        e
    };
    assert(s == pc + pa + psh + name);
    lemma_join_push(ms, name);
    if m.ctrl && m.alt && m.shift {
        assert(ms =~= seq!["Ctrl"@, "Alt"@, "Shift"@]);
        assert(join(ms, seq!['+']) =~= "Ctrl"@ + seq!['+'] + "Alt"@ + seq!['+'] + "Shift"@) by {
            let d1 = ms.drop_last();
            let d2 = d1.drop_last();
            assert(d1 =~= seq!["Ctrl"@, "Alt"@]);
            assert(d2 =~= seq!["Ctrl"@]);
            assert(join(d2, seq!['+']) == "Ctrl"@);
            assert(join(d1, seq!['+']) == join(d2, seq!['+']) + seq!['+'] + "Alt"@);
            assert(join(ms, seq!['+']) == join(d1, seq!['+']) + seq!['+'] + "Shift"@);
        }
    } else if m.ctrl && m.alt {
        assert(ms =~= seq!["Ctrl"@, "Alt"@]);
        assert(join(ms, seq!['+']) =~= "Ctrl"@ + seq!['+'] + "Alt"@) by {
            let d1 = ms.drop_last();
            assert(d1 =~= seq!["Ctrl"@]);
            assert(join(d1, seq!['+']) == "Ctrl"@);
            assert(join(ms, seq!['+']) == join(d1, seq!['+']) + seq!['+'] + "Alt"@);
        }
    } else if m.ctrl && m.shift {
        assert(ms =~= seq!["Ctrl"@, "Shift"@]);
        assert(join(ms, seq!['+']) =~= "Ctrl"@ + seq!['+'] + "Shift"@) by {
            let d1 = ms.drop_last();
            assert(d1 =~= seq!["Ctrl"@]);
            assert(join(d1, seq!['+']) == "Ctrl"@);
            assert(join(ms, seq!['+']) == join(d1, seq!['+']) + seq!['+'] + "Shift"@);
        }
    } else if m.alt && m.shift {
        assert(ms =~= seq!["Alt"@, "Shift"@]);
        assert(join(ms, seq!['+']) =~= "Alt"@ + seq!['+'] + "Shift"@) by {
            let d1 = ms.drop_last();
            assert(d1 =~= seq!["Alt"@]);
            assert(join(d1, seq!['+']) == "Alt"@);
            assert(join(ms, seq!['+']) == join(d1, seq!['+']) + seq!['+'] + "Shift"@);
        }
    } else if m.ctrl {
        assert(ms =~= seq!["Ctrl"@]);
    } else if m.alt {
        assert(ms =~= seq!["Alt"@]);
    } else if m.shift {
        assert(ms =~= seq!["Shift"@]);
    } else {
        assert(ms =~= Seq::<Seq<char>>::empty());
    }
    assert(join(ps, seq!['+']) =~= s);
    assert forall|x: int, i: int| 0 <= x < ps.len() && 0 <= i < ps[x].len() implies ps[x][i] != '+' by {
        if x < ms.len() {
            assert(ps[x] == ms[x]);
        }
    }
    law_split_join(ps, '+');
    assert(split(s, '+') == ps);
    lemma_modifiers_fold(m, name);
    // the text is not of the `[c]` form
    if ms.len() > 0 {
        assert(s[0] != '[') by {
            reveal_strlit("Ctrl+");
            reveal_strlit("Alt+");
            reveal_strlit("Shift+");
            assert(s == pc + pa + psh + name);
        }
    } else {
        assert(s =~= name);
    }
    assert(ps.last() == name);
}

} // verus!
