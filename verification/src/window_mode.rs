use vstd::prelude::*;
use crate::config::WindowMode;

verus! {

/// A request to the window system.
#[derive(Clone, Copy, PartialEq, Eq, Debug, Structural)]
pub enum WindowCommand {
    Fullscreen(bool),
    Decorations(bool),
    Maximized(bool),
}

/// Window state the mode changes decide on.
#[derive(Clone, Copy, PartialEq, Eq, Debug, Structural)]
pub struct WindowState {
    pub window_mode: WindowMode,
    /// The mode before full screen (standard or borderless).
    pub last_base_mode: WindowMode,
    pub is_maximized: bool,
}

/// What a mode change asks of the caller: window commands to send (in order), whether the
/// mode is to be written to the settings and saved, and whether the window is to be resized
/// to the target display size.
pub struct WindowEffects {
    pub commands: Vec<WindowCommand>,
    pub save_mode: bool,
    pub resize: bool,
}

/// The state at start-up: the saved mode, with full screen remembering standard as its base.
pub open spec fn initial_state_of(mode: WindowMode, maximized: bool) -> WindowState {
    WindowState {
        window_mode: mode,
        last_base_mode: if mode == WindowMode::Fullscreen {
            WindowMode::Standard
        } else {
            mode
        },
        is_maximized: maximized,
    }
}

/// The state at start-up (see `initial_state_of`).
pub fn initial_state(mode: WindowMode, maximized: bool) -> (r: WindowState)
    ensures
        r == initial_state_of(mode, maximized),
{
    WindowState {
        window_mode: mode,
        last_base_mode: if mode == WindowMode::Fullscreen {
            WindowMode::Standard
        } else {
            mode
        },
        is_maximized: maximized,
    }
}

/// The state after switching to `mode`: a mode other than full screen becomes the base.
pub open spec fn set_mode_state(s: WindowState, mode: WindowMode) -> WindowState {
    WindowState {
        window_mode: mode,
        last_base_mode: if mode != WindowMode::Fullscreen {
            mode
        } else {
            s.last_base_mode
        },
        is_maximized: s.is_maximized,
    }
}

/// Commands for switching to `mode`: standard and borderless leave full screen, set the
/// frame on or off and restore the maximised state; full screen drops the frame, enters full
/// screen and leaves maximised.
pub open spec fn set_mode_commands(s: WindowState, mode: WindowMode) -> Seq<WindowCommand> {
    match mode {
        WindowMode::Standard => seq![
            WindowCommand::Fullscreen(false),
            WindowCommand::Decorations(true),
            WindowCommand::Maximized(s.is_maximized),
        ],
        WindowMode::Borderless => seq![
            WindowCommand::Fullscreen(false),
            WindowCommand::Decorations(false),
            WindowCommand::Maximized(s.is_maximized),
        ],
        WindowMode::Fullscreen => seq![
            WindowCommand::Decorations(false),
            WindowCommand::Fullscreen(true),
            WindowCommand::Maximized(false),
        ],
    }
}

/// The mode full screen toggles to.
pub open spec fn fullscreen_target(s: WindowState) -> WindowMode {
    if s.window_mode == WindowMode::Fullscreen {
        s.last_base_mode
    } else {
        WindowMode::Fullscreen
    }
}

/// The mode borderless toggles to.
pub open spec fn borderless_target(s: WindowState) -> WindowMode {
    if s.window_mode == WindowMode::Borderless {
        WindowMode::Standard
    } else {
        WindowMode::Borderless
    }
}

/// A state is sound when the remembered base is not full screen.
pub open spec fn base_ok(s: WindowState) -> bool {
    s.last_base_mode != WindowMode::Fullscreen
}

impl WindowState {
    /// Switches to `mode`; the settings take the new mode, and outside full screen an
    /// unmaximised window is resized to the target display size.
    pub fn set_window_mode(&mut self, mode: WindowMode) -> (r: WindowEffects)
        ensures
            *final(self) == set_mode_state(*old(self), mode),
            r.commands@ == set_mode_commands(*old(self), mode),
            r.save_mode,
            r.resize == (!old(self).is_maximized && mode != WindowMode::Fullscreen),
    {
        if mode != WindowMode::Fullscreen {
            self.last_base_mode = mode;
        }
        self.window_mode = mode;
        let commands = match mode {
            WindowMode::Standard => vec![
                WindowCommand::Fullscreen(false),
                WindowCommand::Decorations(true),
                WindowCommand::Maximized(self.is_maximized),
            ],
            WindowMode::Borderless => vec![
                WindowCommand::Fullscreen(false),
                WindowCommand::Decorations(false),
                WindowCommand::Maximized(self.is_maximized),
            ],
            WindowMode::Fullscreen => vec![
                WindowCommand::Decorations(false),
                WindowCommand::Fullscreen(true),
                WindowCommand::Maximized(false),
            ],
        };
        assert(commands@ =~= set_mode_commands(*old(self), mode));
        let resize = !self.is_maximized && mode != WindowMode::Fullscreen;
        WindowEffects { commands, save_mode: true, resize }
    }

    /// In full screen, returns to the base mode maximised; otherwise toggles maximised in
    /// the current mode.
    pub fn toggle_maximized(&mut self) -> (r: WindowEffects)
        ensures
            old(self).window_mode == WindowMode::Fullscreen ==> *final(self) == set_mode_state(
                WindowState { is_maximized: true, ..*old(self) },
                old(self).last_base_mode,
            ) && r.commands@ == set_mode_commands(
                WindowState { is_maximized: true, ..*old(self) },
                old(self).last_base_mode,
            ) && r.save_mode && !r.resize,
            old(self).window_mode != WindowMode::Fullscreen ==> *final(self) == (WindowState {
                is_maximized: !old(self).is_maximized,
                ..*old(self)
            }) && r.commands@ == seq![WindowCommand::Maximized(!old(self).is_maximized)]
                && !r.save_mode && !r.resize,
    {
        if self.window_mode == WindowMode::Fullscreen {
            let base = self.last_base_mode;
            self.is_maximized = true;
            self.set_window_mode(base)
        } else {
            self.is_maximized = !self.is_maximized;
            let commands = vec![WindowCommand::Maximized(self.is_maximized)];
            assert(commands@ =~= seq![WindowCommand::Maximized(!old(self).is_maximized)]);
            WindowEffects { commands, save_mode: false, resize: false }
        }
    }

    /// Leaves full screen for the base mode, or enters full screen.
    pub fn toggle_fullscreen(&mut self) -> (r: WindowEffects)
        ensures
            *final(self) == set_mode_state(*old(self), fullscreen_target(*old(self))),
            r.commands@ == set_mode_commands(*old(self), fullscreen_target(*old(self))),
            r.save_mode,
    {
        let next = if self.window_mode == WindowMode::Fullscreen {
            self.last_base_mode
        } else {
            WindowMode::Fullscreen
        };
        self.set_window_mode(next)
    }

    /// Switches between borderless and standard (full screen goes to borderless).
    pub fn toggle_borderless(&mut self) -> (r: WindowEffects)
        ensures
            *final(self) == set_mode_state(*old(self), borderless_target(*old(self))),
            r.commands@ == set_mode_commands(*old(self), borderless_target(*old(self))),
            r.save_mode,
    {
        let next = if self.window_mode == WindowMode::Borderless {
            WindowMode::Standard
        } else {
            WindowMode::Borderless
        };
        self.set_window_mode(next)
    }

    /// Leaves full screen for the base mode; does nothing in the other modes.
    pub fn exit_to_base(&mut self) -> (r: WindowEffects)
        ensures
            old(self).window_mode == WindowMode::Fullscreen ==> *final(self) == set_mode_state(
                *old(self),
                old(self).last_base_mode,
            ) && r.commands@ == set_mode_commands(*old(self), old(self).last_base_mode)
                && r.save_mode,
            old(self).window_mode != WindowMode::Fullscreen ==> *final(self) == *old(self)
                && r.commands@.len() == 0 && !r.save_mode && !r.resize,
    {
        if self.window_mode == WindowMode::Fullscreen {
            let base = self.last_base_mode;
            self.set_window_mode(base)
        } else {
            WindowEffects { commands: Vec::new(), save_mode: false, resize: false }
        }
    }
}

/// The base mode is never full screen: the start-up state has a sound base, and every
/// mode change keeps it sound.
pub proof fn law_base_never_fullscreen(s: WindowState, mode: WindowMode, maximized: bool)
    ensures
        base_ok(initial_state_of(mode, maximized)),
        base_ok(s) ==> base_ok(set_mode_state(s, mode)),
        base_ok(s) ==> base_ok(set_mode_state(s, fullscreen_target(s))),
        base_ok(s) ==> base_ok(set_mode_state(s, borderless_target(s))),
        base_ok(s) ==> base_ok(set_mode_state(WindowState { is_maximized: true, ..s }, s.last_base_mode)),
{
}

/// Toggling full screen twice, from a sound state outside full screen, returns to the same
/// mode (and base).
pub proof fn law_fullscreen_twice(s: WindowState)
    requires
        base_ok(s),
        s.window_mode != WindowMode::Fullscreen,
        s.last_base_mode == s.window_mode,
    ensures
        ({
            let t = set_mode_state(s, fullscreen_target(s));
            set_mode_state(t, fullscreen_target(t)) == s
        }),
{
}

/// Leaving for the base mode always ends outside full screen, for a sound state.
pub proof fn law_exit_leaves_fullscreen(s: WindowState)
    requires
        base_ok(s),
        s.window_mode == WindowMode::Fullscreen,
    ensures
        set_mode_state(s, s.last_base_mode).window_mode != WindowMode::Fullscreen,
{
}

/// Toggling borderless never enters full screen, and twice from standard or borderless
/// returns to the same mode.
pub proof fn law_borderless_toggle(s: WindowState)
    ensures
        borderless_target(s) != WindowMode::Fullscreen,
        s.window_mode != WindowMode::Fullscreen ==> ({
            let t = set_mode_state(s, borderless_target(s));
            set_mode_state(t, borderless_target(t)).window_mode == s.window_mode
        }),
{
}

} // verus!
