//! Window settings, kept between runs.

use vstd::prelude::*;

verus! {

/// How the game's window is shown.
#[derive(Clone, Copy, Debug, PartialEq, Eq, Structural)]
pub enum WindowMode {
    Windowed,
    Fullscreen,
    Borderless,
}

impl Default for WindowMode {
    fn default() -> (r: Self)
        ensures
            r == WindowMode::Windowed,
    {
        WindowMode::Windowed
    }
}

impl WindowMode {
    /// The name shown for this mode.
    pub fn label(&self) -> (r: String)
        ensures
            r@ == match *self {
                WindowMode::Windowed => "Windowed"@,
                WindowMode::Fullscreen => "Fullscreen"@,
                WindowMode::Borderless => "Borderless"@,
            },
    {
        match self {
            WindowMode::Windowed => "Windowed".to_owned(),
            WindowMode::Fullscreen => "Fullscreen".to_owned(),
            WindowMode::Borderless => "Borderless".to_owned(),
        }
    }

    /// Every mode, in the order the settings menu offers them.
    pub fn all() -> (r: Vec<WindowMode>)
        ensures
            r@ == seq![WindowMode::Windowed, WindowMode::Fullscreen, WindowMode::Borderless],
    {
        vec![WindowMode::Windowed, WindowMode::Fullscreen, WindowMode::Borderless]
    }
}

/// The window's size in pixels and its mode.
#[derive(Clone, Copy, Debug, PartialEq, Eq, Structural)]
pub struct WindowSettings {
    pub height: u32,
    pub width: u32,
    pub mode: WindowMode,
}

/// Everything the settings file holds.
#[derive(Clone, Copy, Debug, PartialEq, Eq, Structural)]
pub struct Settings {
    pub window: WindowSettings,
}

impl Settings {
    /// A 1280 by 720 window.
    pub open spec fn default_spec() -> Settings {
        Settings { window: WindowSettings { height: 720, width: 1280, mode: WindowMode::Windowed } }
    }

    /// The settings in use: those loaded from the settings file, or the defaults
    /// when it was missing or could not be parsed.
    pub fn load_or_default(loaded: Option<Settings>) -> (r: Settings)
        ensures
            r == match loaded {
                Some(s) => s,
                None => Settings::default_spec(),
            },
    {
        match loaded {
            Some(s) => s,
            None => Settings::default(),
        }
    }

    /// Applies a change made in the settings menu.
    pub fn apply(&mut self, event: WindowEvent)
        ensures
            *final(self) == match event {
                WindowEvent::Resize(w, h) => Settings {
                    window: WindowSettings { width: w, height: h, mode: old(self).window.mode },
                },
                WindowEvent::ModeChange(m) => Settings {
                    window: WindowSettings {
                        width: old(self).window.width,
                        height: old(self).window.height,
                        mode: m,
                    },
                },
            },
    {
        match event {
            WindowEvent::Resize(w, h) => {
                self.window.width = w;
                self.window.height = h;
            },
            WindowEvent::ModeChange(m) => {
                self.window.mode = m;
            },
        }
    }
}

impl Default for Settings {
    fn default() -> (r: Self)
        ensures
            r == Settings::default_spec(),
    {
        Settings { window: WindowSettings { height: 720, width: 1280, mode: WindowMode::Windowed } }
    }
}

/// A change to the window asked for in the settings menu.
#[derive(Clone, Copy, Debug, PartialEq, Eq, Structural)]
pub enum WindowEvent {
    /// New width and height, in pixels.
    Resize(u32, u32),
    ModeChange(WindowMode),
}

} // verus!
