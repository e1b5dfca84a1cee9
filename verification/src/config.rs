//! Fixed values of the overlay and the small enumerations of its settings.

use vstd::prelude::*;
use crate::text::{lowercase, same_text, to_lowercase};

pub mod keybinds;
pub mod sounds;

verus! {

/// Default window width in pixels.
pub const DEFAULT_WINDOW_WIDTH: u32 = 200;

/// Default window height in pixels.
pub const DEFAULT_WINDOW_HEIGHT: u32 = 200;

/// Minimum window width in pixels.
pub const MIN_WINDOW_WIDTH: u32 = 50;

/// Minimum window height in pixels.
pub const MIN_WINDOW_HEIGHT: u32 = 50;

/// Maximum window width in pixels.
pub const MAX_WINDOW_WIDTH: u32 = 800;

/// Maximum window height in pixels.
pub const MAX_WINDOW_HEIGHT: u32 = 800;

/// Default crosshair size in pixels.
pub const DEFAULT_CROSSHAIR_SIZE: u32 = 100;

/// Minimum crosshair size in pixels.
pub const MIN_CROSSHAIR_SIZE: u32 = 10;

/// Maximum crosshair size in pixels.
pub const MAX_CROSSHAIR_SIZE: u32 = 500;


/// Default crosshair opacity: fully opaque, as a bit pattern (see the module
/// on opacity).
pub const DEFAULT_OPACITY: u64 = 0x3FF0_0000_0000_0000;

/// Default crosshair color (hex).
pub const DEFAULT_COLOR: &'static str = "#00FF00";

/// Default crosshair image filename.
pub const DEFAULT_CROSSHAIR: &'static str = "crosshair-default.png";

/// Maximum number of shadow (duplicate) windows allowed.
pub const MAX_SHADOW_WINDOWS: usize = 14;

/// Offset in pixels for each new shadow window position.
pub const SHADOW_WINDOW_OFFSET: i32 = 20;

/// Debounce interval for mouse following in milliseconds.
pub const MOUSE_FOLLOW_DEBOUNCE_MS: u64 = 16;

/// Save debounce interval in milliseconds.
pub const SAVE_DEBOUNCE_MS: u64 = 500;

/// Move increment in pixels for keyboard movement.
pub const MOVE_INCREMENT: i32 = 1;

/// Fast move increment in pixels.
pub const FAST_MOVE_INCREMENT: i32 = 10;

/// Application name.
pub const APP_NAME: &'static str = "CrossOver";

/// Application identifier.
pub const APP_ID: &'static str = "com.lacymorrow.crossover";

/// Settings store filename.
pub const SETTINGS_STORE_FILENAME: &'static str = "crossover-settings.json";

/// Supported crosshair image extensions.
pub const SUPPORTED_IMAGE_EXTENSIONS: [&'static str; 6] = ["png", "svg", "gif", "jpg", "jpeg", "webp"];

/// Default keybind modifier.
pub const DEFAULT_MODIFIER: &'static str = "Control+Shift+Alt";

/// Kind of the helper reticle drawn with the crosshair.
#[derive(Debug, Clone, Copy, PartialEq, Eq, Structural)]
pub enum ReticleType {
    /// No reticle; its name in settings is "none".
    Off,
    Circle,
    Cross,
    Dot,
}

impl ReticleType {
    /// The reticle's name in settings.
    pub open spec fn name(self) -> Seq<char> {
        match self {
            ReticleType::Off => "none"@,
            ReticleType::Circle => "circle"@,
            ReticleType::Cross => "cross"@,
            ReticleType::Dot => "dot"@,
        }
    }

    /// The reticle that a lower-case name stands for; an unknown name stands
    /// for no reticle.
    pub open spec fn of_lowercase(t: Seq<char>) -> ReticleType {
        if t == "circle"@ {
            ReticleType::Circle
        } else if t == "cross"@ {
            ReticleType::Cross
        } else if t == "dot"@ {
            ReticleType::Dot
        } else {
            ReticleType::Off
        }
    }

    pub fn as_str(&self) -> (r: &'static str)
        ensures
            r@ == self.name(),
    {
        match self {
            ReticleType::Off => "none",
            ReticleType::Circle => "circle",
            ReticleType::Cross => "cross",
            ReticleType::Dot => "dot",
        }
    }

    /// Reads a name that is already in lower case.
    pub fn from_lowercase(s: &str) -> (r: Self)
        ensures
            r == Self::of_lowercase(s@),
    {
        if same_text(s, "circle") {
            ReticleType::Circle
        } else if same_text(s, "cross") {
            ReticleType::Cross
        } else if same_text(s, "dot") {
            ReticleType::Dot
        } else {
            ReticleType::Off
        }
    }

    /// Reads a name without regard to case.
    pub fn from_str(s: &str) -> (r: Self)
        ensures
            r == Self::of_lowercase(lowercase(s@)),
    {
        let lower = to_lowercase(s);
        Self::from_lowercase(lower.as_str())
    }
}

/// Theme options.
#[derive(Debug, Clone, Copy, PartialEq, Eq, Structural)]
pub enum Theme {
    Light,
    Dark,
    System,
}

impl Theme {
    /// The theme's name in settings.
    pub open spec fn name(self) -> Seq<char> {
        match self {
            Theme::Light => "light"@,
            Theme::Dark => "dark"@,
            Theme::System => "system"@,
        }
    }

    /// The theme that a lower-case name stands for; an unknown name stands
    /// for the system's theme.
    pub open spec fn of_lowercase(t: Seq<char>) -> Theme {
        if t == "light"@ {
            Theme::Light
        } else if t == "dark"@ {
            Theme::Dark
        } else {
            Theme::System
        }
    }

    pub fn as_str(&self) -> (r: &'static str)
        ensures
            r@ == self.name(),
    {
        match self {
            Theme::Light => "light",
            Theme::Dark => "dark",
            Theme::System => "system",
        }
    }

    /// Reads a name that is already in lower case.
    pub fn from_lowercase(s: &str) -> (r: Self)
        ensures
            r == Self::of_lowercase(s@),
    {
        if same_text(s, "light") {
            Theme::Light
        } else if same_text(s, "dark") {
            Theme::Dark
        } else {
            Theme::System
        }
    }

    /// Reads a name without regard to case.
    pub fn from_str(s: &str) -> (r: Self)
        ensures
            r == Self::of_lowercase(lowercase(s@)),
    {
        let lower = to_lowercase(s);
        Self::from_lowercase(lower.as_str())
    }
}

impl Default for ReticleType {
    fn default() -> (r: Self)
        ensures
            r == ReticleType::Off,
    {
        ReticleType::Off
    }
}

impl Default for Theme {
    fn default() -> (r: Self)
        ensures
            r == Theme::System,
    {
        Theme::System
    }
}

} // verus!
