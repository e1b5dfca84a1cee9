//! Core of a crosshair overlay: the preference record, the registry of
//! duplicate ("shadow") windows, window placement arithmetic, the mouse
//! listener's state machine and the hotkey dispatcher's decisions.
//!
//! Everything here computes on plain values. Windows, threads, files and the
//! operating system's hooks belong to the program around this library, which
//! performs the steps that these functions return.

pub mod text;
pub mod config;
pub mod window;
pub mod overlay;
pub mod opacity;
pub mod state;
pub mod effects;
pub mod commands;
pub mod hotkeys;
pub mod mouse;
pub mod tray;
pub mod crosshair;
