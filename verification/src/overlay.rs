//! What makes a window an overlay: the settings that are applied to it once,
//! when it is created, on each family of platforms.

use vstd::prelude::*;

verus! {

/// A family of platforms.
#[derive(Debug, Clone, Copy, PartialEq, Eq, Structural)]
pub enum Platform {
    MacOs,
    Windows,
    Linux,
}

/// Window level above that of screen savers, and so above full-screen
/// applications.
pub const OVERLAY_WINDOW_LEVEL: i64 = 1001;

/// Collection behavior bit: the window appears on every space.
pub const CAN_JOIN_ALL_SPACES: u64 = 0x1;

/// Collection behavior bit: the window stays where it is when the space
/// changes.
pub const STATIONARY: u64 = 0x10;

/// Collection behavior bit: the window may stand beside a full-screen
/// window.
pub const FULL_SCREEN_AUXILIARY: u64 = 0x100;

/// Extended style bit: the window stays above the windows that are not
/// topmost.
pub const WS_EX_TOPMOST: u32 = 0x0000_0008;

/// Extended style bit: a tool window, left out of the task switcher.
pub const WS_EX_TOOLWINDOW: u32 = 0x0000_0080;

/// Extended style bit: a layered window, as transparency needs it.
pub const WS_EX_LAYERED: u32 = 0x0008_0000;

/// The extended style bits of an overlay.
pub const OVERLAY_STYLE: u32 = 0x0008_0088;

/// One setting of an overlay window.
#[derive(Debug, Clone, Copy, PartialEq, Eq, Structural)]
pub enum OverlaySetting {
    /// Keep the window above the others.
    AlwaysOnTop,
    /// Show the window on every workspace.
    VisibleOnAllWorkspaces,
    /// Raise the window to a level.
    WindowLevel(i64),
    /// Set the bits that say how the window behaves across spaces and beside
    /// full-screen windows.
    CollectionBehavior(u64),
    /// Say whether the window hides when the application is deactivated.
    HidesOnDeactivate(bool),
    /// Say whether the window is opaque.
    Opaque(bool),
    /// Say whether the window casts a shadow.
    HasShadow(bool),
    /// Add bits to the window's extended style.
    AddExtendedStyle(u32),
    /// Put the window at the top of the topmost windows again, without
    /// moving or resizing it.
    ReassertTopmost,
}

/// The collection behavior of an overlay: on every space, stationary, and
/// allowed beside full-screen windows.
pub open spec fn overlay_behavior() -> u64 {
    0x111
}

/// The settings of an overlay on a family of platforms, in the order in
/// which they are applied.
///
/// Everywhere the window is kept on top and shown on every workspace. On
/// macOS it is then raised above full-screen applications, made to persist
/// across spaces, kept when the application is deactivated, and made
/// non-opaque and shadowless. On Windows it becomes a layered, topmost tool
/// window and is put on top again. On Linux the rest is left to the window
/// manager.
pub open spec fn overlay_settings_of(platform: Platform) -> Seq<OverlaySetting> {
    match platform {
        Platform::MacOs => seq![
            OverlaySetting::AlwaysOnTop,
            OverlaySetting::VisibleOnAllWorkspaces,
            OverlaySetting::WindowLevel(OVERLAY_WINDOW_LEVEL),
            OverlaySetting::CollectionBehavior(overlay_behavior()),
            OverlaySetting::HidesOnDeactivate(false),
            OverlaySetting::Opaque(false),
            OverlaySetting::HasShadow(false),
        ],
        Platform::Windows => seq![
            OverlaySetting::AlwaysOnTop,
            OverlaySetting::VisibleOnAllWorkspaces,
            OverlaySetting::AddExtendedStyle(OVERLAY_STYLE),
            OverlaySetting::ReassertTopmost,
        ],
        Platform::Linux => seq![OverlaySetting::AlwaysOnTop, OverlaySetting::VisibleOnAllWorkspaces],
    }
}

/// The collection behavior of an overlay.
pub fn overlay_collection_behavior() -> (r: u64)
    ensures
        r == overlay_behavior(),
        r & CAN_JOIN_ALL_SPACES == CAN_JOIN_ALL_SPACES,
        r & STATIONARY == STATIONARY,
        r & FULL_SCREEN_AUXILIARY == FULL_SCREEN_AUXILIARY,
{
    let r = CAN_JOIN_ALL_SPACES | STATIONARY | FULL_SCREEN_AUXILIARY;
    assert(0x1u64 | 0x10u64 | 0x100u64 == 0x111u64) by (bit_vector);
    assert(0x111u64 & 0x1u64 == 0x1u64) by (bit_vector);
    assert(0x111u64 & 0x10u64 == 0x10u64) by (bit_vector);
    assert(0x111u64 & 0x100u64 == 0x100u64) by (bit_vector);
    r
}

/// A window's extended style as an overlay: the style it has, with the bits
/// for a layered, topmost tool window set. No other bit changes.
pub fn overlay_extended_style(current: u32) -> (r: u32)
    ensures
        r == current | OVERLAY_STYLE,
        r & WS_EX_LAYERED == WS_EX_LAYERED,
        r & WS_EX_TOOLWINDOW == WS_EX_TOOLWINDOW,
        r & WS_EX_TOPMOST == WS_EX_TOPMOST,
        r & !OVERLAY_STYLE == current & !OVERLAY_STYLE,
{
    let r = current | WS_EX_LAYERED | WS_EX_TOOLWINDOW | WS_EX_TOPMOST;
    assert(current | 0x0008_0000u32 | 0x0000_0080u32 | 0x0000_0008u32 == current | 0x0008_0088u32)
        by (bit_vector);
    assert((current | 0x0008_0088u32) & 0x0008_0000u32 == 0x0008_0000u32) by (bit_vector);
    assert((current | 0x0008_0088u32) & 0x0000_0080u32 == 0x0000_0080u32) by (bit_vector);
    assert((current | 0x0008_0088u32) & 0x0000_0008u32 == 0x0000_0008u32) by (bit_vector);
    assert((current | 0x0008_0088u32) & !0x0008_0088u32 == current & !0x0008_0088u32)
        by (bit_vector);
    r
}

/// The settings that make a window an overlay, in the order in which they
/// are applied.
pub fn setup_overlay_window(platform: Platform) -> (r: Vec<OverlaySetting>)
    ensures
        r@ == overlay_settings_of(platform),
{
    let mut settings: Vec<OverlaySetting> = Vec::new();
    settings.push(OverlaySetting::AlwaysOnTop);
    settings.push(OverlaySetting::VisibleOnAllWorkspaces);
    match platform {
        Platform::MacOs => {
            settings.push(OverlaySetting::WindowLevel(OVERLAY_WINDOW_LEVEL));
            settings.push(OverlaySetting::CollectionBehavior(overlay_collection_behavior()));
            settings.push(OverlaySetting::HidesOnDeactivate(false));
            settings.push(OverlaySetting::Opaque(false));
            settings.push(OverlaySetting::HasShadow(false));
        },
        Platform::Windows => {
            settings.push(OverlaySetting::AddExtendedStyle(OVERLAY_STYLE));
            settings.push(OverlaySetting::ReassertTopmost);
        },
        Platform::Linux => {},
    }
    assert(settings@ =~= overlay_settings_of(platform));
    settings
}

} // verus!
