use crossover::overlay::{
    overlay_collection_behavior, overlay_extended_style, setup_overlay_window, OverlaySetting,
    Platform, OVERLAY_STYLE, OVERLAY_WINDOW_LEVEL, WS_EX_LAYERED, WS_EX_TOOLWINDOW, WS_EX_TOPMOST,
};

#[test]
fn overlay_settings_everywhere_start_alike() {
    for platform in [Platform::MacOs, Platform::Windows, Platform::Linux] {
        let settings = setup_overlay_window(platform);
        assert_eq!(settings[0], OverlaySetting::AlwaysOnTop);
        assert_eq!(settings[1], OverlaySetting::VisibleOnAllWorkspaces);
    }
}

#[test]
fn overlay_settings_on_each_platform() {
    assert_eq!(
        setup_overlay_window(Platform::MacOs),
        vec![
            OverlaySetting::AlwaysOnTop,
            OverlaySetting::VisibleOnAllWorkspaces,
            OverlaySetting::WindowLevel(1001),
            OverlaySetting::CollectionBehavior(0x111),
            OverlaySetting::HidesOnDeactivate(false),
            OverlaySetting::Opaque(false),
            OverlaySetting::HasShadow(false),
        ]
    );
    assert_eq!(
        setup_overlay_window(Platform::Windows),
        vec![
            OverlaySetting::AlwaysOnTop,
            OverlaySetting::VisibleOnAllWorkspaces,
            OverlaySetting::AddExtendedStyle(0x0008_0088),
            OverlaySetting::ReassertTopmost,
        ]
    );
    assert_eq!(
        setup_overlay_window(Platform::Linux),
        vec![OverlaySetting::AlwaysOnTop, OverlaySetting::VisibleOnAllWorkspaces]
    );
}

#[test]
fn overlay_style_bits() {
    assert_eq!(OVERLAY_WINDOW_LEVEL, 1001);
    assert_eq!(OVERLAY_STYLE, WS_EX_LAYERED | WS_EX_TOOLWINDOW | WS_EX_TOPMOST);
    assert_eq!(overlay_collection_behavior(), 1 | (1 << 4) | (1 << 8));
    assert_eq!(overlay_extended_style(0), 0x0008_0088);
    assert_eq!(overlay_extended_style(0x0000_0100), 0x0008_0188);
    assert_eq!(overlay_extended_style(0x0008_0088), 0x0008_0088);
    assert_eq!(overlay_extended_style(0xFFFF_FFFF), 0xFFFF_FFFF);
    assert_eq!(overlay_extended_style(0x0000_0020), 0x0008_00A8);
}
