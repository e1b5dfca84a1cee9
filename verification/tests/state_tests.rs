use crossover::state::{
    decimal, shadow_label, AppState, KeybindPreferences, Preferences, StoredPreferences,
};

fn sample_preferences() -> Preferences {
    let mut keybinds = KeybindPreferences::default();
    keybinds.toggle_lock = "Control+Alt+L".to_string();
    keybinds.quit = String::new();
    Preferences {
        crosshair: "sniper.svg".to_string(),
        size: 64,
        opacity: 0.25f64.to_bits(),
        color: "#FF00AA".to_string(),
        locked: true,
        visible: false,
        follow_mouse: true,
        position_x: Some(-40),
        position_y: Some(1200),
        start_on_boot: true,
        keybinds,
        hide_on_ads: true,
        reticle: "cross".to_string(),
    }
}

#[test]
fn default_preferences() {
    let p = Preferences::default();
    assert_eq!(p.crosshair, "target-dot.png");
    assert_eq!(p.size, 100);
    assert_eq!(f64::from_bits(p.opacity), 1.0);
    assert_eq!(p.color, "#00FF00");
    assert!(!p.locked);
    assert!(p.visible);
    assert!(!p.follow_mouse);
    assert_eq!(p.position_x, None);
    assert_eq!(p.position_y, None);
    assert!(!p.start_on_boot);
    assert!(!p.hide_on_ads);
    assert_eq!(p.reticle, "dot");
    assert_eq!(p.keybinds, KeybindPreferences::default());
}

#[test]
fn default_keybinds() {
    let k = KeybindPreferences::default();
    assert_eq!(k.toggle_lock, "Control+Shift+Alt+X");
    assert_eq!(k.center, "Control+Shift+Alt+C");
    assert_eq!(k.hide, "Control+Shift+Alt+H");
    assert_eq!(k.reset, "Control+Shift+Alt+R");
    assert_eq!(k.move_up, "Control+Shift+Alt+Up");
    assert_eq!(k.move_down, "Control+Shift+Alt+Down");
    assert_eq!(k.move_left, "Control+Shift+Alt+Left");
    assert_eq!(k.move_right, "Control+Shift+Alt+Right");
    assert_eq!(k.change_display, "Control+Shift+Alt+M");
    assert_eq!(k.duplicate, "Control+Shift+Alt+D");
    assert_eq!(k.quit, "Control+Shift+Alt+Q");
}

#[test]
fn new_state_has_defaults_and_no_shadow_windows() {
    let state = AppState::new();
    assert_eq!(state.get_preferences(), Preferences::default());
    assert_eq!(state.shadow_window_count(), 0);
    assert!(state.get_shadow_windows().is_empty());
    assert!(!state.is_mouse_following_active());
    assert_eq!(state.get_position(), (None, None));
}

#[test]
fn set_opacity_clamps_below_zero() {
    let mut state = AppState::new();
    state.set_opacity((-0.5f64).to_bits());
    assert_eq!(f64::from_bits(state.get_opacity()), 0.0);
    assert_eq!(state.get_opacity(), 0.0f64.to_bits());
}

#[test]
fn set_opacity_clamps_above_one() {
    let mut state = AppState::new();
    state.set_opacity(1.7f64.to_bits());
    assert_eq!(f64::from_bits(state.get_opacity()), 1.0);
}

#[test]
fn set_opacity_keeps_values_in_range() {
    let mut state = AppState::new();
    for v in [0.0f64, 0.001, 0.25, 0.5, 0.999_999, 1.0] {
        state.set_opacity(v.to_bits());
        assert_eq!(state.get_opacity(), v.to_bits());
    }
}

#[test]
fn set_opacity_agrees_with_clamp_of_the_number() {
    let mut state = AppState::new();
    let inputs = [
        f64::NEG_INFINITY,
        f64::MIN,
        -1.0,
        -f64::MIN_POSITIVE,
        -0.0,
        0.0,
        f64::MIN_POSITIVE,
        0.3,
        1.0,
        1.0 + f64::EPSILON,
        2.0,
        f64::MAX,
        f64::INFINITY,
    ];
    for v in inputs {
        state.set_opacity(v.to_bits());
        assert_eq!(state.get_opacity(), v.clamp(0.0, 1.0).to_bits(), "input {}", v);
    }
}

#[test]
fn set_opacity_with_what_is_not_a_number_stores_fully_opaque() {
    let mut state = AppState::new();
    state.set_opacity(0.25f64.to_bits());
    for bits in [f64::NAN.to_bits(), (-f64::NAN).to_bits(), 0x7FF0_0000_0000_0001, u64::MAX] {
        state.set_opacity(bits);
        assert_eq!(f64::from_bits(state.get_opacity()), 1.0);
        state.set_opacity(0.0f64.to_bits());
    }
}

#[test]
fn stored_opacity_is_always_within_zero_and_one() {
    let mut state = AppState::new();
    let mut bits: u64 = 0x9E37_79B9_7F4A_7C15;
    for _ in 0..5000 {
        bits = bits.wrapping_mul(6364136223846793005).wrapping_add(1442695040888963407);
        state.set_opacity(bits);
        let stored = f64::from_bits(state.get_opacity());
        assert!(0.0 <= stored && stored <= 1.0, "bits {:#x}", bits);
    }
}

#[test]
fn loading_limits_the_opacity_to_the_range() {
    for (saved, expected) in [
        (5.0f64, 1.0f64),
        (-1.0, 0.0),
        (f64::INFINITY, 1.0),
        (f64::NEG_INFINITY, 0.0),
        (f64::NAN, 1.0),
        (0.75, 0.75),
        (0.0, 0.0),
        (1.0, 1.0),
    ] {
        let mut p = Preferences::default();
        p.opacity = saved.to_bits();
        p.size = 12;
        let mut state = AppState::new();
        state.load_preferences(StoredPreferences::Saved(p));
        assert_eq!(f64::from_bits(state.get_opacity()), expected, "saved {}", saved);
        assert_eq!(state.get_size(), 12);
    }
}

#[test]
fn loading_from_an_unreadable_store_keeps_the_current_preferences() {
    let mut state = AppState::new();
    state.load_preferences(StoredPreferences::Unreadable);
    assert_eq!(state.get_preferences(), Preferences::default());
    state.set_size(33);
    state.set_locked(true);
    let before = state.get_preferences();
    state.load_preferences(StoredPreferences::Unreadable);
    assert_eq!(state.get_preferences(), before);
}

#[test]
fn toggle_locked_returns_the_new_value() {
    let mut state = AppState::new();
    assert!(!state.is_locked());
    assert!(state.toggle_locked());
    assert!(state.is_locked());
    assert!(!state.toggle_locked());
    assert!(!state.is_locked());
}

#[test]
fn toggle_locked_twice_restores_the_state() {
    let mut state = AppState::new();
    state.load_preferences(StoredPreferences::Saved(sample_preferences()));
    let before = state.get_preferences();
    state.toggle_locked();
    assert_ne!(state.get_preferences(), before);
    state.toggle_locked();
    assert_eq!(state.get_preferences(), before);
    state.toggle_locked();
    state.toggle_locked();
    assert_eq!(state.get_preferences(), before);
}

#[test]
fn toggle_visible_flips_only_the_visibility() {
    let mut state = AppState::new();
    assert!(state.is_visible());
    assert!(!state.toggle_visible());
    assert!(!state.is_visible());
    assert!(!state.is_locked());
    assert!(state.toggle_visible());
    assert_eq!(state.get_preferences(), Preferences::default());
}

#[test]
fn setters_store_what_they_are_given() {
    let mut state = AppState::new();
    state.set_crosshair("a.png".to_string());
    state.set_size(42);
    state.set_color("#123456".to_string());
    state.set_locked(true);
    state.set_visible(false);
    state.set_follow_mouse(true);
    state.set_hide_on_ads(true);
    state.set_reticle("circle".to_string());
    state.set_position(-7, 9);
    state.set_mouse_following_active(true);
    assert_eq!(state.get_crosshair(), "a.png");
    assert_eq!(state.get_size(), 42);
    assert_eq!(state.get_color(), "#123456");
    assert!(state.is_locked());
    assert!(!state.is_visible());
    assert!(state.get_follow_mouse());
    assert!(state.get_hide_on_ads());
    assert_eq!(state.get_reticle(), "circle");
    assert_eq!(state.get_position(), (Some(-7), Some(9)));
    assert!(state.is_mouse_following_active());
    let p = state.get_preferences();
    assert_eq!(p.crosshair, "a.png");
    assert_eq!(p.size, 42);
    assert_eq!(p.keybinds, KeybindPreferences::default());
}

#[test]
fn shadow_ids_count_up_from_one() {
    let mut state = AppState::new();
    assert_eq!(state.next_shadow_id(), Some("shadow-1".to_string()));
    assert_eq!(state.next_shadow_id(), Some("shadow-2".to_string()));
    for _ in 3..10 {
        state.next_shadow_id();
    }
    assert_eq!(state.next_shadow_id(), Some("shadow-10".to_string()));
    for _ in 11..1234 {
        state.next_shadow_id();
    }
    assert_eq!(state.next_shadow_id(), Some("shadow-1234".to_string()));
}

#[test]
fn shadow_ids_are_not_reused_after_removal() {
    let mut state = AppState::new();
    let first = state.next_shadow_id().unwrap();
    assert!(state.add_shadow_window(first.clone()));
    state.remove_shadow_window(&first);
    let second = state.next_shadow_id().unwrap();
    assert_ne!(first, second);
    assert_eq!(second, "shadow-2");
}

#[test]
fn has_shadow_window_tells_what_is_registered() {
    let mut state = AppState::new();
    assert!(!state.has_shadow_window("a"));
    state.add_shadow_window("a".to_string());
    assert!(state.has_shadow_window("a"));
    assert!(!state.has_shadow_window("A"));
    state.remove_shadow_window("a");
    assert!(!state.has_shadow_window("a"));
}

#[test]
fn add_shadow_window_registers_each_label_once() {
    let mut state = AppState::new();
    assert!(state.add_shadow_window("a".to_string()));
    assert!(state.add_shadow_window("b".to_string()));
    assert!(state.add_shadow_window("a".to_string()));
    assert_eq!(state.shadow_window_count(), 2);
    assert_eq!(state.get_shadow_windows(), vec!["a".to_string(), "b".to_string()]);
}

#[test]
fn add_shadow_window_stops_at_the_limit() {
    let mut state = AppState::new();
    for i in 0..14 {
        assert!(state.add_shadow_window(format!("w{}", i)));
    }
    assert_eq!(state.shadow_window_count(), 14);
    assert!(!state.add_shadow_window("one-more".to_string()));
    assert_eq!(state.shadow_window_count(), 14);
    assert!(state.add_shadow_window("w3".to_string()));
    assert_eq!(state.shadow_window_count(), 14);
}

#[test]
fn remove_shadow_window_of_unknown_label_changes_nothing() {
    let mut state = AppState::new();
    state.add_shadow_window("a".to_string());
    state.add_shadow_window("b".to_string());
    state.remove_shadow_window("nope");
    assert_eq!(state.shadow_window_count(), 2);
    assert_eq!(state.get_shadow_windows(), vec!["a".to_string(), "b".to_string()]);
    let mut empty = AppState::new();
    empty.remove_shadow_window("nope");
    assert_eq!(empty.shadow_window_count(), 0);
}

#[test]
fn remove_shadow_window_keeps_the_others_in_order() {
    let mut state = AppState::new();
    for l in ["a", "b", "c", "d"] {
        state.add_shadow_window(l.to_string());
    }
    state.remove_shadow_window("b");
    assert_eq!(
        state.get_shadow_windows(),
        vec!["a".to_string(), "c".to_string(), "d".to_string()]
    );
    state.remove_shadow_window("b");
    assert_eq!(state.shadow_window_count(), 3);
    state.remove_shadow_window("d");
    state.remove_shadow_window("a");
    assert_eq!(state.get_shadow_windows(), vec!["c".to_string()]);
}

#[test]
fn clear_shadow_windows_empties_the_registry_only() {
    let mut state = AppState::new();
    state.set_size(7);
    state.add_shadow_window("a".to_string());
    state.add_shadow_window("b".to_string());
    state.clear_shadow_windows();
    assert_eq!(state.shadow_window_count(), 0);
    assert_eq!(state.get_size(), 7);
    assert_eq!(state.next_shadow_id(), Some("shadow-1".to_string()));
}

#[test]
fn save_then_load_reproduces_every_field() {
    let mut source = AppState::new();
    source.load_preferences(StoredPreferences::Saved(sample_preferences()));
    let saved = source.get_preferences();

    let mut fresh = AppState::new();
    fresh.load_preferences(StoredPreferences::Saved(saved));
    let p = fresh.get_preferences();
    assert_eq!(p, sample_preferences());
    assert_eq!(p.crosshair, "sniper.svg");
    assert_eq!(p.size, 64);
    assert_eq!(f64::from_bits(p.opacity), 0.25);
    assert_eq!(p.color, "#FF00AA");
    assert!(p.locked);
    assert!(!p.visible);
    assert!(p.follow_mouse);
    assert!(p.hide_on_ads);
    assert_eq!(p.reticle, "cross");
    assert_eq!(p.keybinds.toggle_lock, "Control+Alt+L");
    assert_eq!(p.keybinds.quit, "");
    assert_eq!(p.keybinds.center, "Control+Shift+Alt+C");
}

#[test]
fn loading_malformed_preferences_keeps_the_defaults() {
    let mut state = AppState::new();
    state.load_preferences(StoredPreferences::Malformed);
    assert_eq!(state.get_preferences(), Preferences::default());
}

#[test]
fn loading_missing_preferences_keeps_the_current_ones() {
    let mut state = AppState::new();
    state.set_size(33);
    state.load_preferences(StoredPreferences::Missing);
    assert_eq!(state.get_size(), 33);
    state.load_preferences(StoredPreferences::Malformed);
    assert_eq!(state.get_size(), 33);
}

#[test]
fn loading_does_not_touch_the_registry() {
    let mut state = AppState::new();
    state.add_shadow_window("a".to_string());
    state.load_preferences(StoredPreferences::Saved(sample_preferences()));
    assert_eq!(state.get_shadow_windows(), vec!["a".to_string()]);
}

#[test]
fn reset_preferences_restores_the_defaults() {
    let mut state = AppState::new();
    state.load_preferences(StoredPreferences::Saved(sample_preferences()));
    state.add_shadow_window("a".to_string());
    state.reset_preferences();
    assert_eq!(state.get_preferences(), Preferences::default());
    assert_eq!(state.shadow_window_count(), 1);
}

#[test]
fn preferences_clone_is_equal() {
    let p = sample_preferences();
    assert_eq!(p.clone(), p);
    assert_eq!(p.keybinds.clone(), p.keybinds);
}

#[test]
fn state_with_shadow_counter_continues_after_it() {
    let mut state = AppState::with_shadow_counter(41);
    assert_eq!(state.get_preferences(), Preferences::default());
    assert_eq!(state.shadow_window_count(), 0);
    assert_eq!(state.next_shadow_id(), Some("shadow-42".to_string()));
    let mut state = AppState::with_shadow_counter(0);
    assert_eq!(state.next_shadow_id(), Some("shadow-1".to_string()));
    let mut state = AppState::default();
    assert_eq!(state.next_shadow_id(), Some("shadow-1".to_string()));
}

#[test]
fn decimal_writes_numbers_as_the_standard_library_does() {
    for n in [0u32, 1, 9, 10, 11, 99, 100, 101, 4096, 65535, 1_000_000, 4294967294, u32::MAX] {
        assert_eq!(decimal(n), n.to_string());
        assert_eq!(shadow_label(n), format!("shadow-{}", n));
    }
}
