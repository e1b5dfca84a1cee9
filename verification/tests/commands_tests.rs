use crossover::commands::{
    create_shadow_window, reset_preferences, set_color, set_crosshair, set_opacity, set_reticle,
    set_size, toggle_lock, toggle_visibility, ShadowError,
};
use crossover::effects::{Notification, Step, WindowEffect};
use crossover::state::{AppState, Preferences};
use crossover::window::{WindowFrame, WindowPosition, WindowSize};

fn main_frame() -> Result<WindowFrame, String> {
    Ok(WindowFrame {
        position: WindowPosition { x: 100, y: 200 },
        size: WindowSize { width: 200, height: 180 },
    })
}

fn window(label: &str, effect: WindowEffect) -> Step {
    Step::Window { label: label.to_string(), effect }
}

#[test]
fn create_shadow_window_places_the_first_shadow() {
    let mut state = AppState::new();
    let w = create_shadow_window(&mut state, main_frame()).unwrap();
    assert_eq!(w.label, "shadow-1");
    assert_eq!(w.frame.position, WindowPosition { x: 120, y: 220 });
    assert_eq!(w.frame.size, WindowSize { width: 200, height: 180 });
    assert_eq!(w.settings, Preferences::default());
    assert_eq!(state.get_shadow_windows(), vec!["shadow-1".to_string()]);
}

#[test]
fn create_shadow_window_offsets_grow_with_the_count() {
    let mut state = AppState::new();
    for n in 1..=5i32 {
        let w = create_shadow_window(&mut state, main_frame()).unwrap();
        assert_eq!(w.label, format!("shadow-{}", n));
        assert_eq!(w.frame.position, WindowPosition { x: 100 + 20 * n, y: 200 + 20 * n });
    }
    state.remove_shadow_window("shadow-2");
    state.remove_shadow_window("shadow-4");
    let w = create_shadow_window(&mut state, main_frame()).unwrap();
    assert_eq!(w.label, "shadow-6");
    assert_eq!(w.frame.position, WindowPosition { x: 180, y: 280 });
}

#[test]
fn create_shadow_window_fifteenth_call_fails() {
    let mut state = AppState::new();
    for _ in 0..14 {
        assert!(create_shadow_window(&mut state, main_frame()).is_ok());
    }
    assert_eq!(state.shadow_window_count(), 14);
    let r = create_shadow_window(&mut state, main_frame());
    assert_eq!(r, Err(ShadowError::LimitReached));
    assert_eq!(state.shadow_window_count(), 14);
    assert_eq!(r.unwrap_err().message(), "Maximum shadow windows reached");
    state.remove_shadow_window("shadow-7");
    let w = create_shadow_window(&mut state, main_frame()).unwrap();
    assert_eq!(w.label, "shadow-15");
    assert_eq!(state.shadow_window_count(), 14);
}

#[test]
fn create_shadow_window_while_locked_fails() {
    let mut state = AppState::new();
    create_shadow_window(&mut state, main_frame()).unwrap();
    state.set_locked(true);
    for _ in 0..3 {
        let r = create_shadow_window(&mut state, main_frame());
        assert_eq!(r, Err(ShadowError::Locked));
        assert_eq!(state.shadow_window_count(), 1);
    }
    assert_eq!(
        ShadowError::Locked.message(),
        "Cannot create shadow window while locked"
    );
    state.set_locked(false);
    let w = create_shadow_window(&mut state, main_frame()).unwrap();
    assert_eq!(w.label, "shadow-2");
}

#[test]
fn create_shadow_window_limit_comes_before_lock() {
    let mut state = AppState::new();
    for _ in 0..14 {
        create_shadow_window(&mut state, main_frame()).unwrap();
    }
    state.set_locked(true);
    assert_eq!(create_shadow_window(&mut state, main_frame()), Err(ShadowError::LimitReached));
    assert_eq!(
        create_shadow_window(&mut state, Err("Main window not found".to_string())),
        Err(ShadowError::LimitReached)
    );
}

#[test]
fn create_shadow_window_without_main_window() {
    let mut state = AppState::new();
    let r = create_shadow_window(&mut state, Err("Main window not found".to_string()));
    assert_eq!(r, Err(ShadowError::MainWindow("Main window not found".to_string())));
    assert_eq!(r.unwrap_err().message(), "Main window not found");
    assert_eq!(state.shadow_window_count(), 0);
    let w = create_shadow_window(&mut state, main_frame()).unwrap();
    assert_eq!(w.label, "shadow-2");
}

#[test]
fn create_shadow_window_out_of_range() {
    let mut state = AppState::new();
    let far = Ok(WindowFrame {
        position: WindowPosition { x: i32::MAX - 19, y: 0 },
        size: WindowSize { width: 1, height: 1 },
    });
    assert_eq!(create_shadow_window(&mut state, far), Err(ShadowError::OutOfRange));
    assert_eq!(state.shadow_window_count(), 0);
    let near = Ok(WindowFrame {
        position: WindowPosition { x: i32::MAX - 20, y: i32::MIN },
        size: WindowSize { width: 1, height: 1 },
    });
    let w = create_shadow_window(&mut state, near).unwrap();
    assert_eq!(w.frame.position, WindowPosition { x: i32::MAX, y: i32::MIN + 20 });
    assert_eq!(w.label, "shadow-2");
}

#[test]
fn create_shadow_window_carries_the_current_settings() {
    let mut state = AppState::new();
    state.set_size(77);
    state.set_crosshair("x.png".to_string());
    let w = create_shadow_window(&mut state, main_frame()).unwrap();
    assert_eq!(w.settings, state.get_preferences());
    assert_eq!(w.settings.size, 77);
}

#[test]
fn toggle_lock_fans_out_click_through() {
    let mut state = AppState::new();
    state.add_shadow_window("shadow-1".to_string());
    state.add_shadow_window("shadow-2".to_string());
    let (locked, steps) = toggle_lock(&mut state);
    assert!(locked);
    assert!(state.is_locked());
    assert_eq!(
        steps,
        vec![
            window("main", WindowEffect::SetClickThrough(true)),
            window("shadow-1", WindowEffect::SetClickThrough(true)),
            window("shadow-2", WindowEffect::SetClickThrough(true)),
            Step::Emit(Notification::LockChanged(true)),
        ]
    );
    let (locked, steps) = toggle_lock(&mut state);
    assert!(!locked);
    assert_eq!(steps[0], window("main", WindowEffect::SetClickThrough(false)));
    assert_eq!(steps[3], Step::Emit(Notification::LockChanged(false)));
}

#[test]
fn toggle_visibility_works_whether_locked_or_not() {
    let mut state = AppState::new();
    state.add_shadow_window("s".to_string());
    let (visible, steps) = toggle_visibility(&mut state);
    assert!(!visible);
    assert_eq!(
        steps,
        vec![
            window("main", WindowEffect::Hide),
            window("s", WindowEffect::Hide),
            Step::Emit(Notification::VisibilityChanged(false)),
        ]
    );
    state.set_locked(true);
    let (visible, steps) = toggle_visibility(&mut state);
    assert!(visible);
    assert_eq!(
        steps,
        vec![
            window("main", WindowEffect::Show),
            window("s", WindowEffect::Show),
            Step::Emit(Notification::VisibilityChanged(true)),
        ]
    );
}

#[test]
fn setters_notify_of_the_new_value() {
    let mut state = AppState::new();
    assert_eq!(
        set_crosshair(&mut state, "a.png".to_string()),
        Notification::CrosshairChanged("a.png".to_string())
    );
    assert_eq!(state.get_crosshair(), "a.png");
    assert_eq!(set_size(&mut state, 12), Notification::SizeChanged(12));
    assert_eq!(state.get_size(), 12);
    assert_eq!(
        set_color(&mut state, "#fff".to_string()),
        Notification::ColorChanged("#fff".to_string())
    );
    assert_eq!(state.get_color(), "#fff");
    assert_eq!(
        set_reticle(&mut state, "cross".to_string()),
        Notification::ReticleChanged("cross".to_string())
    );
    assert_eq!(state.get_reticle(), "cross");
}

#[test]
fn set_opacity_stores_clamped_and_notifies_as_asked() {
    let mut state = AppState::new();
    let n = set_opacity(&mut state, 1.7f64.to_bits());
    assert_eq!(n, Notification::OpacityChanged(1.7f64.to_bits()));
    assert_eq!(f64::from_bits(state.get_opacity()), 1.0);
    let n = set_opacity(&mut state, (-0.5f64).to_bits());
    assert_eq!(n, Notification::OpacityChanged((-0.5f64).to_bits()));
    assert_eq!(f64::from_bits(state.get_opacity()), 0.0);
}

#[test]
fn set_opacity_never_stores_what_is_not_a_number() {
    let mut state = AppState::new();
    set_opacity(&mut state, 0.5f64.to_bits());
    set_opacity(&mut state, f64::NAN.to_bits());
    assert_eq!(f64::from_bits(state.get_opacity()), 1.0);
}

#[test]
fn create_shadow_window_refuses_a_label_registered_by_hand() {
    let mut state = AppState::new();
    assert!(state.add_shadow_window("shadow-1".to_string()));
    let r = create_shadow_window(&mut state, main_frame());
    assert_eq!(r, Err(ShadowError::LabelTaken));
    assert_eq!(state.get_shadow_windows(), vec!["shadow-1".to_string()]);
    let w = create_shadow_window(&mut state, main_frame()).unwrap();
    assert_eq!(w.label, "shadow-2");
    assert_eq!(w.frame.position, WindowPosition { x: 140, y: 240 });
    assert_eq!(
        state.get_shadow_windows(),
        vec!["shadow-1".to_string(), "shadow-2".to_string()]
    );
}

#[test]
fn every_successful_creation_adds_one_window_with_a_new_label() {
    let mut state = AppState::new();
    let mut labels: Vec<String> = Vec::new();
    for n in 1..=14usize {
        let w = create_shadow_window(&mut state, main_frame()).unwrap();
        assert!(!labels.contains(&w.label));
        labels.push(w.label);
        assert_eq!(state.shadow_window_count(), n);
    }
    assert_eq!(state.get_shadow_windows(), labels);
}

#[test]
fn reset_notifies_of_every_setting() {
    let mut state = AppState::new();
    state.set_size(1);
    state.set_crosshair("z.gif".to_string());
    state.add_shadow_window("s".to_string());
    let steps = reset_preferences(&mut state);
    assert_eq!(
        steps,
        vec![
            Step::Emit(Notification::CrosshairChanged("target-dot.png".to_string())),
            Step::Emit(Notification::OpacityChanged(1.0f64.to_bits())),
            Step::Emit(Notification::SizeChanged(100)),
            Step::Emit(Notification::ColorChanged("#00FF00".to_string())),
            Step::Emit(Notification::ReticleChanged("dot".to_string())),
        ]
    );
    assert_eq!(state.get_preferences(), Preferences::default());
    assert_eq!(state.shadow_window_count(), 1);
}

#[test]
fn shadow_error_messages() {
    assert_eq!(ShadowError::LimitReached.message(), "Maximum shadow windows reached");
    assert_eq!(ShadowError::Locked.message(), "Cannot create shadow window while locked");
    assert_eq!(ShadowError::Exhausted.message(), "No shadow window label left");
    assert_eq!(ShadowError::LabelTaken.message(), "Shadow window label already in use");
    assert_eq!(ShadowError::OutOfRange.message(), "Shadow window position out of range");
    assert_eq!(ShadowError::MainWindow("gone".to_string()).message(), "gone");
}

#[test]
fn create_shadow_window_when_every_label_is_used() {
    let mut state = AppState::with_shadow_counter(u32::MAX - 1);
    let w = create_shadow_window(&mut state, main_frame()).unwrap();
    assert_eq!(w.label, "shadow-4294967295");
    let r = create_shadow_window(&mut state, main_frame());
    assert_eq!(r, Err(ShadowError::Exhausted));
    assert_eq!(state.shadow_window_count(), 1);
    assert_eq!(state.next_shadow_id(), None);
    assert_eq!(state.next_shadow_id(), None);
}
