use crossover::effects::{Notification, Sound, Step, WindowEffect};
use crossover::state::AppState;
use crossover::text::{same_text, text_precedes};

#[test]
fn same_text_compares_characters() {
    assert!(same_text("", ""));
    assert!(same_text("abc", "abc"));
    assert!(!same_text("abc", "abd"));
    assert!(!same_text("abc", "ab"));
    assert!(!same_text("é", "e"));
}

#[test]
fn text_order_agrees_with_the_standard_library() {
    let texts = ["", "a", "A", "aa", "ab", "b", "10", "2", "é", "z", "日本", "日", "\u{10FFFF}", "~"];
    for a in texts {
        for b in texts {
            assert_eq!(text_precedes(a, b), a <= b, "{:?} {:?}", a, b);
        }
    }
}

#[test]
fn broadcast_reaches_the_main_window_first_and_then_every_shadow() {
    let mut state = AppState::new();
    assert_eq!(
        state.broadcast(WindowEffect::Show),
        vec![Step::Window { label: "main".to_string(), effect: WindowEffect::Show }]
    );
    state.add_shadow_window("shadow-1".to_string());
    state.add_shadow_window("shadow-2".to_string());
    let steps = state.broadcast(WindowEffect::SetClickThrough(true));
    let labels: Vec<String> = steps
        .iter()
        .map(|s| match s {
            Step::Window { label, effect } => {
                assert_eq!(*effect, WindowEffect::SetClickThrough(true));
                label.clone()
            }
            _ => panic!("not a window step"),
        })
        .collect();
    assert_eq!(labels, vec!["main", "shadow-1", "shadow-2"]);
}

#[test]
fn failure_policy_of_steps() {
    let w = Step::Window { label: "main".to_string(), effect: WindowEffect::Hide };
    assert!(!w.aborts_on_failure());
    assert!(Step::Main(WindowEffect::Show).aborts_on_failure());
    assert!(Step::Center.aborts_on_failure());
    assert!(Step::NextDisplay.aborts_on_failure());
    assert!(Step::MoveBy { dx: 1, dy: 0 }.aborts_on_failure());
    assert!(Step::Emit(Notification::CreateShadow).aborts_on_failure());
    assert!(!Step::EmitQuietly(Notification::PlaySound(Sound::Lock)).aborts_on_failure());
    assert!(!Step::Save.aborts_on_failure());
    assert!(!Step::Exit.aborts_on_failure());
}

#[test]
fn notification_names() {
    let all = [
        (Notification::CrosshairChanged(String::new()), "crosshair-changed"),
        (Notification::OpacityChanged(0), "opacity-changed"),
        (Notification::SizeChanged(0), "size-changed"),
        (Notification::ColorChanged(String::new()), "color-changed"),
        (Notification::ReticleChanged(String::new()), "reticle-changed"),
        (Notification::LockChanged(true), "lock-changed"),
        (Notification::VisibilityChanged(true), "visibility-changed"),
        (Notification::PlaySound(Sound::Lock), "play-sound"),
        (Notification::CreateShadow, "create-shadow"),
        (Notification::OpenSettings, "open-settings"),
        (Notification::OpenChooser, "open-chooser"),
        (Notification::ShowAbout, "show-about"),
    ];
    for (n, name) in all {
        assert_eq!(n.event_name(), name);
    }
    assert_eq!(Sound::Lock.as_str(), "lock");
    assert_eq!(Sound::Unlock.as_str(), "unlock");
    assert_eq!(Sound::Center.as_str(), "center");
}
