use crossover::commands::toggle_lock;
use crossover::effects::{Step, WindowEffect};
use crossover::hotkeys::{handle_action, Action};
use crossover::mouse::{
    handle_mouse_event, is_following, update_mouse_listener_state, ListenerChange, ListenerHandle,
    MouseButton, MouseEvent,
};
use crossover::state::AppState;
use crossover::window::WindowSize;
use parking_lot::{Mutex, RwLock};
use std::sync::Arc;

struct Shared {
    core: RwLock<AppState>,
    listener: Mutex<ListenerHandle>,
}

fn shared() -> Arc<Shared> {
    Arc::new(Shared { core: RwLock::new(AppState::new()), listener: Mutex::new(ListenerHandle::new()) })
}

#[test]
fn state_behind_locks() {
    let shared = shared();
    shared.core.write().set_hide_on_ads(true);
    let change = {
        let mut listener = shared.listener.lock();
        let mut core = shared.core.write();
        update_mouse_listener_state(&mut listener, &mut core)
    };
    assert_eq!(change, ListenerChange::Spawn);
    assert!(is_following(&shared.listener.lock()));

    let (locked, plan) = toggle_lock(&mut shared.core.write());
    assert!(locked);
    assert_eq!(plan.len(), 2);

    let steps = {
        let listener = shared.listener.lock();
        let core = shared.core.read();
        handle_mouse_event(
            &listener,
            &core,
            MouseEvent::Press(MouseButton::Right),
            Some(WindowSize { width: 10, height: 10 }),
        )
    };
    assert_eq!(
        steps,
        vec![Step::Window { label: "main".to_string(), effect: WindowEffect::Hide }]
    );

    let plan = handle_action(&mut shared.core.write(), Action::Hide);
    assert_eq!(plan.len(), 2);
    assert!(!shared.core.read().is_visible());
}
