//! The hotkey dispatcher: the actions that a global key combination can
//! trigger, what each one does, and which bindings are installed.

use vstd::prelude::*;
use crate::commands::{lock_steps, push_settings_steps, settings_steps, visibility_steps};
use crate::config::{MAX_SHADOW_WINDOWS, MOVE_INCREMENT};
use crate::effects::{
    push_fan_out,
    push_step,
    step_views,
    Notification,
    NotificationView,
    Sound,
    Step,
    StepView,
    WindowEffect,
};
use crate::state::{AppState, AppStateView, KeybindPreferences, KeybindsView, Preferences};
use crate::text::same_text;

verus! {

/// An action that a hotkey triggers.
#[derive(Debug, Clone, Copy, PartialEq, Eq, Structural)]
pub enum Action {
    ToggleLock,
    Center,
    Hide,
    Reset,
    ChangeDisplay,
    Duplicate,
    Quit,
    MoveUp,
    MoveDown,
    MoveLeft,
    MoveRight,
}

impl Action {
    /// The action's fixed name.
    pub open spec fn name(self) -> Seq<char> {
        match self {
            Action::ToggleLock => "toggle_lock"@,
            Action::Center => "center"@,
            Action::Hide => "hide"@,
            Action::Reset => "reset"@,
            Action::ChangeDisplay => "change_display"@,
            Action::Duplicate => "duplicate"@,
            Action::Quit => "quit"@,
            Action::MoveUp => "move_up"@,
            Action::MoveDown => "move_down"@,
            Action::MoveLeft => "move_left"@,
            Action::MoveRight => "move_right"@,
        }
    }

    /// The action of a name; none for a text that names no action.
    pub open spec fn of_name(name: Seq<char>) -> Option<Action> {
        if name == "toggle_lock"@ {
            Some(Action::ToggleLock)
        } else if name == "center"@ {
            Some(Action::Center)
        } else if name == "hide"@ {
            Some(Action::Hide)
        } else if name == "reset"@ {
            Some(Action::Reset)
        } else if name == "change_display"@ {
            Some(Action::ChangeDisplay)
        } else if name == "duplicate"@ {
            Some(Action::Duplicate)
        } else if name == "quit"@ {
            Some(Action::Quit)
        } else if name == "move_up"@ {
            Some(Action::MoveUp)
        } else if name == "move_down"@ {
            Some(Action::MoveDown)
        } else if name == "move_left"@ {
            Some(Action::MoveLeft)
        } else if name == "move_right"@ {
            Some(Action::MoveRight)
        } else {
            None
        }
    }

    /// The action's fixed name.
    pub fn as_str(&self) -> (r: &'static str)
        ensures
            r@ == self.name(),
    {
        match self {
            Action::ToggleLock => "toggle_lock",
            Action::Center => "center",
            Action::Hide => "hide",
            Action::Reset => "reset",
            Action::ChangeDisplay => "change_display",
            Action::Duplicate => "duplicate",
            Action::Quit => "quit",
            Action::MoveUp => "move_up",
            Action::MoveDown => "move_down",
            Action::MoveLeft => "move_left",
            Action::MoveRight => "move_right",
        }
    }

    /// Reads an action's name.
    pub fn from_name(name: &str) -> (r: Option<Action>)
        ensures
            r == Action::of_name(name@),
    {
        if same_text(name, "toggle_lock") {
            Some(Action::ToggleLock)
        } else if same_text(name, "center") {
            Some(Action::Center)
        } else if same_text(name, "hide") {
            Some(Action::Hide)
        } else if same_text(name, "reset") {
            Some(Action::Reset)
        } else if same_text(name, "change_display") {
            Some(Action::ChangeDisplay)
        } else if same_text(name, "duplicate") {
            Some(Action::Duplicate)
        } else if same_text(name, "quit") {
            Some(Action::Quit)
        } else if same_text(name, "move_up") {
            Some(Action::MoveUp)
        } else if same_text(name, "move_down") {
            Some(Action::MoveDown)
        } else if same_text(name, "move_left") {
            Some(Action::MoveLeft)
        } else if same_text(name, "move_right") {
            Some(Action::MoveRight)
        } else {
            None
        }
    }

    /// The offset by which a move action shifts the main window: one pixel
    /// in its direction. Other actions shift nothing.
    pub open spec fn offset(self) -> (int, int) {
        match self {
            Action::MoveUp => (0, -MOVE_INCREMENT),
            Action::MoveDown => (0, MOVE_INCREMENT as int),
            Action::MoveLeft => (-MOVE_INCREMENT, 0),
            Action::MoveRight => (MOVE_INCREMENT as int, 0),
            _ => (0, 0),
        }
    }
}

/// The sound that goes with a new lock flag.
pub open spec fn lock_sound(locked: bool) -> Sound {
    if locked {
        Sound::Lock
    } else {
        Sound::Unlock
    }
}

/// The steps that centre the main window and play the sound for it.
pub open spec fn center_steps() -> Seq<StepView> {
    seq![StepView::Center, StepView::EmitQuietly(NotificationView::PlaySound(Sound::Center))]
}

/// The state after an action.
///
/// Toggling the lock flips the lock flag. Hiding flips the visibility flag,
/// but only while the overlay is locked. Resetting puts the preferences back
/// to their defaults. No other action changes the state.
pub open spec fn state_after(s: AppStateView, action: Action) -> AppStateView {
    match action {
        Action::ToggleLock => s.locked_toggled(),
        Action::Hide => if s.preferences.locked {
            s.visible_toggled()
        } else {
            s
        },
        Action::Reset => s.with_preferences(Preferences::default_view()),
        _ => s,
    }
}

/// The steps of an action, in the state `s` in which it is triggered.
///
/// - Toggling the lock sets click-through on every overlay window, notifies
///   and plays a sound.
/// - Centring centres the main window and plays a sound.
/// - Hiding, while locked, shows or hides every overlay window and
///   notifies; while unlocked it does nothing.
/// - Resetting notifies of every setting and centres as above.
/// - Changing the display moves the main window to the next one.
/// - Duplicating asks for a new shadow window, unless the overlay is locked
///   or the registry is at its limit.
/// - Quitting saves the preferences and ends the program.
/// - A move shifts the main window by one pixel, unless the overlay is
///   locked.
pub open spec fn steps_of(s: AppStateView, action: Action) -> Seq<StepView> {
    match action {
        Action::ToggleLock => lock_steps(s.shadow_windows, !s.preferences.locked).push(
            StepView::EmitQuietly(NotificationView::PlaySound(lock_sound(!s.preferences.locked))),
        ),
        Action::Center => center_steps(),
        Action::Hide => if s.preferences.locked {
            visibility_steps(s.shadow_windows, !s.preferences.visible)
        } else {
            Seq::empty()
        },
        Action::Reset => settings_steps(Preferences::default_view()) + center_steps(),
        Action::ChangeDisplay => seq![StepView::NextDisplay],
        Action::Duplicate => if s.preferences.locked || s.shadow_windows.len()
            >= MAX_SHADOW_WINDOWS {
            Seq::empty()
        } else {
            seq![StepView::Emit(NotificationView::CreateShadow)]
        },
        Action::Quit => seq![StepView::Save, StepView::Exit],
        Action::MoveUp | Action::MoveDown | Action::MoveLeft | Action::MoveRight => if s.preferences.locked {
            Seq::empty()
        } else {
            seq![StepView::MoveBy { dx: action.offset().0 as i32, dy: action.offset().1 as i32 }]
        },
    }
}

/// Carries an action out on the state and returns the steps for the program.
pub fn handle_action(state: &mut AppState, action: Action) -> (r: Vec<Step>)
    ensures
        final(state)@ == state_after(old(state)@, action),
        step_views(r@) == steps_of(old(state)@, action),
{
    match action {
        Action::ToggleLock => handle_toggle_lock(state),
        Action::Center => handle_center(),
        Action::Hide => handle_hide(state),
        Action::Reset => handle_reset(state),
        Action::ChangeDisplay => handle_change_display(),
        Action::Duplicate => handle_duplicate(state),
        Action::Quit => handle_quit(),
        Action::MoveUp => handle_move(state, 0, -MOVE_INCREMENT),
        Action::MoveDown => handle_move(state, 0, MOVE_INCREMENT),
        Action::MoveLeft => handle_move(state, -MOVE_INCREMENT, 0),
        Action::MoveRight => handle_move(state, MOVE_INCREMENT, 0),
    }
}

/// Carries out the action of the given name. A name that names no action
/// changes nothing and gives no step.
pub fn handle_action_name(state: &mut AppState, name: &str) -> (r: Vec<Step>)
    ensures
        match Action::of_name(name@) {
            Some(action) => final(state)@ == state_after(old(state)@, action) && step_views(r@)
                == steps_of(old(state)@, action),
            None => final(state)@ == old(state)@ && r@.len() == 0,
        },
{
    match Action::from_name(name) {
        Some(action) => handle_action(state, action),
        None => Vec::new(),
    }
}

/// Toggles the lock.
pub fn handle_toggle_lock(state: &mut AppState) -> (r: Vec<Step>)
    ensures
        final(state)@ == old(state)@.locked_toggled(),
        step_views(r@) == steps_of(old(state)@, Action::ToggleLock),
{
    let locked = state.toggle_locked();
    let labels = state.get_shadow_windows();
    let mut steps: Vec<Step> = Vec::new();
    push_fan_out(&mut steps, &labels, WindowEffect::SetClickThrough(locked));
    push_step(&mut steps, Step::Emit(Notification::LockChanged(locked)));
    let sound = if locked {
        Sound::Lock
    } else {
        Sound::Unlock
    };
    push_step(&mut steps, Step::EmitQuietly(Notification::PlaySound(sound)));
    assert(step_views(steps@) =~= steps_of(old(state)@, Action::ToggleLock));
    steps
}

/// Centres the main window.
pub fn handle_center() -> (r: Vec<Step>)
    ensures
        step_views(r@) == center_steps(),
{
    let mut steps: Vec<Step> = Vec::new();
    push_step(&mut steps, Step::Center);
    push_step(&mut steps, Step::EmitQuietly(Notification::PlaySound(Sound::Center)));
    assert(step_views(steps@) =~= center_steps());
    steps
}

/// Hides or shows the overlay, while it is locked. While it is unlocked the
/// state stays as it is and nothing is to be done.
pub fn handle_hide(state: &mut AppState) -> (r: Vec<Step>)
    ensures
        final(state)@ == state_after(old(state)@, Action::Hide),
        step_views(r@) == steps_of(old(state)@, Action::Hide),
        !old(state)@.preferences.locked ==> final(state)@ == old(state)@ && r@.len() == 0,
{
    let mut steps: Vec<Step> = Vec::new();
    if !state.is_locked() {
        assert(step_views(steps@) =~= Seq::<StepView>::empty());
        return steps;
    }
    let visible = state.toggle_visible();
    let effect = if visible {
        WindowEffect::Show
    } else {
        WindowEffect::Hide
    };
    let labels = state.get_shadow_windows();
    push_fan_out(&mut steps, &labels, effect);
    push_step(&mut steps, Step::Emit(Notification::VisibilityChanged(visible)));
    assert(step_views(steps@) =~= steps_of(old(state)@, Action::Hide));
    steps
}

/// Resets the preferences and centres the main window.
pub fn handle_reset(state: &mut AppState) -> (r: Vec<Step>)
    ensures
        final(state)@ == old(state)@.with_preferences(Preferences::default_view()),
        step_views(r@) == steps_of(old(state)@, Action::Reset),
{
    state.reset_preferences();
    let p = state.get_preferences();
    let mut steps: Vec<Step> = Vec::new();
    push_settings_steps(&mut steps, &p);
    push_step(&mut steps, Step::Center);
    push_step(&mut steps, Step::EmitQuietly(Notification::PlaySound(Sound::Center)));
    assert(step_views(steps@) =~= steps_of(old(state)@, Action::Reset));
    steps
}

/// Moves the main window to the next display.
pub fn handle_change_display() -> (r: Vec<Step>)
    ensures
        step_views(r@) == seq![StepView::NextDisplay],
{
    let mut steps: Vec<Step> = Vec::new();
    push_step(&mut steps, Step::NextDisplay);
    assert(step_views(steps@) =~= seq![StepView::NextDisplay]);
    steps
}

/// Asks for a new shadow window, unless the overlay is locked or the
/// registry is at its limit.
pub fn handle_duplicate(state: &AppState) -> (r: Vec<Step>)
    ensures
        step_views(r@) == steps_of(state@, Action::Duplicate),
{
    let mut steps: Vec<Step> = Vec::new();
    if state.is_locked() || state.shadow_window_count() >= MAX_SHADOW_WINDOWS {
        assert(step_views(steps@) =~= Seq::<StepView>::empty());
        return steps;
    }
    push_step(&mut steps, Step::Emit(Notification::CreateShadow));
    assert(step_views(steps@) =~= seq![StepView::Emit(NotificationView::CreateShadow)]);
    steps
}

/// Saves the preferences and ends the program.
pub fn handle_quit() -> (r: Vec<Step>)
    ensures
        step_views(r@) == seq![StepView::Save, StepView::Exit],
{
    let mut steps: Vec<Step> = Vec::new();
    push_step(&mut steps, Step::Save);
    push_step(&mut steps, Step::Exit);
    assert(step_views(steps@) =~= seq![StepView::Save, StepView::Exit]);
    steps
}

/// Moves the main window by an offset, unless the overlay is locked.
pub fn handle_move(state: &AppState, dx: i32, dy: i32) -> (r: Vec<Step>)
    ensures
        step_views(r@) == if state@.preferences.locked {
            Seq::<StepView>::empty()
        } else {
            seq![StepView::MoveBy { dx, dy }]
        },
{
    let mut steps: Vec<Step> = Vec::new();
    if state.is_locked() {
        assert(step_views(steps@) =~= Seq::<StepView>::empty());
        return steps;
    }
    push_step(&mut steps, Step::MoveBy { dx, dy });
    assert(step_views(steps@) =~= seq![StepView::MoveBy { dx, dy }]);
    steps
}

/// The hide action does nothing while the overlay is unlocked: the state,
/// and with it the visibility flag, stays as it is, and no window is shown
/// or hidden.
pub proof fn lemma_hide_needs_lock(s: AppStateView)
    requires
        !s.preferences.locked,
    ensures
        state_after(s, Action::Hide) == s,
        steps_of(s, Action::Hide) == Seq::<StepView>::empty(),
{
}

/// Whether a text is a key combination: modifiers and one key joined by `+`,
/// the key last, as `global_hotkey` reads them (its table of key names is not
/// written out here).
pub uninterp spec fn is_key_chord(text: Seq<char>) -> bool;

/// Parses a text with `HotKey::from_str` of `global_hotkey` and says whether
/// that succeeded. The result is not proved: it is named [`is_key_chord`].
#[verifier::external_body]
fn parses_as_chord(text: &str) -> (r: bool)
    ensures
        r == is_key_chord(text@),
{
    text.parse::<global_hotkey::hotkey::HotKey>().is_ok()
}

/// Whether a text can be registered as a global shortcut.
pub fn is_shortcut(text: &str) -> (r: bool)
    ensures
        r == is_key_chord(text@),
{
    parses_as_chord(text)
}

/// An action with the key combination bound to it.
#[derive(Debug, PartialEq, Eq)]
pub struct Binding {
    pub action: Action,
    pub chord: String,
}

/// A binding as plain values.
pub struct BindingView {
    pub action: Action,
    pub chord: Seq<char>,
}

impl View for Binding {
    type V = BindingView;

    open spec fn view(&self) -> BindingView {
        BindingView { action: self.action, chord: self.chord@ }
    }
}

/// The bindings as plain values.
pub open spec fn binding_views(bindings: Seq<Binding>) -> Seq<BindingView> {
    Seq::new(bindings.len(), |i: int| bindings[i]@)
}

/// One step of installing hotkeys.
#[derive(Debug, PartialEq, Eq)]
pub enum HotkeyStep {
    /// Unregister every registered combination. A failure is logged and the
    /// steps after it are still carried out.
    UnregisterAll,
    /// Register a combination for its action. A failure is logged and the
    /// steps after it are still carried out.
    Register(Binding),
}

/// A step of installing hotkeys as plain values.
pub enum HotkeyStepView {
    UnregisterAll,
    Register(BindingView),
}

impl View for HotkeyStep {
    type V = HotkeyStepView;

    open spec fn view(&self) -> HotkeyStepView {
        match self {
            HotkeyStep::UnregisterAll => HotkeyStepView::UnregisterAll,
            HotkeyStep::Register(b) => HotkeyStepView::Register(b@),
        }
    }
}

/// The steps as plain values.
pub open spec fn hotkey_step_views(steps: Seq<HotkeyStep>) -> Seq<HotkeyStepView> {
    Seq::new(steps.len(), |i: int| steps[i]@)
}

/// The table of bindings that a set of key bindings stands for: one entry
/// for each action, in a fixed order.
pub open spec fn binding_table(k: KeybindsView) -> Seq<BindingView> {
    seq![
        BindingView { action: Action::ToggleLock, chord: k.toggle_lock },
        BindingView { action: Action::Center, chord: k.center },
        BindingView { action: Action::Hide, chord: k.hide },
        BindingView { action: Action::Reset, chord: k.reset },
        BindingView { action: Action::ChangeDisplay, chord: k.change_display },
        BindingView { action: Action::Duplicate, chord: k.duplicate },
        BindingView { action: Action::Quit, chord: k.quit },
        BindingView { action: Action::MoveUp, chord: k.move_up },
        BindingView { action: Action::MoveDown, chord: k.move_down },
        BindingView { action: Action::MoveLeft, chord: k.move_left },
        BindingView { action: Action::MoveRight, chord: k.move_right },
    ]
}

/// The registrations for the first `n` of `bindings`: one for each binding
/// whose flag in `usable` is set, in the bindings' order. A binding without a
/// flag counts as unusable.
pub open spec fn registrations(bindings: Seq<BindingView>, usable: Seq<bool>, n: nat) -> Seq<
    HotkeyStepView,
>
    decreases n,
{
    if n == 0 {
        Seq::empty()
    } else {
        let rest = registrations(bindings, usable, (n - 1) as nat);
        if n - 1 < bindings.len() && n - 1 < usable.len() && usable[n - 1] {
            rest.push(HotkeyStepView::Register(bindings[n - 1]))
        } else {
            rest
        }
    }
}

/// For each binding, whether its text is a key combination.
pub open spec fn chord_flags(bindings: Seq<BindingView>) -> Seq<bool> {
    Seq::new(bindings.len(), |i: int| is_key_chord(bindings[i].chord))
}

/// The table of bindings of the given key bindings.
pub fn bindings_of(keybinds: &KeybindPreferences) -> (r: Vec<Binding>)
    ensures
        binding_views(r@) == binding_table(keybinds@),
{
    let mut r: Vec<Binding> = Vec::new();
    r.push(Binding { action: Action::ToggleLock, chord: keybinds.toggle_lock.clone() });
    r.push(Binding { action: Action::Center, chord: keybinds.center.clone() });
    r.push(Binding { action: Action::Hide, chord: keybinds.hide.clone() });
    r.push(Binding { action: Action::Reset, chord: keybinds.reset.clone() });
    r.push(Binding { action: Action::ChangeDisplay, chord: keybinds.change_display.clone() });
    r.push(Binding { action: Action::Duplicate, chord: keybinds.duplicate.clone() });
    r.push(Binding { action: Action::Quit, chord: keybinds.quit.clone() });
    r.push(Binding { action: Action::MoveUp, chord: keybinds.move_up.clone() });
    r.push(Binding { action: Action::MoveDown, chord: keybinds.move_down.clone() });
    r.push(Binding { action: Action::MoveLeft, chord: keybinds.move_left.clone() });
    r.push(Binding { action: Action::MoveRight, chord: keybinds.move_right.clone() });
    assert(binding_views(r@) =~= binding_table(keybinds@));
    r
}

/// Tests each binding's text.
pub fn test_chords(bindings: &Vec<Binding>) -> (r: Vec<bool>)
    ensures
        r@ == chord_flags(binding_views(bindings@)),
{
    let mut flags: Vec<bool> = Vec::new();
    let mut i: usize = 0;
    while i < bindings.len()
        invariant
            i <= bindings.len(),
            flags@.len() == i,
            forall|j: int| 0 <= j < i ==> flags@[j] == is_key_chord(bindings@[j].chord@),
        decreases bindings.len() - i,
    {
        flags.push(parses_as_chord(bindings[i].chord.as_str()));
        i += 1;
    }
    assert(flags@ =~= chord_flags(binding_views(bindings@)));
    flags
}

/// Plans the installation of bindings whose texts have been tested:
/// `usable` holds, for each binding, whether its text is a key combination.
/// A binding that is not usable is left out, and the others are registered
/// all the same, in their order.
pub fn install(bindings: &Vec<Binding>, usable: &Vec<bool>) -> (r: Vec<HotkeyStep>)
    ensures
        hotkey_step_views(r@) == registrations(
            binding_views(bindings@),
            usable@,
            bindings@.len(),
        ),
{
    let mut steps: Vec<HotkeyStep> = Vec::new();
    let mut i: usize = 0;
    assert(hotkey_step_views(steps@) =~= registrations(binding_views(bindings@), usable@, 0));
    while i < bindings.len()
        invariant
            i <= bindings.len(),
            hotkey_step_views(steps@) == registrations(
                binding_views(bindings@),
                usable@,
                i as nat,
            ),
        decreases bindings.len() - i,
    {
        let ghost before = hotkey_step_views(steps@);
        if i < usable.len() && usable[i] {
            steps.push(HotkeyStep::Register(bindings[i].clone()));
            assert(hotkey_step_views(steps@) =~= before.push(
                HotkeyStepView::Register(binding_views(bindings@)[i as int]),
            ));
        }
        i += 1;
    }
    steps
}

impl Clone for Binding {
    fn clone(&self) -> (r: Binding)
        ensures
            r@ == self@,
    {
        Binding { action: self.action, chord: self.chord.clone() }
    }
}

/// Plans the first installation: the default bindings, each registered if
/// its text is a key combination.
pub fn setup_hotkeys() -> (r: Vec<HotkeyStep>)
    ensures
        hotkey_step_views(r@) == registrations(
            binding_table(KeybindPreferences::default_view()),
            chord_flags(binding_table(KeybindPreferences::default_view())),
            11,
        ),
{
    let keybinds = KeybindPreferences::default();
    let bindings = bindings_of(&keybinds);
    let usable = test_chords(&bindings);
    install(&bindings, &usable)
}

/// The steps of a reinstallation of the given bindings: everything that is
/// registered is unregistered first, then each binding is registered if its
/// text is a key combination.
pub open spec fn reinstallation(k: KeybindsView) -> Seq<HotkeyStepView> {
    seq![HotkeyStepView::UnregisterAll] + registrations(
        binding_table(k),
        chord_flags(binding_table(k)),
        11,
    )
}

/// Plans the reinstallation of the hotkeys from the preferences' bindings.
pub fn update_shortcuts_from_preferences(keybinds: &KeybindPreferences) -> (r: Vec<HotkeyStep>)
    ensures
        hotkey_step_views(r@) == reinstallation(keybinds@),
{
    let bindings = bindings_of(keybinds);
    let usable = test_chords(&bindings);
    let registers = install(&bindings, &usable);
    let mut steps: Vec<HotkeyStep> = Vec::new();
    steps.push(HotkeyStep::UnregisterAll);
    let mut i: usize = 0;
    while i < registers.len()
        invariant
            i <= registers.len(),
            steps@.len() == i + 1,
            steps@[0]@ == HotkeyStepView::UnregisterAll,
            forall|j: int| 0 <= j < i ==> steps@[j + 1]@ == registers@[j]@,
        decreases registers.len() - i,
    {
        steps.push(registers[i].clone());
        i += 1;
    }
    assert(hotkey_step_views(steps@) =~= seq![HotkeyStepView::UnregisterAll] + hotkey_step_views(
        registers@,
    ));
    steps
}

impl Clone for HotkeyStep {
    fn clone(&self) -> (r: HotkeyStep)
        ensures
            r@ == self@,
    {
        match self {
            HotkeyStep::UnregisterAll => HotkeyStep::UnregisterAll,
            HotkeyStep::Register(b) => HotkeyStep::Register(b.clone()),
        }
    }
}

/// Whether `step` registers one of the first `n` bindings that is usable.
pub open spec fn registers_usable(
    step: HotkeyStepView,
    bindings: Seq<BindingView>,
    usable: Seq<bool>,
    n: nat,
) -> bool {
    exists|i: int|
        0 <= i < n && i < usable.len() && usable[i] && step == HotkeyStepView::Register(
            #[trigger] bindings[i],
        )
}

/// A binding that cannot be used holds up no other: among the registrations
/// for the first `n` bindings there is one for every binding that is usable,
/// and none for any other.
pub proof fn lemma_registrations_are_the_usable_bindings(
    bindings: Seq<BindingView>,
    usable: Seq<bool>,
    n: nat,
)
    requires
        n <= bindings.len(),
    ensures
        forall|i: int|
            0 <= i < n && i < usable.len() && usable[i] ==> registrations(
                bindings,
                usable,
                n,
            ).contains(HotkeyStepView::Register(#[trigger] bindings[i])),
        forall|k: int|
            0 <= k < registrations(bindings, usable, n).len() ==> registers_usable(
                #[trigger] registrations(bindings, usable, n)[k],
                bindings,
                usable,
                n,
            ),
    decreases n,
{
    if n > 0 {
        let rest = registrations(bindings, usable, (n - 1) as nat);
        let all = registrations(bindings, usable, n);
        lemma_registrations_are_the_usable_bindings(bindings, usable, (n - 1) as nat);
        assert forall|i: int| 0 <= i < n && i < usable.len() && usable[i] implies all.contains(
            HotkeyStepView::Register(#[trigger] bindings[i]),
        ) by {
            if i < n - 1 {
                let k = choose|k: int|
                    0 <= k < rest.len() && rest[k] == HotkeyStepView::Register(bindings[i]);
                assert(all[k] == rest[k]);
            } else {
                assert(all[rest.len() as int] == HotkeyStepView::Register(bindings[i]));
            }
        }
        assert forall|k: int| 0 <= k < all.len() implies registers_usable(
            #[trigger] all[k],
            bindings,
            usable,
            n,
        ) by {
            if k < rest.len() {
                assert(all[k] == rest[k]);
                assert(registers_usable(rest[k], bindings, usable, (n - 1) as nat));
                let i = choose|i: int|
                    0 <= i < n - 1 && i < usable.len() && usable[i] && rest[k]
                        == HotkeyStepView::Register(#[trigger] bindings[i]);
                assert(0 <= i < n && i < usable.len() && usable[i] && all[k]
                    == HotkeyStepView::Register(bindings[i]));
            } else {
                assert(all[k] == HotkeyStepView::Register(bindings[n - 1]));
            }
        }
    }
}

} // verus!
