//! The commands that the user interface invokes. Each one changes the state
//! and returns what the program has to carry out.

use vstd::prelude::*;
use crate::config::{MAX_SHADOW_WINDOWS, SHADOW_WINDOW_OFFSET};
use crate::effects::{
    fan_out,
    push_fan_out,
    push_step,
    step_views,
    Notification,
    NotificationView,
    Step,
    StepView,
    WindowEffect,
};
use crate::state::{
    shadow_label_text,
    AppState,
    AppStateView,
    Preferences,
    PreferencesView,
};
use crate::window::{is_coordinate, move_window_by, WindowFrame};

verus! {

/// Why no shadow window was created.
#[derive(Debug, Clone, PartialEq, Eq)]
pub enum ShadowError {
    /// The registry is at its limit.
    LimitReached,
    /// The overlay is locked.
    Locked,
    /// Every label has been handed out.
    Exhausted,
    /// The label that was handed out is registered already: a window was
    /// registered by hand under the label of this number.
    LabelTaken,
    /// The main window could not be read; carries the reason.
    MainWindow(String),
    /// The shadow window's position cannot be held.
    OutOfRange,
}

/// A shadow window to create.
#[derive(Debug, Clone, PartialEq, Eq)]
pub struct ShadowWindow {
    /// The new window's label.
    pub label: String,
    /// Where to put it and how large to make it.
    pub frame: WindowFrame,
    /// The preferences to send to it once it exists.
    pub settings: Preferences,
}

/// How far a new shadow window is placed from the main window, to the right
/// and down, when `count` shadow windows are registered.
pub open spec fn shadow_offset(count: nat) -> int {
    (count + 1) * SHADOW_WINDOW_OFFSET
}

/// Why the state alone refuses a new shadow window, if it does: the registry
/// is at its limit; else the overlay is locked; else no label is left; else
/// the next label is registered already.
pub open spec fn shadow_refusal(s: AppStateView) -> Option<ShadowErrorView> {
    if s.shadow_windows.len() >= MAX_SHADOW_WINDOWS {
        Some(ShadowErrorView::LimitReached)
    } else if s.preferences.locked {
        Some(ShadowErrorView::Locked)
    } else if s.shadow_counter >= u32::MAX {
        Some(ShadowErrorView::Exhausted)
    } else if s.shadow_windows.contains(shadow_label_text(s.shadow_counter + 1)) {
        Some(ShadowErrorView::LabelTaken)
    } else {
        None
    }
}

/// The state after a label was handed out: the counter is one further.
pub open spec fn label_used(s: AppStateView) -> AppStateView {
    AppStateView { shadow_counter: s.shadow_counter + 1, ..s }
}

/// The state after a shadow window was created: the next label is handed
/// out and registered after those that were there.
pub open spec fn shadow_created(s: AppStateView) -> AppStateView {
    AppStateView {
        shadow_counter: s.shadow_counter + 1,
        shadow_windows: s.shadow_windows.push(shadow_label_text(s.shadow_counter + 1)),
        ..s
    }
}

/// Whether a shadow window placed beside a main window at `frame`, when
/// `count` shadow windows are registered, has a position that can be held.
pub open spec fn shadow_fits(frame: WindowFrame, count: nat) -> bool {
    is_coordinate(frame.position.x + shadow_offset(count)) && is_coordinate(
        frame.position.y + shadow_offset(count),
    )
}

/// Plans and registers a new shadow window.
///
/// `main` is the main window's frame as it was read, or the reason why it
/// could not be read. The call fails
/// - with `LimitReached` where the registry is at its limit;
/// - else with `Locked` where the overlay is locked;
/// - else with `Exhausted` where no label is left;
/// - else with `LabelTaken` where the next label is registered already;
/// - else with `MainWindow` and the given reason where the frame is missing;
/// - else with `OutOfRange` where the new position cannot be held.
///
/// The first three leave the state as it was. After them a label has been
/// handed out, and it stays used whatever follows. On success the new window
/// has the main window's size, stands offset from it by the same distance on
/// both axes, and is registered under its label, which no window had
/// before: the registry holds one window more.
pub fn create_shadow_window(state: &mut AppState, main: Result<WindowFrame, String>) -> (r: Result<
    ShadowWindow,
    ShadowError,
>)
    ensures
        final(state)@.wf(),
        old(state)@.preferences.locked ==> r.is_err() && final(state)@ == old(state)@,
        old(state)@.shadow_windows.len() >= MAX_SHADOW_WINDOWS ==> r == Err::<
            ShadowWindow,
            ShadowError,
        >(ShadowError::LimitReached) && final(state)@ == old(state)@,
        shadow_refusal(old(state)@).is_some() ==> r.is_err() && r.unwrap_err()@
            == shadow_refusal(old(state)@).unwrap(),
        match r {
            Err(ShadowError::LimitReached) => {
                &&& shadow_refusal(old(state)@) == Some(ShadowErrorView::LimitReached)
                &&& final(state)@ == old(state)@
            },
            Err(ShadowError::Locked) => {
                &&& shadow_refusal(old(state)@) == Some(ShadowErrorView::Locked)
                &&& final(state)@ == old(state)@
            },
            Err(ShadowError::Exhausted) => {
                &&& shadow_refusal(old(state)@) == Some(ShadowErrorView::Exhausted)
                &&& final(state)@ == old(state)@
            },
            Err(ShadowError::LabelTaken) => {
                &&& shadow_refusal(old(state)@) == Some(ShadowErrorView::LabelTaken)
                &&& final(state)@ == label_used(old(state)@)
            },
            Err(ShadowError::MainWindow(reason)) => {
                &&& shadow_refusal(old(state)@).is_none()
                &&& main.is_err()
                &&& reason@ == main.unwrap_err()@
                &&& final(state)@ == label_used(old(state)@)
            },
            Err(ShadowError::OutOfRange) => {
                &&& shadow_refusal(old(state)@).is_none()
                &&& main.is_ok()
                &&& !shadow_fits(main.unwrap(), old(state)@.shadow_windows.len())
                &&& final(state)@ == label_used(old(state)@)
            },
            Ok(w) => {
                &&& shadow_refusal(old(state)@).is_none()
                &&& main.is_ok()
                &&& shadow_fits(main.unwrap(), old(state)@.shadow_windows.len())
                &&& w.label@ == shadow_label_text(old(state)@.shadow_counter + 1)
                &&& !old(state)@.shadow_windows.contains(w.label@)
                &&& w.frame.size == main.unwrap().size
                &&& w.frame.position.x == main.unwrap().position.x + shadow_offset(
                    old(state)@.shadow_windows.len(),
                )
                &&& w.frame.position.y == main.unwrap().position.y + shadow_offset(
                    old(state)@.shadow_windows.len(),
                )
                &&& w.settings@ == old(state)@.preferences
                &&& final(state)@ == shadow_created(old(state)@)
                &&& final(state)@.shadow_windows.len() == old(state)@.shadow_windows.len() + 1
                &&& final(state)@.shadow_windows.contains(w.label@)
            },
        },
{
    proof {
        use_type_invariant(&*state);
    }
    let count = state.shadow_window_count();
    if count >= MAX_SHADOW_WINDOWS {
        return Err(ShadowError::LimitReached);
    }
    if state.is_locked() {
        return Err(ShadowError::Locked);
    }
    let label = match state.next_shadow_id() {
        Some(label) => label,
        None => {
            return Err(ShadowError::Exhausted);
        },
    };
    if state.has_shadow_window(label.as_str()) {
        return Err(ShadowError::LabelTaken);
    }
    let frame = match main {
        Ok(frame) => frame,
        Err(reason) => {
            return Err(ShadowError::MainWindow(reason));
        },
    };
    let offset: i32 = (count as i32 + 1) * SHADOW_WINDOW_OFFSET;
    let position = match move_window_by(frame.position, offset, offset) {
        Ok(position) => position,
        Err(_) => {
            return Err(ShadowError::OutOfRange);
        },
    };
    let settings = state.get_preferences();
    let ghost before = state@.shadow_windows;
    state.add_shadow_window(label.clone());
    proof {
        assert(before.push(label@)[before.len() as int] == label@);
    }
    Ok(ShadowWindow { label, frame: WindowFrame { position, size: frame.size }, settings })
}

/// The state after `n` shadow windows were created one after the other.
pub open spec fn after_creations(s: AppStateView, n: nat) -> AppStateView
    decreases n,
{
    if n == 0 {
        s
    } else {
        shadow_created(after_creations(s, (n - 1) as nat))
    }
}

/// After `n` creations in a row, none of them refused, the registry holds
/// `n` windows more and the counter is `n` further: every creation gave a
/// label that no window had, and the state is well formed as it was.
pub proof fn lemma_creations_add_up(s: AppStateView, n: nat)
    requires
        s.wf(),
        forall|k: nat| k < n ==> shadow_refusal(#[trigger] after_creations(s, k)).is_none(),
    ensures
        after_creations(s, n).wf(),
        after_creations(s, n).shadow_windows.len() == s.shadow_windows.len() + n,
        after_creations(s, n).shadow_counter == s.shadow_counter + n,
        after_creations(s, n).preferences == s.preferences,
    decreases n,
{
    if n > 0 {
        let m = (n - 1) as nat;
        lemma_creations_add_up(s, m);
        let t = after_creations(s, m);
        assert(shadow_refusal(t).is_none());
        let label = shadow_label_text(t.shadow_counter + 1);
        assert(!t.shadow_windows.contains(label));
        let after = t.shadow_windows.push(label);
        assert forall|i: int, j: int|
            0 <= i < after.len() && 0 <= j < after.len() && i != j implies after[i] != after[j] by {
            if i < t.shadow_windows.len() && j < t.shadow_windows.len() {
            } else if i < t.shadow_windows.len() {
                assert(t.shadow_windows.contains(after[i]));
            } else {
                assert(t.shadow_windows.contains(after[j]));
            }
        }
    }
}

/// Fourteen shadow windows can be created and no more: where fourteen
/// creations in a row were not refused, the registry was empty before them
/// and holds fourteen windows after them, and the state refuses the next one
/// because the limit is reached.
pub proof fn lemma_fifteenth_creation_is_refused(s: AppStateView)
    requires
        s.wf(),
        forall|k: nat|
            k < MAX_SHADOW_WINDOWS ==> shadow_refusal(#[trigger] after_creations(s, k)).is_none(),
    ensures
        s.shadow_windows.len() == 0,
        after_creations(s, MAX_SHADOW_WINDOWS as nat).shadow_windows.len() == MAX_SHADOW_WINDOWS,
        shadow_refusal(after_creations(s, MAX_SHADOW_WINDOWS as nat)) == Some(
            ShadowErrorView::LimitReached,
        ),
{
    lemma_creations_add_up(s, 13);
    assert(shadow_refusal(after_creations(s, 13)).is_none());
    lemma_creations_add_up(s, 14);
}

/// The effect that makes a window visible or invisible.
pub open spec fn visibility_effect(visible: bool) -> WindowEffect {
    if visible {
        WindowEffect::Show
    } else {
        WindowEffect::Hide
    }
}

/// The steps that carry a new lock flag out: click-through on every overlay
/// window, then the notification.
pub open spec fn lock_steps(labels: Seq<Seq<char>>, locked: bool) -> Seq<StepView> {
    fan_out(labels, WindowEffect::SetClickThrough(locked)).push(
        StepView::Emit(NotificationView::LockChanged(locked)),
    )
}

/// The steps that carry a new visibility flag out: show or hide every
/// overlay window, then the notification.
pub open spec fn visibility_steps(labels: Seq<Seq<char>>, visible: bool) -> Seq<StepView> {
    fan_out(labels, visibility_effect(visible)).push(
        StepView::Emit(NotificationView::VisibilityChanged(visible)),
    )
}

/// The notifications that tell the user interface of every setting that a
/// reset puts back: crosshair, opacity, size, color and reticle.
pub open spec fn settings_steps(p: PreferencesView) -> Seq<StepView> {
    seq![
        StepView::Emit(NotificationView::CrosshairChanged(p.crosshair)),
        StepView::Emit(NotificationView::OpacityChanged(p.opacity)),
        StepView::Emit(NotificationView::SizeChanged(p.size)),
        StepView::Emit(NotificationView::ColorChanged(p.color)),
        StepView::Emit(NotificationView::ReticleChanged(p.reticle)),
    ]
}

/// Flips the lock flag. Returns the new value and the steps that make every
/// overlay window click-through, or not, accordingly.
pub fn toggle_lock(state: &mut AppState) -> (r: (bool, Vec<Step>))
    ensures
        final(state)@ == old(state)@.locked_toggled(),
        r.0 == !old(state)@.preferences.locked,
        step_views(r.1@) == lock_steps(old(state)@.shadow_windows, r.0),
{
    let locked = state.toggle_locked();
    let mut steps: Vec<Step> = Vec::new();
    let labels = state.get_shadow_windows();
    push_fan_out(&mut steps, &labels, WindowEffect::SetClickThrough(locked));
    push_step(&mut steps, Step::Emit(Notification::LockChanged(locked)));
    assert(step_views(steps@) =~= lock_steps(old(state)@.shadow_windows, locked));
    (locked, steps)
}

/// Flips the visibility flag, whether or not the overlay is locked. Returns
/// the new value and the steps that show or hide every overlay window.
pub fn toggle_visibility(state: &mut AppState) -> (r: (bool, Vec<Step>))
    ensures
        final(state)@ == old(state)@.visible_toggled(),
        r.0 == !old(state)@.preferences.visible,
        step_views(r.1@) == visibility_steps(old(state)@.shadow_windows, r.0),
{
    let visible = state.toggle_visible();
    let effect = if visible {
        WindowEffect::Show
    } else {
        WindowEffect::Hide
    };
    let mut steps: Vec<Step> = Vec::new();
    let labels = state.get_shadow_windows();
    push_fan_out(&mut steps, &labels, effect);
    push_step(&mut steps, Step::Emit(Notification::VisibilityChanged(visible)));
    assert(step_views(steps@) =~= visibility_steps(old(state)@.shadow_windows, visible));
    (visible, steps)
}

/// Sets the crosshair image and returns the notification of it.
pub fn set_crosshair(state: &mut AppState, crosshair: String) -> (r: Notification)
    ensures
        final(state)@ == old(state)@.with_preferences(
            PreferencesView { crosshair: crosshair@, ..old(state)@.preferences },
        ),
        r@ == NotificationView::CrosshairChanged(crosshair@),
{
    state.set_crosshair(crosshair.clone());
    Notification::CrosshairChanged(crosshair)
}

/// Sets the opacity. What is stored is limited to the range from 0 to 1; the
/// notification carries the value as it was asked for.
pub fn set_opacity(state: &mut AppState, opacity: u64) -> (r: Notification)
    ensures
        final(state)@ == old(state)@.opacity_set(opacity),
        crate::opacity::in_unit_range(final(state)@.preferences.opacity),
        r@ == NotificationView::OpacityChanged(opacity),
{
    state.set_opacity(opacity);
    Notification::OpacityChanged(opacity)
}

/// Sets the size and returns the notification of it.
pub fn set_size(state: &mut AppState, size: u32) -> (r: Notification)
    ensures
        final(state)@ == old(state)@.with_preferences(
            PreferencesView { size, ..old(state)@.preferences },
        ),
        r@ == NotificationView::SizeChanged(size),
{
    state.set_size(size);
    Notification::SizeChanged(size)
}

/// Sets the color and returns the notification of it.
pub fn set_color(state: &mut AppState, color: String) -> (r: Notification)
    ensures
        final(state)@ == old(state)@.with_preferences(
            PreferencesView { color: color@, ..old(state)@.preferences },
        ),
        r@ == NotificationView::ColorChanged(color@),
{
    state.set_color(color.clone());
    Notification::ColorChanged(color)
}

/// Sets the kind of the reticle and returns the notification of it.
pub fn set_reticle(state: &mut AppState, reticle: String) -> (r: Notification)
    ensures
        final(state)@ == old(state)@.with_preferences(
            PreferencesView { reticle: reticle@, ..old(state)@.preferences },
        ),
        r@ == NotificationView::ReticleChanged(reticle@),
{
    state.set_reticle(reticle.clone());
    Notification::ReticleChanged(reticle)
}

/// Adds the notifications of every setting that a reset puts back.
pub fn push_settings_steps(steps: &mut Vec<Step>, p: &Preferences)
    ensures
        step_views(final(steps)@) == step_views(old(steps)@) + settings_steps(p@),
{
    let ghost before = step_views(steps@);
    push_step(steps, Step::Emit(Notification::CrosshairChanged(p.crosshair.clone())));
    push_step(steps, Step::Emit(Notification::OpacityChanged(p.opacity)));
    push_step(steps, Step::Emit(Notification::SizeChanged(p.size)));
    push_step(steps, Step::Emit(Notification::ColorChanged(p.color.clone())));
    push_step(steps, Step::Emit(Notification::ReticleChanged(p.reticle.clone())));
    assert(step_views(steps@) =~= before + settings_steps(p@));
}

/// Puts the preferences back to their defaults and returns the notifications
/// of the settings that the user interface shows.
pub fn reset_preferences(state: &mut AppState) -> (r: Vec<Step>)
    ensures
        final(state)@ == old(state)@.with_preferences(Preferences::default_view()),
        step_views(r@) == settings_steps(Preferences::default_view()),
{
    state.reset_preferences();
    let p = state.get_preferences();
    let mut steps: Vec<Step> = Vec::new();
    push_settings_steps(&mut steps, &p);
    assert(step_views(steps@) =~= settings_steps(Preferences::default_view()));
    steps
}

/// A shadow window error as plain values.
pub enum ShadowErrorView {
    LimitReached,
    Locked,
    Exhausted,
    LabelTaken,
    MainWindow(Seq<char>),
    OutOfRange,
}

impl View for ShadowError {
    type V = ShadowErrorView;

    open spec fn view(&self) -> ShadowErrorView {
        match self {
            ShadowError::LimitReached => ShadowErrorView::LimitReached,
            ShadowError::Locked => ShadowErrorView::Locked,
            ShadowError::Exhausted => ShadowErrorView::Exhausted,
            ShadowError::LabelTaken => ShadowErrorView::LabelTaken,
            ShadowError::MainWindow(reason) => ShadowErrorView::MainWindow(reason@),
            ShadowError::OutOfRange => ShadowErrorView::OutOfRange,
        }
    }
}

impl ShadowErrorView {
    /// The message shown for the error.
    pub open spec fn text(self) -> Seq<char> {
        match self {
            ShadowErrorView::LimitReached => "Maximum shadow windows reached"@,
            ShadowErrorView::Locked => "Cannot create shadow window while locked"@,
            ShadowErrorView::Exhausted => "No shadow window label left"@,
            ShadowErrorView::LabelTaken => "Shadow window label already in use"@,
            ShadowErrorView::MainWindow(reason) => reason,
            ShadowErrorView::OutOfRange => "Shadow window position out of range"@,
        }
    }
}

impl ShadowError {
    /// The message shown for the error.
    pub fn message(&self) -> (r: String)
        ensures
            r@ == self@.text(),
    {
        match self {
            ShadowError::LimitReached => "Maximum shadow windows reached".to_owned(),
            ShadowError::Locked => "Cannot create shadow window while locked".to_owned(),
            ShadowError::Exhausted => "No shadow window label left".to_owned(),
            ShadowError::LabelTaken => "Shadow window label already in use".to_owned(),
            ShadowError::MainWindow(reason) => reason.clone(),
            ShadowError::OutOfRange => "Shadow window position out of range".to_owned(),
        }
    }
}

} // verus!
