//! The application's state: the preference record (what the user has chosen
//! for the crosshair, the overlay's flags and the key bindings) and the
//! registry of shadow windows.

use vstd::prelude::*;
use crate::config::MAX_SHADOW_WINDOWS;
use crate::opacity::{clamp_opacity, clamped, in_unit_range, FULLY_OPAQUE};
use crate::text::same_text;
use crate::effects::{fan_out, push_fan_out, step_views, Step, WindowEffect};

verus! {

/// Default crosshair size in pixels.
pub const DEFAULT_SIZE: u32 = 100;

/// Default crosshair opacity: fully opaque, as a bit pattern (see the module
/// on opacity).
pub const DEFAULT_OPACITY: u64 = FULLY_OPAQUE;

/// Default crosshair color.
pub const DEFAULT_COLOR: &'static str = "#00FF00";

/// Default crosshair image.
pub const DEFAULT_CROSSHAIR: &'static str = "crosshair-default.png";

/// The key combination bound to each action, as text.
#[derive(Debug, PartialEq, Eq)]
pub struct KeybindPreferences {
    pub toggle_lock: String,
    pub center: String,
    pub hide: String,
    pub reset: String,
    pub move_up: String,
    pub move_down: String,
    pub move_left: String,
    pub move_right: String,
    pub change_display: String,
    pub duplicate: String,
    pub quit: String,
}

/// The key bindings as plain text.
pub struct KeybindsView {
    pub toggle_lock: Seq<char>,
    pub center: Seq<char>,
    pub hide: Seq<char>,
    pub reset: Seq<char>,
    pub move_up: Seq<char>,
    pub move_down: Seq<char>,
    pub move_left: Seq<char>,
    pub move_right: Seq<char>,
    pub change_display: Seq<char>,
    pub duplicate: Seq<char>,
    pub quit: Seq<char>,
}

impl View for KeybindPreferences {
    type V = KeybindsView;

    open spec fn view(&self) -> KeybindsView {
        KeybindsView {
            toggle_lock: self.toggle_lock@,
            center: self.center@,
            hide: self.hide@,
            reset: self.reset@,
            move_up: self.move_up@,
            move_down: self.move_down@,
            move_left: self.move_left@,
            move_right: self.move_right@,
            change_display: self.change_display@,
            duplicate: self.duplicate@,
            quit: self.quit@,
        }
    }
}

impl KeybindPreferences {
    /// The bindings that a fresh installation starts with: the three
    /// modifiers Control, Shift and Alt with one key for each action.
    pub open spec fn default_view() -> KeybindsView {
        KeybindsView {
            toggle_lock: "Control+Shift+Alt+X"@,
            center: "Control+Shift+Alt+C"@,
            hide: "Control+Shift+Alt+H"@,
            reset: "Control+Shift+Alt+R"@,
            move_up: "Control+Shift+Alt+Up"@,
            move_down: "Control+Shift+Alt+Down"@,
            move_left: "Control+Shift+Alt+Left"@,
            move_right: "Control+Shift+Alt+Right"@,
            change_display: "Control+Shift+Alt+M"@,
            duplicate: "Control+Shift+Alt+D"@,
            quit: "Control+Shift+Alt+Q"@,
        }
    }
}

impl Default for KeybindPreferences {
    fn default() -> (r: Self)
        ensures
            r@ == KeybindPreferences::default_view(),
    {
        KeybindPreferences {
            toggle_lock: "Control+Shift+Alt+X".to_owned(),
            center: "Control+Shift+Alt+C".to_owned(),
            hide: "Control+Shift+Alt+H".to_owned(),
            reset: "Control+Shift+Alt+R".to_owned(),
            move_up: "Control+Shift+Alt+Up".to_owned(),
            move_down: "Control+Shift+Alt+Down".to_owned(),
            move_left: "Control+Shift+Alt+Left".to_owned(),
            move_right: "Control+Shift+Alt+Right".to_owned(),
            change_display: "Control+Shift+Alt+M".to_owned(),
            duplicate: "Control+Shift+Alt+D".to_owned(),
            quit: "Control+Shift+Alt+Q".to_owned(),
        }
    }
}

impl Clone for KeybindPreferences {
    fn clone(&self) -> (r: Self)
        ensures
            r@ == self@,
    {
        KeybindPreferences {
            toggle_lock: self.toggle_lock.clone(),
            center: self.center.clone(),
            hide: self.hide.clone(),
            reset: self.reset.clone(),
            move_up: self.move_up.clone(),
            move_down: self.move_down.clone(),
            move_left: self.move_left.clone(),
            move_right: self.move_right.clone(),
            change_display: self.change_display.clone(),
            duplicate: self.duplicate.clone(),
            quit: self.quit.clone(),
        }
    }
}

/// The preferences that are kept between runs.
#[derive(Debug, PartialEq, Eq)]
pub struct Preferences {
    /// File name of the current crosshair image.
    pub crosshair: String,
    /// Crosshair size in pixels.
    pub size: u32,
    /// Crosshair opacity, as the bit pattern of a double.
    pub opacity: u64,
    /// Crosshair color, a hex string.
    pub color: String,
    /// Whether the overlay is locked, that is click-through.
    pub locked: bool,
    /// Whether the overlay is visible.
    pub visible: bool,
    /// Whether the overlay follows the mouse cursor.
    pub follow_mouse: bool,
    /// Saved x position.
    pub position_x: Option<i32>,
    /// Saved y position.
    pub position_y: Option<i32>,
    /// Whether to start on system boot.
    pub start_on_boot: bool,
    /// The key bindings.
    pub keybinds: KeybindPreferences,
    /// Whether to hide while the right mouse button is held.
    pub hide_on_ads: bool,
    /// Kind of the helper reticle: none, dot, cross or circle.
    pub reticle: String,
}

/// The preferences as plain values.
pub struct PreferencesView {
    pub crosshair: Seq<char>,
    pub size: u32,
    pub opacity: u64,
    pub color: Seq<char>,
    pub locked: bool,
    pub visible: bool,
    pub follow_mouse: bool,
    pub position_x: Option<i32>,
    pub position_y: Option<i32>,
    pub start_on_boot: bool,
    pub keybinds: KeybindsView,
    pub hide_on_ads: bool,
    pub reticle: Seq<char>,
}

impl View for Preferences {
    type V = PreferencesView;

    open spec fn view(&self) -> PreferencesView {
        PreferencesView {
            crosshair: self.crosshair@,
            size: self.size,
            opacity: self.opacity,
            color: self.color@,
            locked: self.locked,
            visible: self.visible,
            follow_mouse: self.follow_mouse,
            position_x: self.position_x,
            position_y: self.position_y,
            start_on_boot: self.start_on_boot,
            keybinds: self.keybinds@,
            hide_on_ads: self.hide_on_ads,
            reticle: self.reticle@,
        }
    }
}

impl Preferences {
    /// The preferences of a fresh installation: unlocked, visible, fully
    /// opaque, not following the mouse, no saved position.
    pub open spec fn default_view() -> PreferencesView {
        PreferencesView {
            crosshair: "target-dot.png"@,
            size: DEFAULT_SIZE,
            opacity: DEFAULT_OPACITY,
            color: DEFAULT_COLOR@,
            locked: false,
            visible: true,
            follow_mouse: false,
            position_x: None,
            position_y: None,
            start_on_boot: false,
            keybinds: KeybindPreferences::default_view(),
            hide_on_ads: false,
            reticle: "dot"@,
        }
    }
}

impl Default for Preferences {
    fn default() -> (r: Self)
        ensures
            r@ == Preferences::default_view(),
    {
        Preferences {
            crosshair: "target-dot.png".to_owned(),
            size: DEFAULT_SIZE,
            opacity: DEFAULT_OPACITY,
            color: DEFAULT_COLOR.to_owned(),
            locked: false,
            visible: true,
            follow_mouse: false,
            position_x: None,
            position_y: None,
            start_on_boot: false,
            keybinds: KeybindPreferences::default(),
            hide_on_ads: false,
            reticle: "dot".to_owned(),
        }
    }
}

impl Clone for Preferences {
    fn clone(&self) -> (r: Self)
        ensures
            r@ == self@,
    {
        Preferences {
            crosshair: self.crosshair.clone(),
            size: self.size,
            opacity: self.opacity,
            color: self.color.clone(),
            locked: self.locked,
            visible: self.visible,
            follow_mouse: self.follow_mouse,
            position_x: self.position_x,
            position_y: self.position_y,
            start_on_boot: self.start_on_boot,
            keybinds: self.keybinds.clone(),
            hide_on_ads: self.hide_on_ads,
            reticle: self.reticle.clone(),
        }
    }
}

/// The text of a shadow window's label: `shadow-` and the window's number in
/// decimal.
pub open spec fn shadow_label_text(n: nat) -> Seq<char> {
    "shadow-"@ + decimal_text(n)
}

/// The character of one decimal digit.
pub open spec fn digit_char(d: nat) -> char
    recommends
        d < 10,
{
    if d == 0 {
        '0'
    } else if d == 1 {
        '1'
    } else if d == 2 {
        '2'
    } else if d == 3 {
        '3'
    } else if d == 4 {
        '4'
    } else if d == 5 {
        '5'
    } else if d == 6 {
        '6'
    } else if d == 7 {
        '7'
    } else if d == 8 {
        '8'
    } else {
        '9'
    }
}

/// A number written in decimal, without leading zeros.
pub open spec fn decimal_text(n: nat) -> Seq<char>
    decreases n,
{
    if n < 10 {
        seq![digit_char(n)]
    } else {
        decimal_text(n / 10).push(digit_char(n % 10))
    }
}

/// The text of one decimal digit.
fn digit_text(d: u32) -> (r: &'static str)
    requires
        d < 10,
    ensures
        r@ == seq![digit_char(d as nat)],
{
    proof {
        reveal_strlit("0");
        reveal_strlit("1");
        reveal_strlit("2");
        reveal_strlit("3");
        reveal_strlit("4");
        reveal_strlit("5");
        reveal_strlit("6");
        reveal_strlit("7");
        reveal_strlit("8");
        reveal_strlit("9");
    }
    let r = if d == 0 {
        "0"
    } else if d == 1 {
        "1"
    } else if d == 2 {
        "2"
    } else if d == 3 {
        "3"
    } else if d == 4 {
        "4"
    } else if d == 5 {
        "5"
    } else if d == 6 {
        "6"
    } else if d == 7 {
        "7"
    } else if d == 8 {
        "8"
    } else {
        "9"
    };
    assert(r@ =~= seq![digit_char(d as nat)]);
    r
}

/// Writes a number in decimal.
pub fn decimal(n: u32) -> (r: String)
    ensures
        r@ == decimal_text(n as nat),
    decreases n,
{
    if n < 10 {
        digit_text(n).to_owned()
    } else {
        let r = decimal(n / 10).concat(digit_text(n % 10));
        assert(r@ =~= decimal_text((n / 10) as nat).push(digit_char((n % 10) as nat)));
        r
    }
}

/// The label of the shadow window with the given number.
pub fn shadow_label(n: u32) -> (r: String)
    ensures
        r@ == shadow_label_text(n as nat),
{
    let digits = decimal(n);
    "shadow-".to_owned().concat(digits.as_str())
}

/// The labels `labels` without `label`, the others in their order.
pub open spec fn without_label(labels: Seq<Seq<char>>, label: Seq<char>) -> Seq<Seq<char>> {
    if labels.contains(label) {
        labels.remove(labels.index_of(label))
    } else {
        labels
    }
}

/// The labels `labels` with `label` registered: added at the end, unless it
/// is there already or `labels` is at the limit.
pub open spec fn with_label(labels: Seq<Seq<char>>, label: Seq<char>) -> Seq<Seq<char>> {
    if labels.contains(label) || labels.len() >= MAX_SHADOW_WINDOWS {
        labels
    } else {
        labels.push(label)
    }
}

/// The application's state: the preferences and the registry of shadow
/// windows.
///
/// The registry holds each label once and never more than
/// [`MAX_SHADOW_WINDOWS`] of them.
pub struct AppState {
    preferences: Preferences,
    shadow_windows: Vec<String>,
    shadow_counter: u32,
    mouse_following_active: bool,
}

/// The application's state as plain values.
pub struct AppStateView {
    /// The current preferences.
    pub preferences: PreferencesView,
    /// The labels of the registered shadow windows, in the order in which
    /// they were registered.
    pub shadow_windows: Seq<Seq<char>>,
    /// The number of the shadow window label that was handed out last.
    pub shadow_counter: nat,
    /// Whether mouse following is marked as active.
    pub mouse_following_active: bool,
}

impl AppStateView {
    /// What holds of every state: the opacity is a number from 0 to 1, no
    /// label is registered twice, the registry is within its limit, and the
    /// number handed out last is one that a label can carry.
    pub open spec fn wf(self) -> bool {
        &&& in_unit_range(self.preferences.opacity)
        &&& self.shadow_windows.no_duplicates()
        &&& self.shadow_windows.len() <= MAX_SHADOW_WINDOWS
        &&& self.shadow_counter <= u32::MAX
    }

    /// The state of a fresh start: default preferences, no shadow window.
    pub open spec fn initial() -> AppStateView {
        AppStateView {
            preferences: Preferences::default_view(),
            shadow_windows: Seq::empty(),
            shadow_counter: 0,
            mouse_following_active: false,
        }
    }
}

impl Default for AppState {
    fn default() -> (r: Self)
        ensures
            r@ == AppStateView::initial(),
    {
        AppState::new()
    }
}

impl View for AppState {
    type V = AppStateView;

    closed spec fn view(&self) -> AppStateView {
        AppStateView {
            preferences: self.preferences@,
            shadow_windows: self.shadow_windows.deep_view(),
            shadow_counter: self.shadow_counter as nat,
            mouse_following_active: self.mouse_following_active,
        }
    }
}

impl AppState {
    /// Every state is well formed.
    #[verifier::type_invariant]
    pub open spec fn inv(&self) -> bool {
        self@.wf()
    }

    /// A state with the default preferences and no shadow window.
    pub fn new() -> (r: Self)
        ensures
            r@ == AppStateView::initial(),
            r@.wf(),
    {
        let r = AppState {
            preferences: Preferences::default(),
            shadow_windows: Vec::new(),
            shadow_counter: 0,
            mouse_following_active: false,
        };
        assert(r.shadow_windows.deep_view() =~= Seq::<Seq<char>>::empty());
        r
    }

    /// A state with the default preferences and no shadow window, in which
    /// `counter` labels count as handed out already: the next label carries
    /// the number after it.
    pub fn with_shadow_counter(counter: u32) -> (r: Self)
        ensures
            r@ == (AppStateView { shadow_counter: counter as nat, ..AppStateView::initial() }),
            r@.wf(),
    {
        let r = AppState {
            preferences: Preferences::default(),
            shadow_windows: Vec::new(),
            shadow_counter: counter,
            mouse_following_active: false,
        };
        assert(r.shadow_windows.deep_view() =~= Seq::<Seq<char>>::empty());
        r
    }

    /// Position of `label` in the registry, if it is registered.
    fn find_shadow_window(&self, label: &str) -> (r: Option<usize>)
        ensures
            r.is_some() == self@.shadow_windows.contains(label@),
            r.is_some() ==> r.unwrap() < self@.shadow_windows.len() && self@.shadow_windows[r.unwrap() as int]
                == label@ && r.unwrap() as int == self@.shadow_windows.index_of(label@),
    {
        proof {
            use_type_invariant(self);
        }
        let mut i: usize = 0;
        while i < self.shadow_windows.len()
            invariant
                self@.wf(),
                i <= self.shadow_windows.len(),
                forall|j: int| 0 <= j < i ==> self.shadow_windows.deep_view()[j] != label@,
            decreases self.shadow_windows.len() - i,
        {
            if same_text(self.shadow_windows[i].as_str(), label) {
                proof {
                    let labels = self@.shadow_windows;
                    assert(labels[i as int] == label@);
                    let k = labels.index_of(label@);
                    assert(0 <= k < labels.len() && labels[k] == label@);
                }
                return Some(i);
            }
            i += 1;
        }
        None
    }

    /// Whether a shadow window is registered under `label`.
    pub fn has_shadow_window(&self, label: &str) -> (r: bool)
        ensures
            r == self@.shadow_windows.contains(label@),
    {
        self.find_shadow_window(label).is_some()
    }

    /// Hands out the label for a new shadow window: `shadow-` and the next
    /// number, counted from 1. A number is used once, whether or not its
    /// window is ever registered or has been removed since.
    ///
    /// Returns `None`, and changes nothing, once every number has been used.
    pub fn next_shadow_id(&mut self) -> (r: Option<String>)
        ensures
            final(self)@.wf(),
            r.is_some() == (old(self)@.shadow_counter < u32::MAX),
            r.is_some() ==> r.unwrap()@ == shadow_label_text(old(self)@.shadow_counter + 1)
                && final(self)@ == (AppStateView {
                shadow_counter: old(self)@.shadow_counter + 1,
                ..old(self)@
            }),
            r.is_none() ==> final(self)@ == old(self)@,
    {
        proof {
            use_type_invariant(&*self);
        }
        if self.shadow_counter == u32::MAX {
            return None;
        }
        self.shadow_counter = self.shadow_counter + 1;
        Some(shadow_label(self.shadow_counter))
    }

    /// Registers a shadow window, unless it is registered already or the
    /// registry is at its limit. Returns whether the label is registered
    /// after the call.
    pub fn add_shadow_window(&mut self, label: String) -> (r: bool)
        ensures
            final(self)@.wf(),
            final(self)@ == (AppStateView {
                shadow_windows: with_label(old(self)@.shadow_windows, label@),
                ..old(self)@
            }),
            r == final(self)@.shadow_windows.contains(label@),
    {
        proof {
            use_type_invariant(&*self);
        }
        if self.find_shadow_window(label.as_str()).is_some() {
            return true;
        }
        if self.shadow_windows.len() >= MAX_SHADOW_WINDOWS {
            return false;
        }
        let ghost before = self.shadow_windows.deep_view();
        let mut windows = self.get_shadow_windows();
        windows.push(label);
        proof {
            assert(windows.deep_view() =~= before.push(label@));
            assert(before.push(label@)[before.len() as int] == label@);
        }
        self.shadow_windows = windows;
        true
    }

    /// Removes a shadow window from the registry. Removing a label that is
    /// not registered changes nothing.
    pub fn remove_shadow_window(&mut self, label: &str)
        ensures
            final(self)@.wf(),
            final(self)@ == (AppStateView {
                shadow_windows: without_label(old(self)@.shadow_windows, label@),
                ..old(self)@
            }),
            !final(self)@.shadow_windows.contains(label@),
    {
        proof {
            use_type_invariant(&*self);
        }
        match self.find_shadow_window(label) {
            Some(i) => {
                let ghost before = self.shadow_windows.deep_view();
                let mut windows = self.get_shadow_windows();
                windows.remove(i);
                proof {
                    assert(windows.deep_view() =~= before.remove(i as int));
                    assert forall|j: int| 0 <= j < before.remove(i as int).len() implies before.remove(
                        i as int,
                    )[j] != label@ by {
                        if j < i {
                            assert(before.remove(i as int)[j] == before[j]);
                        } else {
                            assert(before.remove(i as int)[j] == before[j + 1]);
                        }
                    }
                }
                self.shadow_windows = windows;
            },
            None => {},
        }
    }

    /// The labels of the registered shadow windows.
    pub fn get_shadow_windows(&self) -> (r: Vec<String>)
        ensures
            r.deep_view() == self@.shadow_windows,
            r.deep_view().no_duplicates(),
            r.len() <= MAX_SHADOW_WINDOWS,
    {
        proof {
            use_type_invariant(self);
        }
        let r = self.shadow_windows.clone();
        proof {
            broadcast use vstd::std_specs::vec::vec_clone_deep_view_proof;
        }
        r
    }

    /// The number of registered shadow windows.
    pub fn shadow_window_count(&self) -> (r: usize)
        ensures
            r == self@.shadow_windows.len(),
            r <= MAX_SHADOW_WINDOWS,
    {
        proof {
            use_type_invariant(self);
        }
        self.shadow_windows.len()
    }

    /// The steps that apply an effect to every overlay window: first the main
    /// window, then each registered shadow window. The effect on one window
    /// does not depend on the others, so a window that is gone holds up none
    /// of them.
    pub fn broadcast(&self, effect: WindowEffect) -> (r: Vec<Step>)
        ensures
            step_views(r@) == fan_out(self@.shadow_windows, effect),
    {
        let mut steps: Vec<Step> = Vec::new();
        push_fan_out(&mut steps, &self.shadow_windows, effect);
        assert(step_views(steps@) =~= fan_out(self@.shadow_windows, effect));
        steps
    }

    /// Empties the registry.
    pub fn clear_shadow_windows(&mut self)
        ensures
            final(self)@.wf(),
            final(self)@ == (AppStateView { shadow_windows: Seq::empty(), ..old(self)@ }),
    {
        proof {
            use_type_invariant(&*self);
        }
        let windows: Vec<String> = Vec::new();
        assert(windows.deep_view() =~= Seq::<Seq<char>>::empty());
        self.shadow_windows = windows;
    }
}

/// What was found where the preferences are kept.
pub enum StoredPreferences {
    /// The store itself could not be opened or read.
    Unreadable,
    /// Nothing has been saved yet.
    Missing,
    /// Something is there that cannot be read as preferences.
    Malformed,
    /// Saved preferences.
    Saved(Preferences),
}

impl AppStateView {
    /// This state with other preferences.
    pub open spec fn with_preferences(self, preferences: PreferencesView) -> AppStateView {
        AppStateView { preferences, ..self }
    }

    /// This state with the lock flag flipped.
    pub open spec fn locked_toggled(self) -> AppStateView {
        self.with_preferences(
            PreferencesView { locked: !self.preferences.locked, ..self.preferences },
        )
    }

    /// This state with the visibility flag flipped.
    pub open spec fn visible_toggled(self) -> AppStateView {
        self.with_preferences(
            PreferencesView { visible: !self.preferences.visible, ..self.preferences },
        )
    }

    /// This state after a request to set the opacity: the value is limited
    /// to the range from 0 to 1 before it is stored.
    pub open spec fn opacity_set(self, opacity: u64) -> AppStateView {
        self.with_preferences(
            PreferencesView { opacity: clamped(opacity), ..self.preferences },
        )
    }

    /// This state after loading what was stored: saved preferences replace
    /// the current ones, with their opacity limited to the range from 0 to 1
    /// as on every write; anything else leaves the current ones as they are.
    pub open spec fn loaded(self, stored: StoredPreferences) -> AppStateView {
        match stored {
            StoredPreferences::Saved(p) => self.with_preferences(
                PreferencesView { opacity: clamped(p.opacity), ..p@ },
            ),
            _ => self,
        }
    }
}

impl AppState {
    /// Flips the lock flag and returns its new value.
    pub fn toggle_locked(&mut self) -> (r: bool)
        ensures
            final(self)@ == old(self)@.locked_toggled(),
            r == !old(self)@.preferences.locked,
    {
        proof {
            use_type_invariant(&*self);
        }
        self.preferences.locked = !self.preferences.locked;
        self.preferences.locked
    }

    /// Flips the visibility flag and returns its new value.
    pub fn toggle_visible(&mut self) -> (r: bool)
        ensures
            final(self)@ == old(self)@.visible_toggled(),
            r == !old(self)@.preferences.visible,
    {
        proof {
            use_type_invariant(&*self);
        }
        self.preferences.visible = !self.preferences.visible;
        self.preferences.visible
    }

    /// Stores an opacity, limited to the range from 0 to 1.
    pub fn set_opacity(&mut self, opacity: u64)
        ensures
            final(self)@ == old(self)@.opacity_set(opacity),
            in_unit_range(final(self)@.preferences.opacity),
    {
        proof {
            use_type_invariant(&*self);
        }
        self.preferences.opacity = clamp_opacity(opacity);
    }

    /// Puts the preferences back to their defaults. The registry is not
    /// touched.
    pub fn reset_preferences(&mut self)
        ensures
            final(self)@ == old(self)@.with_preferences(Preferences::default_view()),
    {
        proof {
            use_type_invariant(&*self);
        }
        self.preferences = Preferences::default();
    }

    /// Takes over what was found where the preferences are kept. Saved
    /// preferences replace the current ones as a whole, their opacity limited
    /// to the range from 0 to 1. Where the store could not be read, nothing
    /// was saved, or what was saved cannot be read as preferences, the
    /// current ones stay: no such failure is passed on.
    pub fn load_preferences(&mut self, stored: StoredPreferences)
        ensures
            final(self)@ == old(self)@.loaded(stored),
            in_unit_range(final(self)@.preferences.opacity),
    {
        proof {
            use_type_invariant(&*self);
        }
        match stored {
            StoredPreferences::Saved(p) => {
                let mut p = p;
                p.opacity = clamp_opacity(p.opacity);
                self.preferences = p;
            },
            _ => {},
        }
    }

    /// The current crosshair image.
    pub fn get_crosshair(&self) -> (r: String)
        ensures
            r@ == self@.preferences.crosshair,
    {
        self.preferences.crosshair.clone()
    }

    /// Sets the current crosshair image.
    pub fn set_crosshair(&mut self, crosshair: String)
        ensures
            final(self)@ == old(self)@.with_preferences(
                PreferencesView { crosshair: crosshair@, ..old(self)@.preferences },
            ),
    {
        proof {
            use_type_invariant(&*self);
        }
        self.preferences.crosshair = crosshair;
    }

    /// The current size.
    pub fn get_size(&self) -> (r: u32)
        ensures
            r == self@.preferences.size,
    {
        self.preferences.size
    }

    /// Sets the current size.
    pub fn set_size(&mut self, size: u32)
        ensures
            final(self)@ == old(self)@.with_preferences(
                PreferencesView { size: size, ..old(self)@.preferences },
            ),
    {
        proof {
            use_type_invariant(&*self);
        }
        self.preferences.size = size;
    }

    /// The current opacity, as a bit pattern: always a number from 0 to 1.
    pub fn get_opacity(&self) -> (r: u64)
        ensures
            r == self@.preferences.opacity,
            in_unit_range(r),
    {
        proof {
            use_type_invariant(self);
        }
        self.preferences.opacity
    }

    /// The current color.
    pub fn get_color(&self) -> (r: String)
        ensures
            r@ == self@.preferences.color,
    {
        self.preferences.color.clone()
    }

    /// Sets the current color.
    pub fn set_color(&mut self, color: String)
        ensures
            final(self)@ == old(self)@.with_preferences(
                PreferencesView { color: color@, ..old(self)@.preferences },
            ),
    {
        proof {
            use_type_invariant(&*self);
        }
        self.preferences.color = color;
    }

    /// Whether the overlay is locked.
    pub fn is_locked(&self) -> (r: bool)
        ensures
            r == self@.preferences.locked,
    {
        self.preferences.locked
    }

    /// Sets the lock flag.
    pub fn set_locked(&mut self, locked: bool)
        ensures
            final(self)@ == old(self)@.with_preferences(
                PreferencesView { locked: locked, ..old(self)@.preferences },
            ),
    {
        proof {
            use_type_invariant(&*self);
        }
        self.preferences.locked = locked;
    }

    /// Whether the overlay is visible.
    pub fn is_visible(&self) -> (r: bool)
        ensures
            r == self@.preferences.visible,
    {
        self.preferences.visible
    }

    /// Sets the visibility flag.
    pub fn set_visible(&mut self, visible: bool)
        ensures
            final(self)@ == old(self)@.with_preferences(
                PreferencesView { visible: visible, ..old(self)@.preferences },
            ),
    {
        proof {
            use_type_invariant(&*self);
        }
        self.preferences.visible = visible;
    }

    /// Whether the overlay follows the mouse.
    pub fn get_follow_mouse(&self) -> (r: bool)
        ensures
            r == self@.preferences.follow_mouse,
    {
        self.preferences.follow_mouse
    }

    /// Sets whether the overlay follows the mouse.
    pub fn set_follow_mouse(&mut self, follow: bool)
        ensures
            final(self)@ == old(self)@.with_preferences(
                PreferencesView { follow_mouse: follow, ..old(self)@.preferences },
            ),
    {
        proof {
            use_type_invariant(&*self);
        }
        self.preferences.follow_mouse = follow;
    }

    /// Whether the overlay hides while the right mouse button is held.
    pub fn get_hide_on_ads(&self) -> (r: bool)
        ensures
            r == self@.preferences.hide_on_ads,
    {
        self.preferences.hide_on_ads
    }

    /// Sets whether the overlay hides while the right mouse button is held.
    pub fn set_hide_on_ads(&mut self, hide: bool)
        ensures
            final(self)@ == old(self)@.with_preferences(
                PreferencesView { hide_on_ads: hide, ..old(self)@.preferences },
            ),
    {
        proof {
            use_type_invariant(&*self);
        }
        self.preferences.hide_on_ads = hide;
    }

    /// The kind of the reticle.
    pub fn get_reticle(&self) -> (r: String)
        ensures
            r@ == self@.preferences.reticle,
    {
        self.preferences.reticle.clone()
    }

    /// Sets the kind of the reticle.
    pub fn set_reticle(&mut self, reticle: String)
        ensures
            final(self)@ == old(self)@.with_preferences(
                PreferencesView { reticle: reticle@, ..old(self)@.preferences },
            ),
    {
        proof {
            use_type_invariant(&*self);
        }
        self.preferences.reticle = reticle;
    }

    /// The saved position.
    pub fn get_position(&self) -> (r: (Option<i32>, Option<i32>))
        ensures
            r.0 == self@.preferences.position_x,
            r.1 == self@.preferences.position_y,
    {
        (self.preferences.position_x, self.preferences.position_y)
    }

    /// Saves a position.
    pub fn set_position(&mut self, x: i32, y: i32)
        ensures
            final(self)@ == old(self)@.with_preferences(
                PreferencesView {
                    position_x: Some(x),
                    position_y: Some(y),
                    ..old(self)@.preferences
                },
            ),
    {
        proof {
            use_type_invariant(&*self);
        }
        self.preferences.position_x = Some(x);
        self.preferences.position_y = Some(y);
    }

    /// Whether mouse following is marked as active.
    pub fn is_mouse_following_active(&self) -> (r: bool)
        ensures
            r == self@.mouse_following_active,
    {
        self.mouse_following_active
    }

    /// Marks mouse following as active or not.
    pub fn set_mouse_following_active(&mut self, active: bool)
        ensures
            final(self)@ == (AppStateView { mouse_following_active: active, ..old(self)@ }),
    {
        proof {
            use_type_invariant(&*self);
        }
        self.mouse_following_active = active;
    }

    /// A copy of the current preferences.
    pub fn get_preferences(&self) -> (r: Preferences)
        ensures
            r@ == self@.preferences,
    {
        self.preferences.clone()
    }
}

/// Setting an opacity outside the range from 0 to 1 stores the nearer end of
/// the range, and setting one inside stores it unchanged; whatever is set,
/// the stored opacity is within the range.
pub proof fn lemma_set_opacity_clamps(s: AppStateView, opacity: u64)
    ensures
        crate::opacity::is_below_zero(opacity) ==> s.opacity_set(opacity).preferences.opacity
            == crate::opacity::FULLY_TRANSPARENT,
        crate::opacity::is_above_one(opacity) ==> s.opacity_set(opacity).preferences.opacity
            == crate::opacity::FULLY_OPAQUE,
        in_unit_range(opacity) ==> s.opacity_set(opacity).preferences.opacity == opacity,
        in_unit_range(s.opacity_set(opacity).preferences.opacity),
        s.wf() ==> s.opacity_set(opacity).wf(),
{
}

/// Toggling the lock twice gives back the state before.
pub proof fn lemma_toggle_locked_twice(s: AppStateView)
    ensures
        s.locked_toggled().locked_toggled() == s,
        s.locked_toggled().preferences.locked != s.preferences.locked,
{
}

/// Toggling the visibility twice gives back the state before.
pub proof fn lemma_toggle_visible_twice(s: AppStateView)
    ensures
        s.visible_toggled().visible_toggled() == s,
        s.visible_toggled().preferences.visible != s.preferences.visible,
{
}

/// Removing a label that is not registered leaves the registry as it is.
pub proof fn lemma_remove_absent(labels: Seq<Seq<char>>, label: Seq<char>)
    requires
        !labels.contains(label),
    ensures
        without_label(labels, label) == labels,
        without_label(labels, label).len() == labels.len(),
{
}

/// Loading the preferences that a state saved, into any other state, gives
/// that state the same preferences, field for field.
pub proof fn lemma_save_then_load(saved: AppStateView, fresh: AppStateView, written: Preferences)
    requires
        saved.wf(),
        written@ == saved.preferences,
    ensures
        fresh.loaded(StoredPreferences::Saved(written)).preferences == saved.preferences,
        fresh.loaded(StoredPreferences::Saved(written)).shadow_windows == fresh.shadow_windows,
{
}

/// Whatever is loaded, the opacity afterwards is a number from 0 to 1: a
/// saved record is written with its opacity limited to that range, and a
/// well-formed state stays well formed.
pub proof fn lemma_load_keeps_opacity_in_range(s: AppStateView, stored: StoredPreferences)
    requires
        s.wf(),
    ensures
        s.loaded(stored).wf(),
        in_unit_range(s.loaded(stored).preferences.opacity),
{
}

/// Loading where nothing readable was stored changes nothing, whether the
/// store could not be read, nothing was saved, or what was saved is no
/// preference record: a state with default preferences keeps them.
pub proof fn lemma_load_unreadable(s: AppStateView)
    ensures
        s.loaded(StoredPreferences::Unreadable) == s,
        s.loaded(StoredPreferences::Malformed) == s,
        s.loaded(StoredPreferences::Missing) == s,
{
}

/// A number written in decimal ends in the digit of its remainder by ten.
proof fn lemma_decimal_last(n: nat)
    ensures
        decimal_text(n).len() >= 1,
        decimal_text(n).last() == digit_char(n % 10),
        n >= 10 ==> decimal_text(n).len() >= 2 && decimal_text(n).drop_last() == decimal_text(
            n / 10,
        ),
        n < 10 ==> decimal_text(n).len() == 1,
    decreases n,
{
    if n >= 10 {
        lemma_decimal_last(n / 10);
        assert(decimal_text(n).drop_last() =~= decimal_text(n / 10));
    }
}

/// Two numbers that are written alike in decimal are the same number.
pub proof fn lemma_decimal_text_injective(a: nat, b: nat)
    requires
        decimal_text(a) == decimal_text(b),
    ensures
        a == b,
    decreases a,
{
    lemma_decimal_last(a);
    lemma_decimal_last(b);
    assert(digit_char(a % 10) == digit_char(b % 10));
    assert(a % 10 == b % 10);
    if a >= 10 {
        assert(b >= 10);
        lemma_decimal_text_injective(a / 10, b / 10);
    }
}

/// Shadow windows with different numbers have different labels: as the
/// numbers only ever go up, a label that was handed out once is never handed
/// out again, whether or not its window is still registered.
pub proof fn lemma_shadow_labels_differ(a: nat, b: nat)
    requires
        a != b,
    ensures
        shadow_label_text(a) != shadow_label_text(b),
{
    if shadow_label_text(a) == shadow_label_text(b) {
        let prefix = "shadow-"@;
        let ta = shadow_label_text(a);
        let tb = shadow_label_text(b);
        assert(ta.subrange(prefix.len() as int, ta.len() as int) =~= decimal_text(a));
        assert(tb.subrange(prefix.len() as int, tb.len() as int) =~= decimal_text(b));
        lemma_decimal_text_injective(a, b);
    }
}

} // verus!
