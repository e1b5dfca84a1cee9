//! The system tray: its icon, its menu and what a click on either does.

use vstd::prelude::*;
use crate::commands::{lock_steps, push_settings_steps, settings_steps};
use crate::effects::{
    push_fan_out,
    push_step,
    step_views,
    Notification,
    NotificationView,
    Step,
    StepView,
    WindowEffect,
    MAIN_WINDOW,
};
use crate::state::{AppState, AppStateView, Preferences, PreferencesView};
use crate::hotkeys::{handle_hide, state_after, steps_of, Action};
use crate::mouse::MouseButton;
use crate::text::same_text;

verus! {

/// Width and height of the generated tray icon in pixels.
pub const ICON_SIZE: u32 = 32;

/// A square image, four bytes for each pixel (red, green, blue, alpha), row
/// after row.
#[derive(Debug, Clone, PartialEq, Eq)]
pub struct IconImage {
    rgba: Vec<u8>,
    width: u32,
    height: u32,
}

/// Whether the pixel at `(x, y)` lies on the icon's cross: on the middle
/// column or the middle row, within the inner half of the icon.
pub open spec fn on_cross(x: int, y: int) -> bool {
    (x == 16 || y == 16) && 8 < x < 24 && 8 < y < 24
}

/// Whether the pixel at `(x, y)` lies on the icon's ring: at a distance of
/// 10 to 12 pixels from the middle.
pub open spec fn on_ring(x: int, y: int) -> bool {
    100 <= (x - 16) * (x - 16) + (y - 16) * (y - 16) <= 144
}

/// Whether the pixel at `(x, y)` is drawn: the cross always, the ring only on
/// the icon of the locked state.
pub open spec fn is_drawn(locked: bool, x: int, y: int) -> bool {
    on_cross(x, y) || (locked && on_ring(x, y))
}

/// The byte at index `i` of the generated icon. A drawn pixel is opaque,
/// reddish when locked and green when unlocked; every other pixel is
/// transparent black.
pub open spec fn icon_byte(locked: bool, i: int) -> u8 {
    let pixel = i / 4;
    let channel = i % 4;
    if !is_drawn(locked, pixel % 32, pixel / 32) {
        0u8
    } else if channel == 0 {
        if locked {
            255u8
        } else {
            100u8
        }
    } else if channel == 1 {
        if locked {
            100u8
        } else {
            255u8
        }
    } else if channel == 2 {
        100u8
    } else {
        255u8
    }
}

impl IconImage {
    /// The image's bytes.
    pub closed spec fn bytes(&self) -> Seq<u8> {
        self.rgba@
    }

    /// The image's bytes.
    pub fn rgba(&self) -> (r: &Vec<u8>)
        ensures
            r@ == self.bytes(),
    {
        &self.rgba
    }

    /// The image's width in pixels.
    pub closed spec fn spec_width(&self) -> u32 {
        self.width
    }

    /// The image's height in pixels.
    pub closed spec fn spec_height(&self) -> u32 {
        self.height
    }

    /// The image's width in pixels.
    pub fn width(&self) -> (r: u32)
        ensures
            r == self.spec_width(),
    {
        self.width
    }

    /// The image's height in pixels.
    pub fn height(&self) -> (r: u32)
        ensures
            r == self.spec_height(),
    {
        self.height
    }
}

/// Draws the tray icon that is used where no icon file is found: a cross,
/// green when unlocked, reddish and within a ring when locked.
pub fn generate_default_icon(locked: bool) -> (r: IconImage)
    ensures
        r.spec_width() == ICON_SIZE,
        r.spec_height() == ICON_SIZE,
        r.bytes().len() == 4 * ICON_SIZE * ICON_SIZE,
        forall|i: int| 0 <= i < r.bytes().len() ==> r.bytes()[i] == icon_byte(locked, i),
{
    let mut rgba: Vec<u8> = Vec::new();
    let red: u8 = if locked {
        255
    } else {
        100
    };
    let green: u8 = if locked {
        100
    } else {
        255
    };
    let mut p: u32 = 0;
    while p < 1024
        invariant
            p <= 1024,
            rgba@.len() == 4 * p,
            red == (if locked {
                255u8
            } else {
                100u8
            }),
            green == (if locked {
                100u8
            } else {
                255u8
            }),
            forall|i: int| 0 <= i < rgba@.len() ==> rgba@[i] == icon_byte(locked, i),
        decreases 1024 - p,
    {
        let x: u32 = p % 32;
        let y: u32 = p / 32;
        let is_cross = (x == 16 || y == 16) && x > 8 && x < 24 && y > 8 && y < 24;
        let dx: u32 = if x >= 16 {
            x - 16
        } else {
            16 - x
        };
        let dy: u32 = if y >= 16 {
            y - 16
        } else {
            16 - y
        };
        assert(dx * dx + dy * dy == (x - 16) * (x - 16) + (y - 16) * (y - 16)) by (nonlinear_arith)
            requires
                dx == (if x >= 16 {
                    x - 16
                } else {
                    16 - x
                }),
                dy == (if y >= 16 {
                    y - 16
                } else {
                    16 - y
                }),
        ;
        assert(dx * dx <= 256 && dy * dy <= 256) by (nonlinear_arith)
            requires
                dx <= 16,
                dy <= 16,
        ;
        let distance_squared: u32 = dx * dx + dy * dy;
        let is_circle = locked && distance_squared >= 100 && distance_squared <= 144;
        let ghost before = rgba@;
        if is_cross || is_circle {
            rgba.push(red);
            rgba.push(green);
            rgba.push(100);
            rgba.push(255);
        } else {
            rgba.push(0);
            rgba.push(0);
            rgba.push(0);
            rgba.push(0);
        }
        proof {
            assert(is_drawn(locked, x as int, y as int) == (is_cross || is_circle));
            assert forall|i: int| 0 <= i < rgba@.len() implies rgba@[i] == icon_byte(locked, i) by {
                if i < 4 * p {
                    assert(rgba@[i] == before[i]);
                } else {
                    assert(i / 4 == p as int);
                    assert(i % 4 == i - 4 * p);
                }
            }
        }
        p += 1;
    }
    IconImage { rgba, width: ICON_SIZE, height: ICON_SIZE }
}

/// Where the tray icon comes from.
#[derive(Debug, Clone, Copy, PartialEq, Eq, Structural)]
pub enum IconSource {
    /// The icon file for the locked state.
    LockedFile,
    /// The icon file for the unlocked state.
    PlainFile,
    /// No file: the icon is drawn.
    Generated,
}

impl IconSource {
    /// The name of the icon's file, if it comes from one.
    pub open spec fn file_name(self) -> Option<Seq<char>> {
        match self {
            IconSource::LockedFile => Some("icon-locked.png"@),
            IconSource::PlainFile => Some("icon.png"@),
            IconSource::Generated => None,
        }
    }

    /// The name of the icon's file, if it comes from one.
    pub fn as_file_name(&self) -> (r: Option<&'static str>)
        ensures
            r.is_some() == self.file_name().is_some(),
            r.is_some() ==> r.unwrap()@ == self.file_name().unwrap(),
    {
        match self {
            IconSource::LockedFile => Some("icon-locked.png"),
            IconSource::PlainFile => Some("icon.png"),
            IconSource::Generated => None,
        }
    }
}

/// Chooses the tray icon for a lock state, given which icon files exist:
/// the file for that state; for the locked state, failing that, the file for
/// the unlocked state; failing those, a drawn icon.
pub fn choose_tray_icon(locked: bool, locked_file_exists: bool, plain_file_exists: bool) -> (r:
    IconSource)
    ensures
        r == if locked && locked_file_exists {
            IconSource::LockedFile
        } else if plain_file_exists {
            IconSource::PlainFile
        } else {
            IconSource::Generated
        },
{
    if locked && locked_file_exists {
        IconSource::LockedFile
    } else if plain_file_exists {
        IconSource::PlainFile
    } else {
        IconSource::Generated
    }
}

/// An item of the tray menu.
#[derive(Debug, Clone, Copy, PartialEq, Eq, Structural)]
pub enum MenuItem {
    ToggleLock,
    Center,
    Hide,
    Settings,
    ChooseCrosshair,
    NextDisplay,
    Reset,
    About,
    Quit,
}

impl MenuItem {
    /// The identifier under which the item reports a click.
    pub open spec fn id(self) -> Seq<char> {
        match self {
            MenuItem::ToggleLock => "toggle_lock"@,
            MenuItem::Center => "center"@,
            MenuItem::Hide => "hide"@,
            MenuItem::Settings => "settings"@,
            MenuItem::ChooseCrosshair => "choose_crosshair"@,
            MenuItem::NextDisplay => "next_display"@,
            MenuItem::Reset => "reset"@,
            MenuItem::About => "about"@,
            MenuItem::Quit => "quit"@,
        }
    }

    /// The item of an identifier; none for a text that identifies no item.
    pub open spec fn of_id(id: Seq<char>) -> Option<MenuItem> {
        if id == "toggle_lock"@ {
            Some(MenuItem::ToggleLock)
        } else if id == "center"@ {
            Some(MenuItem::Center)
        } else if id == "hide"@ {
            Some(MenuItem::Hide)
        } else if id == "settings"@ {
            Some(MenuItem::Settings)
        } else if id == "choose_crosshair"@ {
            Some(MenuItem::ChooseCrosshair)
        } else if id == "next_display"@ {
            Some(MenuItem::NextDisplay)
        } else if id == "reset"@ {
            Some(MenuItem::Reset)
        } else if id == "about"@ {
            Some(MenuItem::About)
        } else if id == "quit"@ {
            Some(MenuItem::Quit)
        } else {
            None
        }
    }

    /// The text shown for the item.
    pub open spec fn title(self) -> Seq<char> {
        match self {
            MenuItem::ToggleLock => "Lock/Unlock"@,
            MenuItem::Center => "Center"@,
            MenuItem::Hide => "Hide/Show"@,
            MenuItem::Settings => "Settings..."@,
            MenuItem::ChooseCrosshair => "Choose Crosshair..."@,
            MenuItem::NextDisplay => "Move to Next Display"@,
            MenuItem::Reset => "Reset"@,
            MenuItem::About => "About CrossOver"@,
            MenuItem::Quit => "Quit"@,
        }
    }

    /// The identifier under which the item reports a click.
    pub fn as_id(&self) -> (r: &'static str)
        ensures
            r@ == self.id(),
    {
        match self {
            MenuItem::ToggleLock => "toggle_lock",
            MenuItem::Center => "center",
            MenuItem::Hide => "hide",
            MenuItem::Settings => "settings",
            MenuItem::ChooseCrosshair => "choose_crosshair",
            MenuItem::NextDisplay => "next_display",
            MenuItem::Reset => "reset",
            MenuItem::About => "about",
            MenuItem::Quit => "quit",
        }
    }

    /// The text shown for the item.
    pub fn as_title(&self) -> (r: &'static str)
        ensures
            r@ == self.title(),
    {
        match self {
            MenuItem::ToggleLock => "Lock/Unlock",
            MenuItem::Center => "Center",
            MenuItem::Hide => "Hide/Show",
            MenuItem::Settings => "Settings...",
            MenuItem::ChooseCrosshair => "Choose Crosshair...",
            MenuItem::NextDisplay => "Move to Next Display",
            MenuItem::Reset => "Reset",
            MenuItem::About => "About CrossOver",
            MenuItem::Quit => "Quit",
        }
    }

    /// Reads an item's identifier.
    pub fn from_id(id: &str) -> (r: Option<MenuItem>)
        ensures
            r == MenuItem::of_id(id@),
    {
        if same_text(id, "toggle_lock") {
            Some(MenuItem::ToggleLock)
        } else if same_text(id, "center") {
            Some(MenuItem::Center)
        } else if same_text(id, "hide") {
            Some(MenuItem::Hide)
        } else if same_text(id, "settings") {
            Some(MenuItem::Settings)
        } else if same_text(id, "choose_crosshair") {
            Some(MenuItem::ChooseCrosshair)
        } else if same_text(id, "next_display") {
            Some(MenuItem::NextDisplay)
        } else if same_text(id, "reset") {
            Some(MenuItem::Reset)
        } else if same_text(id, "about") {
            Some(MenuItem::About)
        } else if same_text(id, "quit") {
            Some(MenuItem::Quit)
        } else {
            None
        }
    }
}

/// The tray menu from top to bottom; `None` stands for a separator.
pub open spec fn menu_layout() -> Seq<Option<MenuItem>> {
    seq![
        Some(MenuItem::ToggleLock),
        Some(MenuItem::Center),
        Some(MenuItem::Hide),
        None,
        Some(MenuItem::Settings),
        Some(MenuItem::ChooseCrosshair),
        None,
        Some(MenuItem::NextDisplay),
        Some(MenuItem::Reset),
        None,
        Some(MenuItem::About),
        Some(MenuItem::Quit),
    ]
}

/// The tray menu from top to bottom; `None` stands for a separator.
pub fn create_tray_menu() -> (r: Vec<Option<MenuItem>>)
    ensures
        r@ == menu_layout(),
{
    let mut menu: Vec<Option<MenuItem>> = Vec::new();
    menu.push(Some(MenuItem::ToggleLock));
    menu.push(Some(MenuItem::Center));
    menu.push(Some(MenuItem::Hide));
    menu.push(None);
    menu.push(Some(MenuItem::Settings));
    menu.push(Some(MenuItem::ChooseCrosshair));
    menu.push(None);
    menu.push(Some(MenuItem::NextDisplay));
    menu.push(Some(MenuItem::Reset));
    menu.push(None);
    menu.push(Some(MenuItem::About));
    menu.push(Some(MenuItem::Quit));
    assert(menu@ =~= menu_layout());
    menu
}

/// The steps that bring the main window to the front: show it, then focus
/// it.
pub open spec fn raise_steps() -> Seq<StepView> {
    seq![StepView::Main(WindowEffect::Show), StepView::Main(WindowEffect::Focus)]
}

/// The steps that unlock the overlay for the crosshair chooser: the main
/// window takes pointer events again, and the user interface is told.
pub open spec fn unlock_steps() -> Seq<StepView> {
    seq![
        StepView::Main(WindowEffect::SetClickThrough(false)),
        StepView::Emit(NotificationView::LockChanged(false)),
    ]
}

/// The state after a click on a menu item.
///
/// `Lock/Unlock` flips the lock flag. `Hide/Show` does what the hide action
/// of the hotkeys does: it flips the visibility flag while the overlay is
/// locked and nothing while it is unlocked. `Reset` puts the preferences back
/// to their defaults, and the crosshair chooser unlocks the overlay. No
/// other item changes the state.
pub open spec fn state_after_menu(s: AppStateView, item: MenuItem) -> AppStateView {
    match item {
        MenuItem::ToggleLock => s.locked_toggled(),
        MenuItem::Hide => state_after(s, Action::Hide),
        MenuItem::Reset => s.with_preferences(Preferences::default_view()),
        MenuItem::ChooseCrosshair => s.with_preferences(
            PreferencesView { locked: false, ..s.preferences },
        ),
        _ => s,
    }
}

/// The steps of a click on a menu item, in the state `s` in which it
/// happens. `Hide/Show` shows or hides every overlay window while the
/// overlay is locked, and gives no step while it is unlocked.
pub open spec fn menu_steps(s: AppStateView, item: MenuItem) -> Seq<StepView> {
    match item {
        MenuItem::ToggleLock => lock_steps(s.shadow_windows, !s.preferences.locked),
        MenuItem::Center => seq![StepView::Center],
        MenuItem::Hide => steps_of(s, Action::Hide),
        MenuItem::Settings => seq![StepView::Emit(NotificationView::OpenSettings)],
        MenuItem::ChooseCrosshair => seq![StepView::Emit(NotificationView::OpenChooser)] + (if s.preferences.locked {
            unlock_steps()
        } else {
            Seq::empty()
        }) + raise_steps(),
        MenuItem::NextDisplay => seq![StepView::NextDisplay],
        MenuItem::Reset => settings_steps(Preferences::default_view()).push(StepView::Center),
        MenuItem::About => seq![StepView::Emit(NotificationView::ShowAbout)] + raise_steps(),
        MenuItem::Quit => seq![StepView::Save, StepView::Exit],
    }
}

/// Carries a click on a menu item out on the state and returns the steps for
/// the program.
pub fn handle_menu_item(state: &mut AppState, item: MenuItem) -> (r: Vec<Step>)
    ensures
        final(state)@ == state_after_menu(old(state)@, item),
        step_views(r@) == menu_steps(old(state)@, item),
{
    let mut steps: Vec<Step> = Vec::new();
    match item {
        MenuItem::ToggleLock => {
            let locked = state.toggle_locked();
            let labels = state.get_shadow_windows();
            push_fan_out(&mut steps, &labels, WindowEffect::SetClickThrough(locked));
            push_step(&mut steps, Step::Emit(Notification::LockChanged(locked)));
        },
        MenuItem::Center => {
            push_step(&mut steps, Step::Center);
        },
        MenuItem::Hide => {
            steps = handle_hide(state);
        },
        MenuItem::Settings => {
            push_step(&mut steps, Step::Emit(Notification::OpenSettings));
        },
        MenuItem::ChooseCrosshair => {
            push_step(&mut steps, Step::Emit(Notification::OpenChooser));
            if state.is_locked() {
                state.set_locked(false);
                push_step(&mut steps, Step::Main(WindowEffect::SetClickThrough(false)));
                push_step(&mut steps, Step::Emit(Notification::LockChanged(false)));
            } else {
                assert(state@ =~= state_after_menu(old(state)@, item));
            }
            push_step(&mut steps, Step::Main(WindowEffect::Show));
            push_step(&mut steps, Step::Main(WindowEffect::Focus));
        },
        MenuItem::NextDisplay => {
            push_step(&mut steps, Step::NextDisplay);
        },
        MenuItem::Reset => {
            state.reset_preferences();
            let p = state.get_preferences();
            push_settings_steps(&mut steps, &p);
            push_step(&mut steps, Step::Center);
        },
        MenuItem::About => {
            push_step(&mut steps, Step::Emit(Notification::ShowAbout));
            push_step(&mut steps, Step::Main(WindowEffect::Show));
            push_step(&mut steps, Step::Main(WindowEffect::Focus));
        },
        MenuItem::Quit => {
            push_step(&mut steps, Step::Save);
            push_step(&mut steps, Step::Exit);
        },
    }
    assert(step_views(steps@) =~= menu_steps(old(state)@, item));
    steps
}

/// Carries out a click on the menu item with the given identifier. An
/// identifier of no item changes nothing and gives no step.
pub fn handle_menu_event(state: &mut AppState, id: &str) -> (r: Vec<Step>)
    ensures
        match MenuItem::of_id(id@) {
            Some(item) => final(state)@ == state_after_menu(old(state)@, item) && step_views(r@)
                == menu_steps(old(state)@, item),
            None => final(state)@ == old(state)@ && r@.len() == 0,
        },
{
    match MenuItem::from_id(id) {
        Some(item) => handle_menu_item(state, item),
        None => Vec::new(),
    }
}

/// What happened to the tray icon.
#[derive(Debug, Clone, Copy, PartialEq, Eq, Structural)]
pub enum TrayEvent {
    /// A button went down on the icon.
    Pressed(MouseButton),
    /// A button came up on the icon.
    Released(MouseButton),
    /// The icon was double-clicked.
    DoubleClick(MouseButton),
    /// Anything else, such as the pointer passing over the icon.
    Other,
}

/// The state after an event on the tray icon: a double click with the left
/// button flips the lock flag, nothing else changes the state.
pub open spec fn state_after_tray(s: AppStateView, event: TrayEvent) -> AppStateView {
    match event {
        TrayEvent::DoubleClick(MouseButton::Left) => s.locked_toggled(),
        _ => s,
    }
}

/// The steps of an event on the tray icon. When the left button comes up the
/// main window is shown and focused. A double click with the left button
/// sets click-through on the main window and tells the user interface. None
/// of these steps holds up the next where it fails.
pub open spec fn tray_steps(s: AppStateView, event: TrayEvent) -> Seq<StepView> {
    match event {
        TrayEvent::Released(MouseButton::Left) => seq![
            StepView::Window { label: MAIN_WINDOW@, effect: WindowEffect::Show },
            StepView::Window { label: MAIN_WINDOW@, effect: WindowEffect::Focus },
        ],
        TrayEvent::DoubleClick(MouseButton::Left) => seq![
            StepView::Window {
                label: MAIN_WINDOW@,
                effect: WindowEffect::SetClickThrough(!s.preferences.locked),
            },
            StepView::EmitQuietly(NotificationView::LockChanged(!s.preferences.locked)),
        ],
        _ => Seq::empty(),
    }
}

/// Carries an event on the tray icon out on the state and returns the steps
/// for the program.
pub fn handle_tray_event(state: &mut AppState, event: TrayEvent) -> (r: Vec<Step>)
    ensures
        final(state)@ == state_after_tray(old(state)@, event),
        step_views(r@) == tray_steps(old(state)@, event),
{
    let mut steps: Vec<Step> = Vec::new();
    match event {
        TrayEvent::Released(MouseButton::Left) => {
            push_step(
                &mut steps,
                Step::Window { label: MAIN_WINDOW.to_owned(), effect: WindowEffect::Show },
            );
            push_step(
                &mut steps,
                Step::Window { label: MAIN_WINDOW.to_owned(), effect: WindowEffect::Focus },
            );
        },
        TrayEvent::DoubleClick(MouseButton::Left) => {
            let locked = state.toggle_locked();
            push_step(
                &mut steps,
                Step::Window {
                    label: MAIN_WINDOW.to_owned(),
                    effect: WindowEffect::SetClickThrough(locked),
                },
            );
            push_step(&mut steps, Step::EmitQuietly(Notification::LockChanged(locked)));
        },
        _ => {},
    }
    assert(step_views(steps@) =~= tray_steps(old(state)@, event));
    steps
}

/// `Hide/Show` does nothing while the overlay is unlocked: the state, and
/// with it the visibility flag, stays as it is, and no window is shown or
/// hidden.
pub proof fn lemma_menu_hide_needs_lock(s: AppStateView)
    requires
        !s.preferences.locked,
    ensures
        state_after_menu(s, MenuItem::Hide) == s,
        menu_steps(s, MenuItem::Hide) == Seq::<StepView>::empty(),
{
}

} // verus!
