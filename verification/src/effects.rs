//! What the library asks the surrounding program to do: effects on windows,
//! notifications to the user interface, and the steps of an action.
//!
//! A handler changes the state and returns the steps that carry the change
//! out, in order. The program performs them one after the other.

use vstd::prelude::*;
use crate::window::WindowPosition;

verus! {

/// Label of the main overlay window.
pub const MAIN_WINDOW: &'static str = "main";

/// An effect on one window.
#[derive(Debug, Clone, Copy, PartialEq, Eq, Structural)]
pub enum WindowEffect {
    /// Make the window visible.
    Show,
    /// Make the window invisible.
    Hide,
    /// Let pointer events pass through the window (`true`) or let the window
    /// take them (`false`). Visibility and stacking stay as they are.
    SetClickThrough(bool),
    /// Give the window the input focus.
    Focus,
    /// Move the window's top-left corner to a position.
    MoveTo(WindowPosition),
}

/// A sound played as feedback.
#[derive(Debug, Clone, Copy, PartialEq, Eq, Structural)]
pub enum Sound {
    Lock,
    Unlock,
    Center,
}

impl Sound {
    /// The sound's name.
    pub open spec fn name(self) -> Seq<char> {
        match self {
            Sound::Lock => "lock"@,
            Sound::Unlock => "unlock"@,
            Sound::Center => "center"@,
        }
    }

    /// The sound's name.
    pub fn as_str(&self) -> (r: &'static str)
        ensures
            r@ == self.name(),
    {
        match self {
            Sound::Lock => "lock",
            Sound::Unlock => "unlock",
            Sound::Center => "center",
        }
    }
}

/// A notification sent to the user interface.
#[derive(Debug, Clone, PartialEq, Eq)]
pub enum Notification {
    /// The crosshair image changed; carries the new file name.
    CrosshairChanged(String),
    /// The opacity changed; carries the new value as a bit pattern.
    OpacityChanged(u64),
    /// The size changed; carries the new size in pixels.
    SizeChanged(u32),
    /// The color changed; carries the new color.
    ColorChanged(String),
    /// The reticle changed; carries the new kind.
    ReticleChanged(String),
    /// The lock flag changed; carries the new value.
    LockChanged(bool),
    /// The visibility flag changed; carries the new value.
    VisibilityChanged(bool),
    /// A sound is to be played.
    PlaySound(Sound),
    /// The user asked for a new shadow window.
    CreateShadow,
    /// The settings window is to be opened.
    OpenSettings,
    /// The crosshair chooser is to be opened.
    OpenChooser,
    /// The about dialog is to be shown.
    ShowAbout,
}

/// A notification as plain values.
pub enum NotificationView {
    CrosshairChanged(Seq<char>),
    OpacityChanged(u64),
    SizeChanged(u32),
    ColorChanged(Seq<char>),
    ReticleChanged(Seq<char>),
    LockChanged(bool),
    VisibilityChanged(bool),
    PlaySound(Sound),
    CreateShadow,
    OpenSettings,
    OpenChooser,
    ShowAbout,
}

impl View for Notification {
    type V = NotificationView;

    open spec fn view(&self) -> NotificationView {
        match self {
            Notification::CrosshairChanged(s) => NotificationView::CrosshairChanged(s@),
            Notification::OpacityChanged(v) => NotificationView::OpacityChanged(*v),
            Notification::SizeChanged(v) => NotificationView::SizeChanged(*v),
            Notification::ColorChanged(s) => NotificationView::ColorChanged(s@),
            Notification::ReticleChanged(s) => NotificationView::ReticleChanged(s@),
            Notification::LockChanged(b) => NotificationView::LockChanged(*b),
            Notification::VisibilityChanged(b) => NotificationView::VisibilityChanged(*b),
            Notification::PlaySound(s) => NotificationView::PlaySound(*s),
            Notification::CreateShadow => NotificationView::CreateShadow,
            Notification::OpenSettings => NotificationView::OpenSettings,
            Notification::OpenChooser => NotificationView::OpenChooser,
            Notification::ShowAbout => NotificationView::ShowAbout,
        }
    }
}

impl NotificationView {
    /// The name under which the notification is sent.
    pub open spec fn event_name(self) -> Seq<char> {
        match self {
            NotificationView::CrosshairChanged(_) => "crosshair-changed"@,
            NotificationView::OpacityChanged(_) => "opacity-changed"@,
            NotificationView::SizeChanged(_) => "size-changed"@,
            NotificationView::ColorChanged(_) => "color-changed"@,
            NotificationView::ReticleChanged(_) => "reticle-changed"@,
            NotificationView::LockChanged(_) => "lock-changed"@,
            NotificationView::VisibilityChanged(_) => "visibility-changed"@,
            NotificationView::PlaySound(_) => "play-sound"@,
            NotificationView::CreateShadow => "create-shadow"@,
            NotificationView::OpenSettings => "open-settings"@,
            NotificationView::OpenChooser => "open-chooser"@,
            NotificationView::ShowAbout => "show-about"@,
        }
    }
}

impl Notification {
    /// The name under which the notification is sent.
    pub fn event_name(&self) -> (r: &'static str)
        ensures
            r@ == self@.event_name(),
    {
        match self {
            Notification::CrosshairChanged(_) => "crosshair-changed",
            Notification::OpacityChanged(_) => "opacity-changed",
            Notification::SizeChanged(_) => "size-changed",
            Notification::ColorChanged(_) => "color-changed",
            Notification::ReticleChanged(_) => "reticle-changed",
            Notification::LockChanged(_) => "lock-changed",
            Notification::VisibilityChanged(_) => "visibility-changed",
            Notification::PlaySound(_) => "play-sound",
            Notification::CreateShadow => "create-shadow",
            Notification::OpenSettings => "open-settings",
            Notification::OpenChooser => "open-chooser",
            Notification::ShowAbout => "show-about",
        }
    }
}

/// One step of an action, for the program to carry out.
#[derive(Debug, Clone, PartialEq, Eq)]
pub enum Step {
    /// Apply an effect to the window with this label. The window may be gone
    /// already: a miss or a failure is logged and the steps after it are
    /// still carried out.
    Window { label: String, effect: WindowEffect },
    /// Apply an effect to the main window, if it exists. Where that fails,
    /// the steps after it are dropped and the failure is reported.
    Main(WindowEffect),
    /// Centre the main window on the monitor that hosts it.
    Center,
    /// Move the main window to the next display.
    NextDisplay,
    /// Move the main window by an offset in pixels.
    MoveBy { dx: i32, dy: i32 },
    /// Send a notification. Where sending fails, the steps after it are
    /// dropped and the failure is reported.
    Emit(Notification),
    /// Send a notification without regard to whether it arrives.
    EmitQuietly(Notification),
    /// Write the preferences out. A failure is logged and the steps after it
    /// are still carried out.
    Save,
    /// End the program.
    Exit,
}

/// A step as plain values.
pub enum StepView {
    Window { label: Seq<char>, effect: WindowEffect },
    Main(WindowEffect),
    Center,
    NextDisplay,
    MoveBy { dx: i32, dy: i32 },
    Emit(NotificationView),
    EmitQuietly(NotificationView),
    Save,
    Exit,
}

impl View for Step {
    type V = StepView;

    open spec fn view(&self) -> StepView {
        match self {
            Step::Window { label, effect } => StepView::Window { label: label@, effect: *effect },
            Step::Main(effect) => StepView::Main(*effect),
            Step::Center => StepView::Center,
            Step::NextDisplay => StepView::NextDisplay,
            Step::MoveBy { dx, dy } => StepView::MoveBy { dx: *dx, dy: *dy },
            Step::Emit(n) => StepView::Emit(n@),
            Step::EmitQuietly(n) => StepView::EmitQuietly(n@),
            Step::Save => StepView::Save,
            Step::Exit => StepView::Exit,
        }
    }
}

impl StepView {
    /// Whether a failure of this step ends the action: the steps after it
    /// are then not carried out. That is so for moving the main window and
    /// for a notification that must arrive; an effect on one window, a quiet
    /// notification and saving never hold up what follows.
    pub open spec fn aborts_on_failure(self) -> bool {
        match self {
            StepView::Window { .. } => false,
            StepView::Main(_) => true,
            StepView::Center => true,
            StepView::NextDisplay => true,
            StepView::MoveBy { .. } => true,
            StepView::Emit(_) => true,
            StepView::EmitQuietly(_) => false,
            StepView::Save => false,
            StepView::Exit => false,
        }
    }
}

impl Step {
    /// Whether a failure of this step ends the action.
    pub fn aborts_on_failure(&self) -> (r: bool)
        ensures
            r == self@.aborts_on_failure(),
    {
        match self {
            Step::Window { .. } => false,
            Step::Main(_) => true,
            Step::Center => true,
            Step::NextDisplay => true,
            Step::MoveBy { .. } => true,
            Step::Emit(_) => true,
            Step::EmitQuietly(_) => false,
            Step::Save => false,
            Step::Exit => false,
        }
    }
}

/// The steps as plain values.
pub open spec fn step_views(steps: Seq<Step>) -> Seq<StepView> {
    Seq::new(steps.len(), |i: int| steps[i]@)
}

/// The steps that apply `effect` to the main window and then to each of the
/// windows labelled `labels`, in their order.
pub open spec fn fan_out(labels: Seq<Seq<char>>, effect: WindowEffect) -> Seq<StepView> {
    Seq::new(
        labels.len() + 1,
        |i: int|
            StepView::Window {
                label: if i == 0 {
                    MAIN_WINDOW@
                } else {
                    labels[i - 1]
                },
                effect,
            },
    )
}

/// Adds one step at the end.
pub fn push_step(steps: &mut Vec<Step>, step: Step)
    ensures
        step_views(final(steps)@) == step_views(old(steps)@).push(step@),
{
    steps.push(step);
    assert(step_views(steps@) =~= step_views(old(steps)@).push(step@));
}

/// Adds, at the end, the steps that apply `effect` to the main window and
/// then to each of the windows labelled `labels`.
pub fn push_fan_out(steps: &mut Vec<Step>, labels: &Vec<String>, effect: WindowEffect)
    ensures
        step_views(final(steps)@) == step_views(old(steps)@) + fan_out(labels.deep_view(), effect),
{
    let ghost before = step_views(steps@);
    push_step(steps, Step::Window { label: MAIN_WINDOW.to_owned(), effect });
    let mut i: usize = 0;
    while i < labels.len()
        invariant
            i <= labels.len(),
            step_views(steps@).len() == before.len() + 1 + i,
            forall|j: int| 0 <= j < before.len() ==> step_views(steps@)[j] == before[j],
            forall|j: int|
                0 <= j < 1 + i ==> step_views(steps@)[before.len() + j] == fan_out(
                    labels.deep_view(),
                    effect,
                )[j],
        decreases labels.len() - i,
    {
        push_step(steps, Step::Window { label: labels[i].clone(), effect });
        i += 1;
    }
    assert(step_views(steps@) =~= before + fan_out(labels.deep_view(), effect));
}

} // verus!
