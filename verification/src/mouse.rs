//! The mouse listener: when it runs, and what a mouse event does while it
//! runs.
//!
//! The listener is one background thread that receives every mouse event of
//! the system. This module holds its state and decides; starting the thread
//! and moving windows is left to the program.

use vstd::prelude::*;
use crate::effects::{fan_out, push_fan_out, push_step, step_views, Step, StepView, WindowEffect, MAIN_WINDOW};
use crate::state::{AppState, AppStateView};
use crate::window::{
    center_on_cursor,
    following_coordinate,
    is_coordinate,
    WindowPosition,
    WindowSize,
};

verus! {

/// A button of the mouse.
#[derive(Debug, Clone, Copy, PartialEq, Eq, Structural)]
pub enum MouseButton {
    Left,
    Right,
    Middle,
}

/// A mouse event as the listener delivers it.
#[derive(Debug, Clone, Copy, PartialEq, Eq, Structural)]
pub enum MouseEvent {
    /// The cursor moved to a position, in physical pixels.
    Move(WindowPosition),
    /// A button went down.
    Press(MouseButton),
    /// A button came up.
    Release(MouseButton),
    /// Any other event.
    Other,
}

/// The listener's state: whether its thread is running. At most one thread
/// runs at a time, because only a start that finds the flag cleared asks for
/// one.
#[derive(Debug)]
pub struct ListenerHandle {
    running: bool,
}

/// What the program has to do after the listener's state was brought up to
/// date.
#[derive(Debug, Clone, Copy, PartialEq, Eq, Structural)]
pub enum ListenerChange {
    /// Start the listener's thread.
    Spawn,
    /// Nothing: the flag was cleared, and the thread ends by itself with the
    /// next event or the next error of the hook. It must not be waited for.
    Released,
    /// Nothing: the listener is as it should be.
    Unchanged,
}

/// What a start does to a listener that is running or not: afterwards it is
/// running, and a thread has to be started exactly when it was not.
pub open spec fn after_start(running: bool) -> (bool, bool) {
    (true, !running)
}

impl ListenerHandle {
    /// Whether the listener's thread is running.
    pub closed spec fn running(&self) -> bool {
        self.running
    }

    /// A listener that is not running.
    pub fn new() -> (r: Self)
        ensures
            !r.running(),
    {
        ListenerHandle { running: false }
    }

    /// Whether the listener's thread is running.
    pub fn is_running(&self) -> (r: bool)
        ensures
            r == self.running(),
    {
        self.running
    }

    /// Marks the listener as running. Returns whether a thread has to be
    /// started: that is so exactly when the listener was not running.
    pub fn start(&mut self) -> (spawn: bool)
        ensures
            (final(self).running(), spawn) == after_start(old(self).running()),
    {
        if self.running {
            false
        } else {
            self.running = true;
            true
        }
    }

    /// Marks the listener as stopped. Returns whether it was running.
    pub fn stop(&mut self) -> (was_running: bool)
        ensures
            !final(self).running(),
            was_running == old(self).running(),
    {
        let was_running = self.running;
        self.running = false;
        was_running
    }

    /// Records that the thread ended because the hook failed: a later start
    /// asks for a new thread.
    pub fn thread_exited(&mut self)
        ensures
            !final(self).running(),
    {
        self.running = false;
    }
}

/// Starts following the mouse. Where the listener is running already,
/// nothing changes; else the listener and the state are marked as active.
/// Returns whether a thread has to be started.
pub fn start_following(listener: &mut ListenerHandle, state: &mut AppState) -> (spawn: bool)
    ensures
        (final(listener).running(), spawn) == after_start(old(listener).running()),
        final(state)@ == if spawn {
            AppStateView { mouse_following_active: true, ..old(state)@ }
        } else {
            old(state)@
        },
{
    if listener.is_running() {
        return false;
    }
    state.set_mouse_following_active(true);
    listener.start()
}

/// Stops following the mouse. Where the listener is not running, nothing
/// changes; else the listener and the state are marked as inactive. Returns
/// whether the listener was running.
pub fn stop_following(listener: &mut ListenerHandle, state: &mut AppState) -> (was_running: bool)
    ensures
        !final(listener).running(),
        was_running == old(listener).running(),
        final(state)@ == if was_running {
            AppStateView { mouse_following_active: false, ..old(state)@ }
        } else {
            old(state)@
        },
{
    if !listener.is_running() {
        return false;
    }
    state.set_mouse_following_active(false);
    listener.stop()
}

/// Whether the mouse listener is running.
pub fn is_following(listener: &ListenerHandle) -> (r: bool)
    ensures
        r == listener.running(),
{
    listener.is_running()
}

/// Whether the preferences ask for the listener: it is needed while the
/// overlay follows the mouse or hides while the right button is held.
pub open spec fn listener_wanted(s: AppStateView) -> bool {
    s.preferences.follow_mouse || s.preferences.hide_on_ads
}

/// Brings the listener in line with the preferences: started where one of
/// the two settings that need it is on, stopped where both are off.
pub fn update_mouse_listener_state(listener: &mut ListenerHandle, state: &mut AppState) -> (r:
    ListenerChange)
    ensures
        final(listener).running() == listener_wanted(old(state)@),
        r == if listener_wanted(old(state)@) {
            if old(listener).running() {
                ListenerChange::Unchanged
            } else {
                ListenerChange::Spawn
            }
        } else {
            if old(listener).running() {
                ListenerChange::Released
            } else {
                ListenerChange::Unchanged
            }
        },
        final(state)@ == if r == ListenerChange::Unchanged {
            old(state)@
        } else {
            AppStateView {
                mouse_following_active: listener_wanted(old(state)@),
                ..old(state)@
            }
        },
{
    if state.get_follow_mouse() || state.get_hide_on_ads() {
        if start_following(listener, state) {
            ListenerChange::Spawn
        } else {
            ListenerChange::Unchanged
        }
    } else {
        if stop_following(listener, state) {
            ListenerChange::Released
        } else {
            ListenerChange::Unchanged
        }
    }
}

/// A start asks for a thread only where the listener is not running, and
/// leaves it running: so a start on a running listener changes nothing, and
/// of two starts in a row the second asks for no thread.
pub proof fn lemma_start_is_idempotent(running: bool)
    ensures
        after_start(true) == (true, false),
        after_start(after_start(running).0) == (true, false),
{
}

/// The steps of a mouse event.
///
/// `running` says whether the listener is running: an event that arrives
/// after a stop is passed over. `size` is the main window's outer size,
/// where it could be read.
/// - When the cursor moves and the overlay follows the mouse, the main
///   window is moved so that its middle is at the cursor. Nothing happens
///   where the size is missing or the position cannot be held.
/// - When the right button goes down and hiding on aim is on, every overlay
///   window is hidden.
/// - When the right button comes up, hiding on aim is on and the overlay is
///   visible, every overlay window is shown again.
/// - Nothing happens otherwise.
pub open spec fn mouse_steps(
    s: AppStateView,
    running: bool,
    event: MouseEvent,
    size: Option<WindowSize>,
) -> Seq<StepView> {
    if !running {
        Seq::empty()
    } else {
        match event {
            MouseEvent::Move(cursor) => if s.preferences.follow_mouse && size.is_some()
                && follows(cursor, size.unwrap()) {
                seq![
                    StepView::Window {
                        label: MAIN_WINDOW@,
                        effect: WindowEffect::MoveTo(following_position(cursor, size.unwrap())),
                    },
                ]
            } else {
                Seq::empty()
            },
            MouseEvent::Press(MouseButton::Right) => if s.preferences.hide_on_ads {
                fan_out(s.shadow_windows, WindowEffect::Hide)
            } else {
                Seq::empty()
            },
            MouseEvent::Release(MouseButton::Right) => if s.preferences.hide_on_ads
                && s.preferences.visible {
                fan_out(s.shadow_windows, WindowEffect::Show)
            } else {
                Seq::empty()
            },
            _ => Seq::empty(),
        }
    }
}

/// Whether the position that centres a window of the given size on the
/// cursor can be held.
pub open spec fn follows(cursor: WindowPosition, size: WindowSize) -> bool {
    is_coordinate(following_coordinate(cursor.x as int, size.width as int)) && is_coordinate(
        following_coordinate(cursor.y as int, size.height as int),
    )
}

/// The position that centres a window of the given size on the cursor.
pub open spec fn following_position(cursor: WindowPosition, size: WindowSize) -> WindowPosition {
    WindowPosition {
        x: following_coordinate(cursor.x as int, size.width as int) as i32,
        y: following_coordinate(cursor.y as int, size.height as int) as i32,
    }
}

/// Decides what a mouse event does. The state is only read.
pub fn handle_mouse_event(
    listener: &ListenerHandle,
    state: &AppState,
    event: MouseEvent,
    size: Option<WindowSize>,
) -> (r: Vec<Step>)
    ensures
        step_views(r@) == mouse_steps(state@, listener.running(), event, size),
{
    let mut steps: Vec<Step> = Vec::new();
    if listener.is_running() {
        match event {
            MouseEvent::Move(cursor) => {
                if state.get_follow_mouse() {
                    match size {
                        Some(size) => {
                            match center_on_cursor(cursor, size) {
                                Ok(position) => {
                                    push_step(
                                        &mut steps,
                                        Step::Window {
                                            label: MAIN_WINDOW.to_owned(),
                                            effect: WindowEffect::MoveTo(position),
                                        },
                                    );
                                },
                                Err(_) => {},
                            }
                        },
                        None => {},
                    }
                }
            },
            MouseEvent::Press(MouseButton::Right) => {
                if state.get_hide_on_ads() {
                    let labels = state.get_shadow_windows();
                    push_fan_out(&mut steps, &labels, WindowEffect::Hide);
                }
            },
            MouseEvent::Release(MouseButton::Right) => {
                if state.get_hide_on_ads() && state.is_visible() {
                    let labels = state.get_shadow_windows();
                    push_fan_out(&mut steps, &labels, WindowEffect::Show);
                }
            },
            _ => {},
        }
    }
    assert(step_views(steps@) =~= mouse_steps(state@, listener.running(), event, size));
    steps
}

/// A point in time of the monotonic clock.
#[verifier::external_type_specification]
#[verifier::external_body]
pub struct ExInstant(std::time::Instant);

/// Reads the monotonic clock with `Instant::now`. Nothing is known of the
/// result.
#[verifier::external_body]
fn clock_now() -> (r: std::time::Instant) {
    std::time::Instant::now()
}

/// The time that has passed since `origin`, by `Instant::elapsed`. Nothing
/// is known of the result.
#[verifier::external_body]
fn clock_elapsed(origin: &std::time::Instant) -> (r: std::time::Duration) {
    origin.elapsed()
}

/// A span of time in nanoseconds, by `Duration::as_nanos`. Nothing is known
/// of the result.
#[verifier::external_body]
fn duration_nanos(span: &std::time::Duration) -> (r: u128) {
    span.as_nanos()
}

/// Nanoseconds in a millisecond.
pub const NANOS_PER_MILLI: u128 = 1_000_000;

/// Limits how often the position is updated while the mouse moves: an
/// update is due once a minimum interval has passed since the last one.
///
/// Times are counted in nanoseconds from the moment at which the value was
/// made.
pub struct DebouncedMouseFollower {
    origin: std::time::Instant,
    last_update: u128,
    min_interval: u128,
}

/// Whether an update is due at the time `now`, when the last one was at
/// `last_update`: the time between the two is at least `min_interval`. A
/// `now` before the last update counts as no time passed.
pub open spec fn update_due(last_update: nat, min_interval: nat, now: nat) -> bool {
    (if now >= last_update {
        now - last_update
    } else {
        0
    }) >= min_interval
}

impl DebouncedMouseFollower {
    /// The time of the last update.
    pub closed spec fn last_update(&self) -> nat {
        self.last_update as nat
    }

    /// The minimum interval between two updates.
    pub closed spec fn min_interval(&self) -> nat {
        self.min_interval as nat
    }

    /// A follower with the given minimum interval in milliseconds, whose
    /// last update counts as having happened now.
    pub fn new(min_interval_ms: u64) -> (r: Self)
        ensures
            r.last_update() == 0,
            r.min_interval() == min_interval_ms * NANOS_PER_MILLI,
    {
        DebouncedMouseFollower {
            origin: clock_now(),
            last_update: 0,
            min_interval: (min_interval_ms as u128) * NANOS_PER_MILLI,
        }
    }

    /// Decides whether an update is due at the time `now`, and if so takes
    /// `now` as the time of the last update.
    pub fn should_update_at(&mut self, now: u128) -> (r: bool)
        ensures
            r == update_due(old(self).last_update(), old(self).min_interval(), now as nat),
            final(self).min_interval() == old(self).min_interval(),
            final(self).last_update() == if r {
                now as nat
            } else {
                old(self).last_update()
            },
    {
        let passed: u128 = if now >= self.last_update {
            now - self.last_update
        } else {
            0
        };
        if passed >= self.min_interval {
            self.last_update = now;
            true
        } else {
            false
        }
    }

    /// Decides whether an update is due now. The clock decides which time
    /// that is; whatever it says, the decision is that of
    /// [`Self::should_update_at`] for that time.
    pub fn should_update(&mut self) -> (r: bool)
        ensures
            final(self).min_interval() == old(self).min_interval(),
            !r ==> final(self).last_update() == old(self).last_update(),
            r ==> update_due(
                old(self).last_update(),
                old(self).min_interval(),
                final(self).last_update(),
            ),
            old(self).min_interval() == 0 ==> r,
    {
        let span = clock_elapsed(&self.origin);
        let now = duration_nanos(&span);
        self.should_update_at(now)
    }
}

} // verus!
