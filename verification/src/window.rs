//! Placement of the overlay window: centring on a monitor, cycling through
//! the monitors, nudging by an offset and following the cursor.
//!
//! The functions take what the windowing system reported (monitors, sizes,
//! positions) as plain values and return the position to apply.

use vstd::prelude::*;
use crate::text::same_text;

verus! {

/// Outer size of a window or of a monitor, in physical pixels.
#[derive(Debug, Clone, Copy, PartialEq, Eq, Structural)]
pub struct WindowSize {
    pub width: u32,
    pub height: u32,
}

/// Position of a window's or a monitor's top-left corner, in physical pixels.
#[derive(Debug, Clone, Copy, PartialEq, Eq, Structural)]
pub struct WindowPosition {
    pub x: i32,
    pub y: i32,
}

/// Where a window is and how large.
#[derive(Debug, Clone, Copy, PartialEq, Eq, Structural)]
pub struct WindowFrame {
    pub position: WindowPosition,
    pub size: WindowSize,
}

/// What the windowing system reports of one monitor.
#[derive(Debug, Clone)]
pub struct MonitorInfo {
    /// The monitor's name, where the system gives one.
    pub name: Option<String>,
    pub position: WindowPosition,
    pub size: WindowSize,
}

/// Why a window could not be placed.
#[derive(Debug, Clone, Copy, PartialEq, Eq, Structural)]
pub enum WindowError {
    /// The system lists no monitor at all.
    NoMonitors,
    /// The system does not say which monitor hosts the window.
    NoCurrentMonitor,
    /// The position asked for has a coordinate outside the 32-bit range.
    OutOfRange,
}

/// Half of `d`, rounded toward zero.
pub open spec fn half(d: int) -> int {
    if d >= 0 {
        d / 2
    } else {
        -((-d) / 2)
    }
}

/// The coordinate that centres an extent of `inner` pixels within one of
/// `outer` pixels starting at `origin`.
pub open spec fn centered_coordinate(origin: int, outer: int, inner: int) -> int {
    origin + half(outer - inner)
}

/// Whether `v` is a coordinate that a window position can hold.
pub open spec fn is_coordinate(v: int) -> bool {
    i32::MIN <= v <= i32::MAX
}

impl MonitorInfo {
    /// The monitor's name as text.
    pub open spec fn name_text(self) -> Option<Seq<char>> {
        match self.name {
            Some(n) => Some(n@),
            None => None,
        }
    }

    /// The x coordinate that centres a window of the given size here.
    pub open spec fn centered_x(self, size: WindowSize) -> int {
        centered_coordinate(self.position.x as int, self.size.width as int, size.width as int)
    }

    /// The y coordinate that centres a window of the given size here.
    pub open spec fn centered_y(self, size: WindowSize) -> int {
        centered_coordinate(self.position.y as int, self.size.height as int, size.height as int)
    }

    /// Whether this monitor and `other` carry the same name; two monitors
    /// without a name count as the same.
    pub fn same_name(&self, other: &MonitorInfo) -> (r: bool)
        ensures
            r == (self.name_text() == other.name_text()),
    {
        match (&self.name, &other.name) {
            (Some(a), Some(b)) => same_text(a.as_str(), b.as_str()),
            (None, None) => true,
            _ => false,
        }
    }
}

/// Centres one extent within another.
fn center_axis(origin: i32, outer: u32, inner: u32) -> (r: Option<i32>)
    ensures
        r.is_some() == is_coordinate(centered_coordinate(origin as int, outer as int, inner as int)),
        r.is_some() ==> r.unwrap() as int == centered_coordinate(
            origin as int,
            outer as int,
            inner as int,
        ),
{
    let d: i64 = outer as i64 - inner as i64;
    let v: i64 = origin as i64 + d / 2;
    if v < i32::MIN as i64 || v > i32::MAX as i64 {
        None
    } else {
        Some(v as i32)
    }
}

/// The position that centres a window of the given size on a monitor.
///
/// The offset on each axis is half the difference of the two extents, rounded
/// toward zero; it is negative where the window is larger than the monitor.
pub fn center_on_monitor(monitor: &MonitorInfo, size: WindowSize) -> (r: Result<
    WindowPosition,
    WindowError,
>)
    ensures
        r.is_ok() == (is_coordinate(monitor.centered_x(size)) && is_coordinate(
            monitor.centered_y(size),
        )),
        r.is_ok() ==> r.unwrap().x as int == monitor.centered_x(size) && r.unwrap().y as int
            == monitor.centered_y(size),
        r.is_err() ==> r.unwrap_err() == WindowError::OutOfRange,
{
    let x = center_axis(monitor.position.x, monitor.size.width, size.width);
    let y = center_axis(monitor.position.y, monitor.size.height, size.height);
    match (x, y) {
        (Some(x), Some(y)) => Ok(WindowPosition { x, y }),
        _ => Err(WindowError::OutOfRange),
    }
}

/// Index of the first monitor at or after `from` that carries the name
/// `name`; the number of monitors where there is none.
pub open spec fn first_named(monitors: Seq<MonitorInfo>, name: Option<Seq<char>>, from: int) -> int
    decreases monitors.len() - from,
{
    if from < 0 || from >= monitors.len() {
        monitors.len() as int
    } else if monitors[from].name_text() == name {
        from
    } else {
        first_named(monitors, name, from + 1)
    }
}

/// Index of the monitor taken to host a window whose current monitor is
/// called `name`: the first one of that name, and the first monitor of all
/// where none has it.
pub open spec fn hosting_index(monitors: Seq<MonitorInfo>, name: Option<Seq<char>>) -> int {
    let i = first_named(monitors, name, 0);
    if i < monitors.len() {
        i
    } else {
        0
    }
}

/// Index of the monitor that follows the hosting one, wrapping from the last
/// to the first.
pub open spec fn next_index(monitors: Seq<MonitorInfo>, name: Option<Seq<char>>) -> int
    recommends
        monitors.len() > 0,
{
    (hosting_index(monitors, name) + 1) % (monitors.len() as int)
}

/// Whether no two monitors carry the same name.
pub open spec fn distinct_names(monitors: Seq<MonitorInfo>) -> bool {
    forall|i: int, j: int|
        0 <= i < j < monitors.len() ==> #[trigger] monitors[i].name_text()
            != #[trigger] monitors[j].name_text()
}

/// Index of the monitor that hosts the window after `moves` moves to the next
/// display, starting on the monitor at `start`.
pub open spec fn after_moves(monitors: Seq<MonitorInfo>, start: int, moves: nat) -> int
    decreases moves,
{
    if moves == 0 {
        start
    } else {
        after_moves(monitors, next_index(monitors, monitors[start].name_text()), (moves - 1) as nat)
    }
}

/// A move to the next display: the monitor chosen and the window's new
/// position, centred on it.
#[derive(Debug, Clone, Copy, PartialEq, Eq, Structural)]
pub struct DisplayMove {
    /// Index of the chosen monitor in the list that was given.
    pub monitor: usize,
    pub position: WindowPosition,
}

/// Finds the monitor that hosts the window among those listed.
pub fn current_monitor_index(monitors: &Vec<MonitorInfo>, current: &MonitorInfo) -> (r: usize)
    ensures
        r as int == hosting_index(monitors@, current.name_text()),
        monitors.len() > 0 ==> r < monitors.len(),
{
    let mut i: usize = 0;
    while i < monitors.len()
        invariant
            i <= monitors.len(),
            first_named(monitors@, current.name_text(), 0) == first_named(
                monitors@,
                current.name_text(),
                i as int,
            ),
        decreases monitors.len() - i,
    {
        if monitors[i].same_name(current) {
            return i;
        }
        i += 1;
    }
    0
}

/// Fails where no monitor is listed.
pub fn require_monitors(monitors: &Vec<MonitorInfo>) -> (r: Result<(), WindowError>)
    ensures
        r.is_ok() == (monitors.len() > 0),
        r.is_err() ==> r.unwrap_err() == WindowError::NoMonitors,
{
    if monitors.len() == 0 {
        Err(WindowError::NoMonitors)
    } else {
        Ok(())
    }
}

/// Chooses the monitor after the one that hosts the window, wrapping to the
/// first after the last, and centres the window on it.
///
/// `monitors` is every monitor the system lists, `current` the one it reports
/// as hosting the window, `size` the window's outer size. The call fails with
/// `NoMonitors` on an empty list, else with `NoCurrentMonitor` where `current`
/// is absent, else with `OutOfRange` where the centred position cannot be
/// held; in every other case it succeeds.
pub fn move_to_next_display(
    monitors: &Vec<MonitorInfo>,
    current: Option<&MonitorInfo>,
    size: WindowSize,
) -> (r: Result<DisplayMove, WindowError>)
    ensures
        match r {
            Ok(m) => {
                &&& monitors.len() > 0
                &&& current.is_some()
                &&& m.monitor as int == next_index(monitors@, current.unwrap().name_text())
                &&& m.monitor < monitors.len()
                &&& m.position.x as int == monitors[m.monitor as int].centered_x(size)
                &&& m.position.y as int == monitors[m.monitor as int].centered_y(size)
            },
            Err(WindowError::NoMonitors) => monitors.len() == 0,
            Err(WindowError::NoCurrentMonitor) => monitors.len() > 0 && current.is_none(),
            Err(WindowError::OutOfRange) => {
                &&& monitors.len() > 0
                &&& current.is_some()
                &&& {
                    let next = monitors[next_index(monitors@, current.unwrap().name_text())];
                    !(is_coordinate(next.centered_x(size)) && is_coordinate(next.centered_y(size)))
                }
            },
        },
{
    if monitors.len() == 0 {
        return Err(WindowError::NoMonitors);
    }
    let current = match current {
        Some(c) => c,
        None => {
            return Err(WindowError::NoCurrentMonitor);
        },
    };
    let index = current_monitor_index(monitors, current);
    let next = (index + 1) % monitors.len();
    match center_on_monitor(&monitors[next], size) {
        Ok(position) => Ok(DisplayMove { monitor: next, position }),
        Err(e) => Err(e),
    }
}

/// With distinct names, the monitor found for the name of the monitor at `i`
/// is that monitor.
pub proof fn lemma_hosting_index_of_member(monitors: Seq<MonitorInfo>, i: int)
    requires
        distinct_names(monitors),
        0 <= i < monitors.len(),
    ensures
        hosting_index(monitors, monitors[i].name_text()) == i,
{
    lemma_first_named_finds(monitors, i, 0);
}

proof fn lemma_first_named_finds(monitors: Seq<MonitorInfo>, i: int, from: int)
    requires
        distinct_names(monitors),
        0 <= from <= i < monitors.len(),
    ensures
        first_named(monitors, monitors[i].name_text(), from) == i,
    decreases i - from,
{
    if from < i {
        assert(monitors[from].name_text() != monitors[i].name_text());
        lemma_first_named_finds(monitors, i, from + 1);
    }
}

/// Where the monitors' names are distinct, `moves` moves to the next display
/// from the monitor at `start` end on the monitor `moves` places further,
/// counted cyclically.
pub proof fn lemma_after_moves(monitors: Seq<MonitorInfo>, start: int, moves: nat)
    requires
        distinct_names(monitors),
        0 <= start < monitors.len(),
    ensures
        after_moves(monitors, start, moves) == (start + moves) % (monitors.len() as int),
    decreases moves,
{
    let n = monitors.len() as int;
    if moves == 0 {
        assert(start % n == start) by (nonlinear_arith)
            requires
                0 <= start < n,
        ;
    } else {
        lemma_hosting_index_of_member(monitors, start);
        let next = (start + 1) % n;
        assert(0 <= next < n) by (nonlinear_arith)
            requires
                next == (start + 1) % n,
                n > 0,
        ;
        lemma_after_moves(monitors, next, (moves - 1) as nat);
        assert((next + (moves - 1)) % n == (start + moves) % n) by {
            vstd::arithmetic::div_mod::lemma_add_mod_noop(start + 1, moves - 1, n);
            vstd::arithmetic::div_mod::lemma_mod_twice(start + 1, n);
            vstd::arithmetic::div_mod::lemma_add_mod_noop(next, moves - 1, n);
        }
    }
}

/// Moving to the next display once for every monitor brings the window back
/// to the monitor it started on, provided the monitors' names are distinct
/// (the hosting monitor is found by its name).
pub proof fn lemma_display_cycle_returns(monitors: Seq<MonitorInfo>, start: int)
    requires
        distinct_names(monitors),
        0 <= start < monitors.len(),
    ensures
        after_moves(monitors, start, monitors.len()) == start,
{
    let n = monitors.len() as int;
    lemma_after_moves(monitors, start, monitors.len());
    assert((start + n) % n == start) by {
        vstd::arithmetic::div_mod::lemma_mod_add_multiples_vanish(start, n);
        vstd::arithmetic::div_mod::lemma_small_mod(start as nat, n as nat);
    }
}

/// Adds an offset to one coordinate.
fn shift_axis(v: i32, d: i32) -> (r: Option<i32>)
    ensures
        r.is_some() == is_coordinate(v + d),
        r.is_some() ==> r.unwrap() as int == v + d,
{
    let w: i64 = v as i64 + d as i64;
    if w < i32::MIN as i64 || w > i32::MAX as i64 {
        None
    } else {
        Some(w as i32)
    }
}

/// The position `dx` pixels to the right of and `dy` pixels below `position`.
///
/// Fails with `OutOfRange`, and only then, where a coordinate of the result
/// cannot be held.
pub fn move_window_by(position: WindowPosition, dx: i32, dy: i32) -> (r: Result<
    WindowPosition,
    WindowError,
>)
    ensures
        r.is_ok() == (is_coordinate(position.x + dx) && is_coordinate(position.y + dy)),
        r.is_ok() ==> r.unwrap().x as int == position.x + dx && r.unwrap().y as int == position.y
            + dy,
        r.is_err() ==> r.unwrap_err() == WindowError::OutOfRange,
{
    match (shift_axis(position.x, dx), shift_axis(position.y, dy)) {
        (Some(x), Some(y)) => Ok(WindowPosition { x, y }),
        _ => Err(WindowError::OutOfRange),
    }
}

/// The position that centres a window on its current monitor.
///
/// Fails with `NoCurrentMonitor` where the system names none, else with
/// `OutOfRange` where the centred position cannot be held.
pub fn center_on_current_monitor(current: Option<&MonitorInfo>, size: WindowSize) -> (r: Result<
    WindowPosition,
    WindowError,
>)
    ensures
        match r {
            Ok(p) => {
                &&& current.is_some()
                &&& p.x as int == current.unwrap().centered_x(size)
                &&& p.y as int == current.unwrap().centered_y(size)
            },
            Err(WindowError::NoCurrentMonitor) => current.is_none(),
            Err(WindowError::OutOfRange) => current.is_some() && !(is_coordinate(
                current.unwrap().centered_x(size),
            ) && is_coordinate(current.unwrap().centered_y(size))),
            Err(WindowError::NoMonitors) => false,
        },
{
    match current {
        Some(monitor) => center_on_monitor(monitor, size),
        None => Err(WindowError::NoCurrentMonitor),
    }
}

/// The coordinate that puts the middle of an extent of `extent` pixels at
/// `cursor`: the cursor's coordinate less half the extent, rounded down.
pub open spec fn following_coordinate(cursor: int, extent: int) -> int {
    cursor - extent / 2
}

/// Puts the middle of one extent at a cursor coordinate.
fn follow_axis(cursor: i32, extent: u32) -> (r: Option<i32>)
    ensures
        r.is_some() == is_coordinate(following_coordinate(cursor as int, extent as int)),
        r.is_some() ==> r.unwrap() as int == following_coordinate(cursor as int, extent as int),
{
    let v: i64 = cursor as i64 - (extent / 2) as i64;
    if v < i32::MIN as i64 {
        None
    } else {
        Some(v as i32)
    }
}

/// The position at which a window of the given size is centred on the cursor.
///
/// Fails with `OutOfRange`, and only then, where a coordinate of the result
/// cannot be held.
pub fn center_on_cursor(cursor: WindowPosition, size: WindowSize) -> (r: Result<
    WindowPosition,
    WindowError,
>)
    ensures
        r.is_ok() == (is_coordinate(following_coordinate(cursor.x as int, size.width as int))
            && is_coordinate(following_coordinate(cursor.y as int, size.height as int))),
        r.is_ok() ==> r.unwrap().x as int == following_coordinate(
            cursor.x as int,
            size.width as int,
        ) && r.unwrap().y as int == following_coordinate(cursor.y as int, size.height as int),
        r.is_err() ==> r.unwrap_err() == WindowError::OutOfRange,
{
    match (follow_axis(cursor.x, size.width), follow_axis(cursor.y, size.height)) {
        (Some(x), Some(y)) => Ok(WindowPosition { x, y }),
        _ => Err(WindowError::OutOfRange),
    }
}

impl WindowError {
    /// The message shown for the error.
    pub open spec fn text(self) -> Seq<char> {
        match self {
            WindowError::NoMonitors => "No monitors found"@,
            WindowError::NoCurrentMonitor => "No current monitor"@,
            WindowError::OutOfRange => "Window position out of range"@,
        }
    }

    /// The message shown for the error.
    pub fn message(&self) -> (r: &'static str)
        ensures
            r@ == self.text(),
    {
        match self {
            WindowError::NoMonitors => "No monitors found",
            WindowError::NoCurrentMonitor => "No current monitor",
            WindowError::OutOfRange => "Window position out of range",
        }
    }
}

} // verus!
