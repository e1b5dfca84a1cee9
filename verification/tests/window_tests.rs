use crossover::window::{
    center_on_current_monitor, center_on_cursor, center_on_monitor, current_monitor_index,
    move_to_next_display, move_window_by, require_monitors, DisplayMove, MonitorInfo, WindowError,
    WindowPosition, WindowSize,
};

fn monitor(name: Option<&str>, x: i32, y: i32, width: u32, height: u32) -> MonitorInfo {
    MonitorInfo {
        name: name.map(|n| n.to_string()),
        position: WindowPosition { x, y },
        size: WindowSize { width, height },
    }
}

fn three_monitors() -> Vec<MonitorInfo> {
    vec![
        monitor(Some("left"), -1920, 0, 1920, 1080),
        monitor(Some("middle"), 0, 0, 2560, 1440),
        monitor(Some("right"), 2560, 100, 1280, 1024),
    ]
}

const WINDOW: WindowSize = WindowSize { width: 200, height: 200 };

#[test]
fn center_on_monitor_is_the_middle() {
    let m = monitor(Some("m"), 0, 0, 1920, 1080);
    assert_eq!(center_on_monitor(&m, WINDOW), Ok(WindowPosition { x: 860, y: 440 }));
    let m = monitor(Some("m"), -1920, 300, 1920, 1080);
    assert_eq!(center_on_monitor(&m, WINDOW), Ok(WindowPosition { x: -1060, y: 740 }));
}

#[test]
fn center_on_monitor_rounds_toward_zero() {
    let m = monitor(None, 10, 10, 101, 100);
    let size = WindowSize { width: 100, height: 101 };
    assert_eq!(center_on_monitor(&m, size), Ok(WindowPosition { x: 10, y: 10 }));
    let size = WindowSize { width: 104, height: 103 };
    assert_eq!(center_on_monitor(&m, size), Ok(WindowPosition { x: 9, y: 9 }));
}

#[test]
fn center_on_monitor_with_a_window_larger_than_the_monitor() {
    let m = monitor(None, 0, 0, 100, 100);
    let size = WindowSize { width: 300, height: 200 };
    assert_eq!(center_on_monitor(&m, size), Ok(WindowPosition { x: -100, y: -50 }));
}

#[test]
fn center_on_monitor_out_of_range() {
    let m = monitor(None, i32::MAX, 0, u32::MAX, 100);
    assert_eq!(center_on_monitor(&m, WindowSize { width: 0, height: 0 }), Err(WindowError::OutOfRange));
    let m = monitor(None, 0, i32::MIN, 100, 0);
    assert_eq!(
        center_on_monitor(&m, WindowSize { width: 0, height: u32::MAX }),
        Err(WindowError::OutOfRange)
    );
    let m = monitor(None, i32::MAX - 5, i32::MIN, 10, 0);
    assert_eq!(
        center_on_monitor(&m, WindowSize { width: 0, height: 0 }),
        Ok(WindowPosition { x: i32::MAX, y: i32::MIN })
    );
}

#[test]
fn move_to_next_display_goes_to_the_following_monitor() {
    let monitors = three_monitors();
    let r = move_to_next_display(&monitors, Some(&monitors[0]), WINDOW);
    assert_eq!(r, Ok(DisplayMove { monitor: 1, position: WindowPosition { x: 1180, y: 620 } }));
    let r = move_to_next_display(&monitors, Some(&monitors[1]), WINDOW);
    assert_eq!(r, Ok(DisplayMove { monitor: 2, position: WindowPosition { x: 3100, y: 512 } }));
}

#[test]
fn move_to_next_display_wraps_to_the_first() {
    let monitors = three_monitors();
    let r = move_to_next_display(&monitors, Some(&monitors[2]), WINDOW);
    assert_eq!(r, Ok(DisplayMove { monitor: 0, position: WindowPosition { x: -1060, y: 440 } }));
}

#[test]
fn move_to_next_display_n_times_returns_to_the_start() {
    let monitors = three_monitors();
    for start in 0..monitors.len() {
        let mut current = start;
        for _ in 0..monitors.len() {
            current = move_to_next_display(&monitors, Some(&monitors[current]), WINDOW)
                .unwrap()
                .monitor;
        }
        assert_eq!(current, start);
    }
}

#[test]
fn move_to_next_display_with_one_monitor_stays() {
    let monitors = vec![monitor(Some("only"), 0, 0, 800, 600)];
    let r = move_to_next_display(&monitors, Some(&monitors[0]), WINDOW);
    assert_eq!(r, Ok(DisplayMove { monitor: 0, position: WindowPosition { x: 300, y: 200 } }));
}

#[test]
fn move_to_next_display_without_monitors_fails() {
    let monitors: Vec<MonitorInfo> = Vec::new();
    let current = monitor(Some("gone"), 0, 0, 800, 600);
    assert_eq!(
        move_to_next_display(&monitors, Some(&current), WINDOW),
        Err(WindowError::NoMonitors)
    );
    assert_eq!(move_to_next_display(&monitors, None, WINDOW), Err(WindowError::NoMonitors));
    assert_eq!(require_monitors(&monitors), Err(WindowError::NoMonitors));
    assert_eq!(require_monitors(&three_monitors()), Ok(()));
}

#[test]
fn move_to_next_display_without_current_monitor_fails() {
    let monitors = three_monitors();
    assert_eq!(move_to_next_display(&monitors, None, WINDOW), Err(WindowError::NoCurrentMonitor));
}

#[test]
fn move_to_next_display_with_unknown_current_monitor_counts_from_the_first() {
    let monitors = three_monitors();
    let stranger = monitor(Some("elsewhere"), 0, 0, 10, 10);
    let r = move_to_next_display(&monitors, Some(&stranger), WINDOW).unwrap();
    assert_eq!(r.monitor, 1);
    assert_eq!(current_monitor_index(&monitors, &stranger), 0);
}

#[test]
fn current_monitor_is_found_by_name() {
    let monitors = three_monitors();
    let moved = monitor(Some("right"), 0, 0, 1, 1);
    assert_eq!(current_monitor_index(&monitors, &moved), 2);
    let unnamed = vec![monitor(Some("a"), 0, 0, 1, 1), monitor(None, 0, 0, 1, 1)];
    assert_eq!(current_monitor_index(&unnamed, &monitor(None, 5, 5, 5, 5)), 1);
    assert!(unnamed[1].same_name(&monitor(None, 5, 5, 5, 5)));
    assert!(!unnamed[0].same_name(&unnamed[1]));
}

#[test]
fn monitors_of_the_same_name_are_taken_for_the_first() {
    let monitors = vec![
        monitor(Some("twin"), 0, 0, 100, 100),
        monitor(Some("twin"), 100, 0, 100, 100),
        monitor(Some("other"), 200, 0, 100, 100),
    ];
    assert_eq!(current_monitor_index(&monitors, &monitors[1]), 0);
    let r = move_to_next_display(&monitors, Some(&monitors[1]), WINDOW).unwrap();
    assert_eq!(r.monitor, 1);
}

#[test]
fn move_to_next_display_out_of_range() {
    let monitors =
        vec![monitor(Some("a"), 0, 0, 100, 100), monitor(Some("b"), i32::MAX, 0, 1000, 100)];
    assert_eq!(
        move_to_next_display(&monitors, Some(&monitors[0]), WINDOW),
        Err(WindowError::OutOfRange)
    );
}

#[test]
fn move_window_by_adds_the_offset() {
    let p = WindowPosition { x: 10, y: -20 };
    assert_eq!(move_window_by(p, 5, 7), Ok(WindowPosition { x: 15, y: -13 }));
    assert_eq!(move_window_by(p, 0, -1), Ok(WindowPosition { x: 10, y: -21 }));
    assert_eq!(move_window_by(p, -1, 0), Ok(WindowPosition { x: 9, y: -20 }));
    assert_eq!(move_window_by(p, 0, 0), Ok(p));
}

#[test]
fn move_window_by_out_of_range() {
    let p = WindowPosition { x: i32::MAX, y: 0 };
    assert_eq!(move_window_by(p, 1, 0), Err(WindowError::OutOfRange));
    assert_eq!(move_window_by(p, 0, 1), Ok(WindowPosition { x: i32::MAX, y: 1 }));
    let p = WindowPosition { x: 0, y: i32::MIN };
    assert_eq!(move_window_by(p, 0, -1), Err(WindowError::OutOfRange));
    assert_eq!(move_window_by(p, i32::MIN, i32::MAX), Ok(WindowPosition { x: i32::MIN, y: -1 }));
}

#[test]
fn center_on_current_monitor_needs_a_monitor() {
    assert_eq!(center_on_current_monitor(None, WINDOW), Err(WindowError::NoCurrentMonitor));
    let m = monitor(Some("m"), 100, 50, 1000, 500);
    assert_eq!(
        center_on_current_monitor(Some(&m), WINDOW),
        Ok(WindowPosition { x: 500, y: 200 })
    );
    let far = monitor(None, i32::MAX, 0, 1000, 500);
    assert_eq!(center_on_current_monitor(Some(&far), WINDOW), Err(WindowError::OutOfRange));
}

#[test]
fn center_on_cursor_subtracts_half_the_size() {
    let cursor = WindowPosition { x: 500, y: 400 };
    assert_eq!(center_on_cursor(cursor, WINDOW), Ok(WindowPosition { x: 400, y: 300 }));
    let odd = WindowSize { width: 201, height: 1 };
    assert_eq!(center_on_cursor(cursor, odd), Ok(WindowPosition { x: 400, y: 400 }));
    let origin = WindowPosition { x: 0, y: 0 };
    assert_eq!(center_on_cursor(origin, WINDOW), Ok(WindowPosition { x: -100, y: -100 }));
}

#[test]
fn center_on_cursor_out_of_range() {
    let cursor = WindowPosition { x: i32::MIN, y: 0 };
    assert_eq!(center_on_cursor(cursor, WINDOW), Err(WindowError::OutOfRange));
    let size = WindowSize { width: 1, height: u32::MAX };
    assert_eq!(center_on_cursor(cursor, size), Ok(WindowPosition { x: i32::MIN, y: -2147483647 }));
    let cursor = WindowPosition { x: 0, y: -1 };
    assert_eq!(center_on_cursor(cursor, size), Ok(WindowPosition { x: 0, y: i32::MIN }));
    let cursor = WindowPosition { x: 0, y: -2 };
    assert_eq!(center_on_cursor(cursor, size), Err(WindowError::OutOfRange));
}

#[test]
fn window_error_messages() {
    assert_eq!(WindowError::NoMonitors.message(), "No monitors found");
    assert_eq!(WindowError::NoCurrentMonitor.message(), "No current monitor");
    assert_eq!(WindowError::OutOfRange.message(), "Window position out of range");
}
