use clippy_awakens::tracker::{tracker_poll, tracker_step, window_info_from_rect, TrackerState, WindowInfo};

#[test]
fn test_window_info_equality() {
    let a = WindowInfo { x: 100, y: 200, width: 800, height: 600, found: true, foreground: true };
    let b = a.clone();
    assert_eq!(a, b);
}

#[test]
fn test_window_info_from_rect() {
    let info = window_info_from_rect(10, 20, 810, 620, false);
    assert_eq!(
        info,
        WindowInfo { x: 10, y: 20, width: 800, height: 600, found: true, foreground: false }
    );
}

#[test]
fn test_tracker_forces_first_emits_then_only_changes() {
    let mut st = TrackerState::new();
    let a = WindowInfo { x: 1, y: 2, width: 3, height: 4, found: true, foreground: true };
    for _ in 0..5 {
        assert_eq!(tracker_step(&mut st, Some(a)).ok().unwrap(), Some(a));
    }
    assert_eq!(st.emit_count, 5);
    assert_eq!(tracker_step(&mut st, Some(a)).ok().unwrap(), None);
    let b = WindowInfo { foreground: false, ..a };
    assert_eq!(tracker_step(&mut st, Some(b)).ok().unwrap(), Some(b));
    assert_eq!(st.last_info, Some(b));
    assert_eq!(tracker_step(&mut st, None).ok().unwrap(), Some(WindowInfo::not_found()));
    assert_eq!(st.last_info, None);
    assert_eq!(tracker_step(&mut st, None).ok().unwrap(), None);
    assert_eq!(tracker_step(&mut st, Some(b)).ok().unwrap(), Some(b));
}

#[test]
fn test_tracker_counter_overflow_is_reported() {
    let a = WindowInfo { x: 1, y: 2, width: 3, height: 4, found: true, foreground: true };
    let mut st = TrackerState { last_info: None, emit_count: u64::MAX };
    assert!(tracker_step(&mut st, Some(a)).is_err());
    assert_eq!(st.last_info, None);
    assert_eq!(st.emit_count, u64::MAX);
    let mut st = TrackerState { last_info: Some(a), emit_count: u64::MAX };
    assert_eq!(tracker_step(&mut st, Some(a)).ok().unwrap(), None);
}

#[test]
fn test_tracker_poll_skips_while_hidden() {
    let a = WindowInfo { x: 1, y: 2, width: 3, height: 4, found: true, foreground: true };
    let mut st = TrackerState::new();
    assert_eq!(tracker_poll(&mut st, false, Some(a)).ok().unwrap(), None);
    assert_eq!(st.emit_count, 0);
    assert_eq!(st.last_info, None);
    assert_eq!(tracker_poll(&mut st, true, Some(a)).ok().unwrap(), Some(a));
    assert_eq!(st.emit_count, 1);
    assert_eq!(tracker_poll(&mut st, false, None).ok().unwrap(), None);
    assert_eq!(st.last_info, Some(a));
}
