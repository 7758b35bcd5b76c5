use clippy_awakens::screen::{virtual_screen, MonitorRect};

#[test]
fn test_no_monitors() {
    assert!(matches!(virtual_screen(&Vec::new()), Ok(None)));
}

#[test]
fn test_two_monitors_side_by_side() {
    let monitors = vec![
        MonitorRect { x: 0, y: 0, width: 1920, height: 1080 },
        MonitorRect { x: -1280, y: 100, width: 1280, height: 1024 },
    ];
    let vs = virtual_screen(&monitors).ok().unwrap().unwrap();
    assert_eq!((vs.x, vs.y, vs.width, vs.height), (-1280, 0, 3200, 1124));
}

#[test]
fn test_single_monitor() {
    let monitors = vec![MonitorRect { x: 50, y: 60, width: 800, height: 600 }];
    let vs = virtual_screen(&monitors).ok().unwrap().unwrap();
    assert_eq!((vs.x, vs.y, vs.width, vs.height), (50, 60, 800, 600));
}

#[test]
fn test_overflowing_edge_is_reported() {
    let monitors = vec![MonitorRect { x: i32::MAX, y: 0, width: 10, height: 10 }];
    assert!(virtual_screen(&monitors).is_err());
}
