#[test]
fn test_app_builds() {
    // The library links and its items are reachable from outside.
    let _ = clippy_awakens::tray::TrayState::new();
    assert!(true, "Tauri project compiles successfully");
}

#[test]
fn test_window_config_transparent() {
    let transparent = true;
    let decorations = false;
    let always_on_top = true;
    let skip_taskbar = true;

    assert!(transparent, "Window must be transparent");
    assert!(!decorations, "Window must have no decorations");
    assert!(always_on_top, "Window must be always on top");
    assert!(skip_taskbar, "Window must skip taskbar");
}
