use clippy_awakens::server::dispatch_event;
use clippy_awakens::tray::TrayState;

#[test]
fn test_event_plays_sound_when_unmuted_and_shows_agent() {
    let mut state = TrayState::new();
    state.set_visible(false);
    let d = dispatch_event(&mut state, "complete");
    assert!(d.play_sound);
    assert_eq!(d.event.event_type, "complete");
    assert!(state.is_visible());
    assert!(!state.is_muted());
}

#[test]
fn test_event_is_silent_when_muted_but_still_emitted() {
    let mut state = TrayState::new();
    state.toggle_mute();
    let d = dispatch_event(&mut state, "session-end");
    assert!(!d.play_sound);
    assert_eq!(d.event.event_type, "session-end");
    assert!(state.is_muted());
    assert!(state.is_visible());
}
