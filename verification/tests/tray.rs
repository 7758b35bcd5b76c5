use clippy_awakens::agents::AgentInfo;
use clippy_awakens::tray::{
    agent_menu_item, handle_menu_event, handle_tray_click, tray_menu_layout, MenuAction, MenuNode,
    TrayState,
};

#[test]
fn test_initial_state() {
    let state = TrayState::new();
    assert!(!state.is_muted(), "Should start unmuted");
    assert!(state.is_visible(), "Should start visible");
}

#[test]
fn test_mute_toggle() {
    let mut state = TrayState::new();
    assert!(!state.is_muted());

    let now_muted = state.toggle_mute();
    assert!(now_muted, "toggle_mute should return new state (true)");
    assert!(state.is_muted());

    let now_muted = state.toggle_mute();
    assert!(!now_muted, "toggle_mute should return new state (false)");
    assert!(!state.is_muted());
}

#[test]
fn test_visibility_toggle() {
    let mut state = TrayState::new();
    assert!(state.is_visible());

    let now_visible = state.toggle_visibility();
    assert!(!now_visible, "toggle should return new state (false)");
    assert!(!state.is_visible());

    let now_visible = state.toggle_visibility();
    assert!(now_visible, "toggle should return new state (true)");
    assert!(state.is_visible());
}

#[test]
fn test_set_visible() {
    let mut state = TrayState::new();
    assert!(state.is_visible());

    state.set_visible(false);
    assert!(!state.is_visible());

    state.set_visible(true);
    assert!(state.is_visible());
}

#[test]
fn test_set_visible_idempotent() {
    let mut state = TrayState::new();
    state.set_visible(true);
    state.set_visible(true);
    assert!(state.is_visible());

    state.set_visible(false);
    state.set_visible(false);
    assert!(!state.is_visible());
}

#[test]
fn test_mute_and_visibility_independent() {
    let mut state = TrayState::new();
    state.toggle_mute();
    assert!(state.is_muted());
    assert!(state.is_visible(), "Mute should not affect visibility");

    state.toggle_visibility();
    assert!(state.is_muted(), "Visibility should not affect mute");
    assert!(!state.is_visible());
}

fn is_ignore(a: &MenuAction) -> bool {
    matches!(a, MenuAction::Ignore)
}

#[test]
fn test_menu_show_hide_and_mute() {
    let mut state = TrayState::new();
    assert!(matches!(handle_menu_event(&mut state, "show_hide"), MenuAction::Visibility(false)));
    assert!(!state.is_visible());
    assert!(matches!(handle_menu_event(&mut state, "mute"), MenuAction::Mute(true)));
    assert!(state.is_muted());
    assert!(!state.is_visible());
    assert!(matches!(handle_menu_event(&mut state, "show_hide"), MenuAction::Visibility(true)));
    assert!(matches!(handle_menu_event(&mut state, "quit"), MenuAction::Quit));
    assert!(state.is_visible());
    assert!(state.is_muted());
}

#[test]
fn test_menu_agent_anchor_and_offsets() {
    let mut state = TrayState::new();
    match handle_menu_event(&mut state, "agent_Merlin") {
        MenuAction::SwitchAgent(name) => assert_eq!(name, "Merlin"),
        _ => panic!("expected an agent switch"),
    }
    match handle_menu_event(&mut state, "anchor_top-left") {
        MenuAction::Anchor(a) => assert_eq!(a, "top-left"),
        _ => panic!("expected an anchor"),
    }
    assert!(matches!(
        handle_menu_event(&mut state, "offset_up"),
        MenuAction::Offset { delta: 10, reset: false }
    ));
    assert!(matches!(
        handle_menu_event(&mut state, "offset_down"),
        MenuAction::Offset { delta: -10, reset: false }
    ));
    assert!(matches!(
        handle_menu_event(&mut state, "offset_reset"),
        MenuAction::Offset { delta: 0, reset: true }
    ));
    assert!(is_ignore(&handle_menu_event(&mut state, "unknown")));
    assert!(is_ignore(&handle_menu_event(&mut state, "")));
    assert!(state.is_visible());
    assert!(!state.is_muted());
}

#[test]
fn test_tray_click() {
    let mut state = TrayState::new();
    assert_eq!(handle_tray_click(&mut state, false), None);
    assert!(state.is_visible());
    assert_eq!(handle_tray_click(&mut state, true), Some(false));
    assert!(!state.is_visible());
    assert_eq!(handle_tray_click(&mut state, true), Some(true));
}

#[test]
fn test_agent_menu_items() {
    let bundled = AgentInfo { name: "Clippy".to_string(), source: "bundled".to_string() };
    let item = agent_menu_item(&bundled);
    assert_eq!(item.id, "agent_Clippy");
    assert_eq!(item.label, "Clippy");
    let user = AgentInfo { name: "Bob".to_string(), source: "user".to_string() };
    let item = agent_menu_item(&user);
    assert_eq!(item.id, "agent_Bob");
    assert_eq!(item.label, "Bob (custom)");
}

#[test]
fn test_tray_menu_layout_entries_are_handled() {
    let agents = vec![
        AgentInfo { name: "Clippy".to_string(), source: "bundled".to_string() },
        AgentInfo { name: "Bob".to_string(), source: "user".to_string() },
    ];
    let layout = tray_menu_layout(&agents);
    assert_eq!(layout.len(), 8);
    let mut ids: Vec<String> = Vec::new();
    for node in &layout {
        match node {
            MenuNode::Item(i) => ids.push(i.id.clone()),
            MenuNode::Separator => {}
            MenuNode::Submenu { items, .. } => {
                for i in items {
                    ids.push(i.id.clone());
                }
            }
        }
    }
    assert_eq!(ids.len(), 12);
    for id in &ids {
        if id == "quit" {
            continue;
        }
        let mut state = TrayState::new();
        assert!(!is_ignore(&handle_menu_event(&mut state, id)), "{} should be handled", id);
    }
    match &layout[3] {
        MenuNode::Submenu { label, items } => {
            assert_eq!(label, "Switch Agent");
            assert_eq!(items[1].label, "Bob (custom)");
        }
        _ => panic!("expected the agent submenu"),
    }
}

#[test]
fn test_mute_parity_and_last_visibility_over_calls() {
    let mut state = TrayState::new();
    let mut mute_toggles = 0;
    let mut last_set = true;
    let mut vis_toggles = 0;
    for step in 0..40u32 {
        match step % 7 {
            0 | 3 => {
                state.toggle_mute();
                mute_toggles += 1;
            }
            1 | 5 => {
                state.toggle_visibility();
                vis_toggles += 1;
            }
            2 => {
                let v = step % 2 == 0;
                state.set_visible(v);
                last_set = v;
                vis_toggles = 0;
            }
            _ => {
                let _ = state.is_muted();
                let _ = state.is_visible();
            }
        }
        assert_eq!(state.is_muted(), mute_toggles % 2 == 1);
        assert_eq!(state.is_visible(), last_set ^ (vis_toggles % 2 == 1));
    }
}
