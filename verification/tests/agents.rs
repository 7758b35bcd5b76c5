use clippy_awakens::agents::{is_bundled_agent, list_available_agents, BUNDLED_AGENTS};

#[test]
fn test_bundled_agents_count() {
    assert_eq!(BUNDLED_AGENTS.len(), 10);
}

#[test]
fn test_bundled_agents_contains_clippy() {
    assert!(BUNDLED_AGENTS.contains(&"Clippy"));
}

#[test]
fn test_list_available_agents_includes_bundled() {
    let agents = list_available_agents(&Vec::new());
    assert!(agents.len() >= 10);
    let names: Vec<&str> = agents.iter().map(|a| a.name.as_str()).collect();
    assert!(names.contains(&"Clippy"));
    assert!(names.contains(&"Merlin"));
    assert!(names.contains(&"Bonzi"));
}

#[test]
fn test_all_bundled_agents_marked_as_bundled() {
    let users = vec!["Clippy".to_string(), "Custom".to_string(), "Merlin".to_string()];
    let agents = list_available_agents(&users);
    for agent in &agents {
        if BUNDLED_AGENTS.contains(&agent.name.as_str()) {
            assert_eq!(agent.source, "bundled");
        }
    }
}

#[test]
fn test_user_agents_listed_after_bundled_without_duplicates() {
    let users = vec![
        "Zed".to_string(),
        "Clippy".to_string(),
        "Alpha".to_string(),
        "Rover".to_string(),
    ];
    let agents = list_available_agents(&users);
    assert_eq!(agents.len(), 12);
    for (i, name) in BUNDLED_AGENTS.iter().enumerate() {
        assert_eq!(agents[i].name, *name);
        assert_eq!(agents[i].source, "bundled");
    }
    assert_eq!(agents[10].name, "Zed");
    assert_eq!(agents[10].source, "user");
    assert_eq!(agents[11].name, "Alpha");
    assert_eq!(agents[11].source, "user");
}

#[test]
fn test_is_bundled_agent() {
    assert!(is_bundled_agent("F1"));
    assert!(is_bundled_agent("Rover"));
    assert!(!is_bundled_agent("clippy"));
    assert!(!is_bundled_agent(""));
}

#[test]
fn test_available_agent_names_are_distinct() {
    let users = vec!["Clippy".to_string(), "Ada".to_string(), "Bonzi".to_string(), "Bob".to_string()];
    let agents = list_available_agents(&users);
    for (i, a) in agents.iter().enumerate() {
        for (j, b) in agents.iter().enumerate() {
            if i != j {
                assert_ne!(a.name, b.name);
            }
        }
    }
    assert_eq!(agents.len(), 12);
}
