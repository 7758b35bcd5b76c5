use clippy_awakens::sounds::{
    first_present_path,
    get_alternative_sound_names, get_sound_path, get_system_sound_name, media_file_path,
    sound_candidates,
};

#[test]
fn test_sound_mapping_all_events() {
    let events = ["complete", "error", "attention", "stop", "session-end"];
    for event in &events {
        let name = get_system_sound_name(event);
        assert!(name.is_some(), "Event '{}' should have a sound mapping", event);
    }
}

#[test]
fn test_sound_mapping_unknown_event() {
    assert!(get_system_sound_name("unknown").is_none());
    assert!(get_system_sound_name("").is_none());
    assert!(get_system_sound_name("hack").is_none());
}

#[test]
fn test_sound_file_names_are_wav() {
    let events = ["complete", "error", "attention", "stop", "session-end"];
    for event in &events {
        let name = get_system_sound_name(event).unwrap();
        assert!(
            name.ends_with(".wav"),
            "Sound for '{}' should be a .wav file, got '{}'",
            event,
            name
        );
    }
}

#[test]
fn test_alternative_sound_names_exist() {
    let events = ["complete", "error", "attention", "stop", "session-end"];
    for event in &events {
        let alts = get_alternative_sound_names(event);
        assert!(!alts.is_empty(), "Event '{}' should have alternative sound names", event);
    }
}

#[test]
fn test_alternative_sound_names_unknown_event() {
    let alts = get_alternative_sound_names("unknown");
    assert!(alts.is_empty());
}

#[test]
fn test_get_sound_path_graceful_on_linux() {
    let result = get_sound_path("complete");
    // Off Windows (where `/` separates path components) no sound file is found.
    if std::path::MAIN_SEPARATOR != '\\' {
        assert!(result.is_none(), "On non-Windows, sound path should be None");
    }
}

#[test]
fn test_get_sound_path_unknown_event_returns_none() {
    assert!(get_sound_path("unknown").is_none());
}

#[test]
fn test_each_event_maps_to_distinct_sound() {
    let events = ["complete", "error", "attention", "stop", "session-end"];
    let names: Vec<&str> = events.iter().map(|e| get_system_sound_name(e).unwrap()).collect();
    for (i, name) in names.iter().enumerate() {
        for (j, other) in names.iter().enumerate() {
            if i != j {
                assert_ne!(
                    name, other,
                    "Events '{}' and '{}' should have distinct sounds",
                    events[i], events[j]
                );
            }
        }
    }
}

#[test]
fn test_exact_sound_names() {
    assert_eq!(get_system_sound_name("complete"), Some("Windows Notify System Generic.wav"));
    assert_eq!(get_system_sound_name("error"), Some("Windows Critical Stop.wav"));
    assert_eq!(get_system_sound_name("attention"), Some("Windows Notify Calendar.wav"));
    assert_eq!(get_system_sound_name("stop"), Some("Windows Notify Email.wav"));
    assert_eq!(get_system_sound_name("session-end"), Some("Windows Logoff Sound.wav"));
    assert_eq!(
        get_alternative_sound_names("stop"),
        vec!["Windows Information Bar.wav", "Windows Unlock.wav"]
    );
}

#[test]
fn test_sound_candidates_order() {
    assert_eq!(
        sound_candidates("session-end", '\\'),
        vec![
            "C:\\Windows\\Media\\Windows Logoff Sound.wav".to_string(),
            "C:\\Windows\\Media\\Windows Shutdown.wav".to_string(),
            "C:\\Windows\\Media\\Windows Logoff.wav".to_string(),
        ]
    );
    assert!(sound_candidates("unknown", '/').is_empty());
    assert_eq!(media_file_path("ding.wav", '\\'), "C:\\Windows\\Media\\ding.wav");
    assert_eq!(media_file_path("ding.wav", '/'), "C:\\Windows\\Media/ding.wav");
    assert_eq!(
        sound_candidates("stop", '/'),
        vec![
            "C:\\Windows\\Media/Windows Notify Email.wav".to_string(),
            "C:\\Windows\\Media/Windows Information Bar.wav".to_string(),
            "C:\\Windows\\Media/Windows Unlock.wav".to_string(),
        ]
    );
}

#[test]
fn test_first_present_path_picks_first_reported() {
    let paths = sound_candidates("complete", '/');
    assert_eq!(paths.len(), 4);
    assert_eq!(first_present_path(&paths, &vec![false, true, true, false]), Some(paths[1].clone()));
    assert_eq!(first_present_path(&paths, &vec![true]), Some(paths[0].clone()));
    assert_eq!(first_present_path(&paths, &vec![false, false]), None);
    assert_eq!(first_present_path(&paths, &vec![false, false, false, false]), None);
    assert_eq!(first_present_path(&paths, &vec![]), None);
    assert_eq!(first_present_path(&Vec::new(), &vec![true]), None);
}

#[test]
fn test_candidates_use_platform_join() {
    let expected = std::path::PathBuf::from("C:\\Windows\\Media").join("tada.wav");
    let paths = sound_candidates("complete", std::path::MAIN_SEPARATOR);
    assert_eq!(paths[2], expected.to_string_lossy());
}
