use clippy_awakens::config::{
    apply_config_change, config_or_default, AppConfig, ConfigChange, Position, DEFAULT_X_BITS,
    DEFAULT_Y_BITS,
};

#[test]
fn test_default_config() {
    let config = AppConfig::default();
    assert_eq!(config.agent, "Clippy");
    assert!(!config.muted);
    assert_eq!(f64::from_bits(config.position.x_bits), 1536.0);
    assert_eq!(f64::from_bits(config.position.y_bits), 864.0);
}

#[test]
fn test_default_position() {
    let pos = Position::default();
    assert!(f64::from_bits(pos.x_bits) > 0.0);
    assert!(f64::from_bits(pos.y_bits) > 0.0);
}

#[test]
fn test_load_missing_file_fallback_to_defaults() {
    let config = config_or_default(None);
    assert_eq!(config.agent, "Clippy");
    assert!(!config.muted);
}

#[test]
fn test_default_bits_are_the_default_coordinates() {
    assert_eq!(DEFAULT_X_BITS, 1536.0f64.to_bits());
    assert_eq!(DEFAULT_Y_BITS, 864.0f64.to_bits());
}

#[test]
fn test_loaded_config_is_kept() {
    let loaded = AppConfig {
        agent: "Merlin".to_string(),
        muted: true,
        position: Position { x_bits: 100.0f64.to_bits(), y_bits: 200.0f64.to_bits() },
    };
    let config = config_or_default(Some(loaded));
    assert_eq!(config.agent, "Merlin");
    assert!(config.muted);
    assert_eq!(f64::from_bits(config.position.x_bits), 100.0);
    assert_eq!(f64::from_bits(config.position.y_bits), 200.0);
}

#[test]
fn test_position_change_keeps_other_settings() {
    let loaded = AppConfig {
        agent: "Peedy".to_string(),
        muted: true,
        position: Position::default(),
    };
    let pos = Position { x_bits: 12.5f64.to_bits(), y_bits: 7.0f64.to_bits() };
    let config = apply_config_change(Some(loaded), ConfigChange::Position(pos));
    assert_eq!(config.agent, "Peedy");
    assert!(config.muted);
    assert_eq!(config.position, pos);
}

#[test]
fn test_agent_change_on_missing_config_starts_from_defaults() {
    let config = apply_config_change(None, ConfigChange::Agent("Rocky".to_string()));
    assert_eq!(config.agent, "Rocky");
    assert!(!config.muted);
    assert_eq!(config.position, Position::default());
}

#[test]
fn test_mute_change_keeps_agent_and_position() {
    let loaded = AppConfig {
        agent: "Genie".to_string(),
        muted: false,
        position: Position { x_bits: 1.0f64.to_bits(), y_bits: 2.0f64.to_bits() },
    };
    let config = apply_config_change(Some(loaded), ConfigChange::Muted(true));
    assert_eq!(config.agent, "Genie");
    assert!(config.muted);
    assert_eq!(f64::from_bits(config.position.x_bits), 1.0);
    assert_eq!(f64::from_bits(config.position.y_bits), 2.0);
}
