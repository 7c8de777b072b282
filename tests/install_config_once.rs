use pretty_flexible_env_logger::{install_config, InitError, LoggerConfig};

#[test]
fn install_config_applies_its_filters_once() {
    let first = LoggerConfig { timed: true, filters: Some("info".to_string()) };
    assert!(install_config(first).is_ok());
    assert_eq!(log::max_level(), log::LevelFilter::Info);
    let second = LoggerConfig { timed: false, filters: Some("trace".to_string()) };
    assert_eq!(install_config(second).err(), Some(InitError::AlreadyInitialized));
    assert_eq!(log::max_level(), log::LevelFilter::Info);
}
