use pretty_flexible_env_logger::{try_init_custom_string, try_init_with, InitError};

fn enabled_at(level: log::Level) -> bool {
    let metadata = log::Metadata::builder().level(level).target("first_init_wins").build();
    log::logger().enabled(&metadata)
}

#[test]
fn later_attempts_keep_the_first_filtering() {
    assert!(try_init_custom_string(Some("error".to_string())).is_ok());
    assert_eq!(try_init_with("trace", None).err(), Some(InitError::AlreadyInitialized));
    assert_eq!(try_init_custom_string(Some("trace".to_string())).err(), Some(InitError::AlreadyInitialized));
    assert_eq!(log::max_level(), log::LevelFilter::Error);
    assert!(enabled_at(log::Level::Error));
    assert!(!enabled_at(log::Level::Warn));
    assert!(!enabled_at(log::Level::Trace));
}
