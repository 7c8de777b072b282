use pretty_flexible_env_logger::{try_init_custom_string, InitError};

#[test]
fn no_directives_install_once_with_default_filtering() {
    assert!(try_init_custom_string(None).is_ok());
    assert_eq!(log::max_level(), log::LevelFilter::Error);
    assert_eq!(try_init_custom_string(None).err(), Some(InitError::AlreadyInitialized));
}
