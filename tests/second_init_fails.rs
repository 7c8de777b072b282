use pretty_flexible_env_logger::{
    init, init_timed, init_timed_with, init_with, try_init, try_init_custom_string,
    try_init_timed, try_init_timed_custom_string, try_init_timed_with, try_init_with, InitError,
};

#[test]
fn every_entry_point_fails_after_the_first_install() {
    assert!(try_init(None).is_ok());
    let refused = Some(InitError::AlreadyInitialized);
    assert_eq!(try_init(None).err(), refused);
    assert_eq!(try_init_timed(Some("trace".to_string())).err(), refused);
    assert_eq!(try_init_with("MY_APP_LOG", None).err(), refused);
    assert_eq!(try_init_timed_with("debug", None).err(), refused);
    assert_eq!(try_init_custom_string(None).err(), refused);
    assert_eq!(try_init_timed_custom_string(Some("info".to_string())).err(), refused);
    assert_eq!(init(None).err(), refused);
    assert_eq!(init_timed(None).err(), refused);
    assert_eq!(init_with("warn", None).err(), refused);
    assert_eq!(init_timed_with("warn", None).err(), refused);
}
