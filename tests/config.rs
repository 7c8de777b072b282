use pretty_flexible_env_logger::{config_with, LoggerConfig};

#[test]
fn config_for_unset_variable_uses_the_name() {
    let config: LoggerConfig = config_with(true, "warn,my_crate=debug", None);
    assert!(config.timed);
    assert_eq!(config.filters, Some("warn,my_crate=debug".to_string()));
}

#[test]
fn config_for_set_variable_uses_its_value() {
    let config = config_with(false, "MY_APP_LOG", Some("trace".to_string()));
    assert!(!config.timed);
    assert_eq!(config.filters, Some("trace".to_string()));
}

#[test]
fn config_for_empty_variable_keeps_it_empty() {
    let config = config_with(false, "MY_APP_LOG", Some(String::new()));
    assert_eq!(config.filters, Some(String::new()));
}
