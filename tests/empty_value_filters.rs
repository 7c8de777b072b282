use pretty_flexible_env_logger::try_init;

#[test]
fn empty_value_keeps_default_level() {
    assert!(try_init(Some(String::new())).is_ok());
    assert_eq!(log::max_level(), log::LevelFilter::Error);
}
