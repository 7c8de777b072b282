use pretty_flexible_env_logger::try_init_timed_with;

#[test]
fn looked_up_value_is_the_filter() {
    assert!(try_init_timed_with("MY_APP_LOG", Some("info".to_string())).is_ok());
    assert_eq!(log::max_level(), log::LevelFilter::Info);
}
