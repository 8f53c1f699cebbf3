use contact_api::settings::Settings;

#[test]
fn base_settings_file_only_without_environment() {
    assert_eq!(vec!["settings.yaml".to_owned()], Settings::settings_files(""));
}

#[test]
fn named_environment_adds_its_own_file() {
    assert_eq!(
        vec!["settings.yaml".to_owned(), "settings.production.yaml".to_owned()],
        Settings::settings_files("production")
    );
}

#[test]
fn environment_name_is_trimmed() {
    assert_eq!("test", Settings::environment_name(Some("  test\n")));
    assert_eq!("", Settings::environment_name(Some("   ")));
    assert_eq!("", Settings::environment_name(None));
}
