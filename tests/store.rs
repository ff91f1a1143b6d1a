use settings_store::{load_settings, AppError, Settings, SettingsStore};

fn sample() -> Settings {
    Settings {
        dark_mode: true,
        language: "tr".to_string(),
        temperature_unit: "fahrenheit".to_string(),
        notifications_enabled: true,
        auto_refresh: false,
        refresh_interval: 120,
        last_update: Some(42),
        api_key: None,
    }
}

fn json_error() -> serde_json::Error {
    serde_json::from_str::<serde_json::Value>("{ \"dark_mode\": tru").unwrap_err()
}

#[test]
fn new_store_has_nothing_adopted() {
    assert_eq!(SettingsStore::new().get(), None);
}

#[test]
fn saved_document_is_read_back_unchanged() {
    let mut store = SettingsStore::new();
    let s = sample();
    assert!(s.validate().is_ok());
    assert!(store.commit_save(s.clone(), Ok(())).is_ok());
    assert_eq!(store.get(), Some(s));
}

#[test]
fn failed_write_keeps_the_adopted_document() {
    let mut store = SettingsStore::with_settings(Settings::default());
    let err = std::io::Error::new(std::io::ErrorKind::PermissionDenied, "denied");
    let r = store.commit_save(sample(), Err(AppError::Io(err)));
    assert!(matches!(r, Err(AppError::Io(_))));
    assert_eq!(store.get(), Some(Settings::default()));
}

#[test]
fn refused_document_leaves_the_store_alone() {
    let store = SettingsStore::with_settings(sample());
    let mut bad = sample();
    bad.refresh_interval = 59;
    assert!(matches!(bad.validate(), Err(AppError::Settings(_))));
    assert_eq!(store.get(), Some(sample()));
}

#[test]
fn reset_adopts_the_default_document() {
    let mut store = SettingsStore::with_settings(sample());
    let d = store.reset();
    assert_eq!(d, Settings::default());
    assert_eq!(store.get(), Some(Settings::default()));
}

#[test]
fn missing_file_loads_the_defaults() {
    assert_eq!(load_settings(None).unwrap(), Settings::default());
}

#[test]
fn valid_file_loads_as_it_is() {
    assert_eq!(load_settings(Some(Ok(sample()))).unwrap(), sample());
}

#[test]
fn malformed_file_is_a_parse_error_not_the_defaults() {
    let r = load_settings(Some(Err(AppError::Json(json_error()))));
    assert!(matches!(r, Err(AppError::Json(_))));
}

#[test]
fn unreadable_file_is_an_io_error() {
    let err = std::io::Error::new(std::io::ErrorKind::Other, "broken");
    let r = load_settings(Some(Err(AppError::Io(err))));
    assert!(matches!(r, Err(AppError::Io(_))));
}

#[test]
fn invalid_file_contents_are_a_validation_error() {
    let mut s = sample();
    s.temperature_unit = "kelvin".to_string();
    match load_settings(Some(Ok(s))) {
        Err(AppError::Settings(m)) => assert_eq!(m, "Invalid temperature unit"),
        other => panic!("unexpected {:?}", other),
    }
}
