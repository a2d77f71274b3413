use fluid_voice_windows::settings::{
    migrate, AppSettings, HotkeyMode, SettingsStore, CURRENT_SETTINGS_VERSION,
};

#[test]
fn missing_settings_fields_migrate_to_defaults() {
    // A settings file holding only `version: 0` and `language: "en"`: every
    // other field takes its default value.
    let mut value = AppSettings::default();
    value.version = 0;
    value.language = "en".to_string();

    let settings = migrate(value);

    assert_eq!(settings.version, CURRENT_SETTINGS_VERSION);
    assert_eq!(settings.language, "en");
    assert_eq!(settings.hotkey.shortcut, "Ctrl+Alt+Space");
    assert_eq!(settings.transcription.model_id, "whisper-base.en");
    assert_eq!(settings.history.max_items, 200);
}

#[test]
fn save_forces_current_version() {
    let mut settings = AppSettings::default();
    settings.version = 99;

    let written = SettingsStore::settings_to_write(&settings);
    let loaded = SettingsStore::settings_from_file(Some(written));

    assert_eq!(loaded.version, CURRENT_SETTINGS_VERSION);
}

#[test]
fn migration_fills_zero_limits_and_drops_hold_mode() {
    let mut s = AppSettings::default();
    s.version = 7;
    s.transcription.max_recording_seconds = 0;
    s.history.max_items = 0;
    s.hotkey.mode = HotkeyMode::Hold;
    s.language = "de".to_string();
    let m = migrate(s);
    assert_eq!(m.version, CURRENT_SETTINGS_VERSION);
    assert_eq!(m.transcription.max_recording_seconds, 90);
    assert_eq!(m.history.max_items, 200);
    assert_eq!(m.hotkey.mode, HotkeyMode::Toggle);
    assert_eq!(m.language, "de");
}

#[test]
fn migration_keeps_valid_values() {
    let mut s = AppSettings::default();
    s.transcription.max_recording_seconds = 30;
    s.history.max_items = 5;
    let m = migrate(s);
    assert_eq!(m.transcription.max_recording_seconds, 30);
    assert_eq!(m.history.max_items, 5);
    let again = migrate(m.duplicate());
    assert_eq!(again.history.max_items, m.history.max_items);
}

#[test]
fn loading_without_file_gives_defaults() {
    let s = SettingsStore::settings_from_file(None);
    assert_eq!(s.version, CURRENT_SETTINGS_VERSION);
    assert_eq!(s.language, "auto");
    assert!(s.hotkey.enabled);
    assert!(!s.enhancement.enabled);
    assert_eq!(s.enhancement.base_url, "https://api.openai.com/v1");
    assert_eq!(s.enhancement.timeout_seconds, 20);
    assert!(s.insertion.restore_clipboard);
}

#[test]
fn store_path_ends_with_settings_file() {
    let store = SettingsStore::new("data");
    assert!(store.path().ends_with("settings.json"));
    assert!(store.path().starts_with("data"));
}
