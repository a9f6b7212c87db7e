use cloudreve_desktop::config::{AppConfig, ConfigManager, LogLevel};

#[test]
fn test_default_config() {
    let config = AppConfig::default();
    assert!(config.auto_start);
}

#[test]
fn log_level_from_str_unknown_defaults_info() {
    assert_eq!(LogLevel::from_str("not-a-level"), LogLevel::Info);
    assert_eq!(LogLevel::from_str("DEBUG"), LogLevel::Debug);
}

#[test]
fn default_config_values() {
    let c = AppConfig::default();
    assert!(c.notify_credential_expired);
    assert!(c.notify_file_conflict);
    assert!(c.fast_popup_launch);
    assert!(c.log_to_file);
    assert_eq!(c.log_level, LogLevel::Debug);
    assert_eq!(c.log_max_files, 5);
    assert_eq!(c.language, None);
}

#[test]
fn log_level_names_roundtrip() {
    for level in [LogLevel::Trace, LogLevel::Debug, LogLevel::Info, LogLevel::Warn, LogLevel::Error] {
        assert_eq!(LogLevel::from_str(level.as_str()), level);
    }
    assert_eq!(LogLevel::Warn.as_str(), "warn");
    assert_eq!(LogLevel::from_str("Error"), LogLevel::Error);
    assert_eq!(LogLevel::from_str(""), LogLevel::Info);
    assert_eq!(LogLevel::default(), LogLevel::Info);
}

#[test]
fn manager_starts_from_defaults_without_saved_file() {
    let m = ConfigManager::init("/home/u/.cloudreve/config.json".to_string(), None);
    assert!(m.auto_start());
    assert_eq!(m.log_level(), LogLevel::Debug);
    assert_eq!(m.log_max_files(), 5);
    assert_eq!(m.config_path(), "/home/u/.cloudreve/config.json");
}

#[test]
fn manager_setters_read_back() {
    let mut loaded = AppConfig::default();
    loaded.auto_start = false;
    let mut m = ConfigManager::init("c.json".to_string(), Some(loaded));
    assert!(!m.auto_start());
    m.set_auto_start(true);
    assert!(m.auto_start());
    m.set_notify_credential_expired(false);
    assert!(!m.notify_credential_expired());
    m.set_notify_file_conflict(false);
    assert!(!m.notify_file_conflict());
    m.set_fast_popup_launch(false);
    assert!(!m.fast_popup_launch());
    m.set_log_to_file(false);
    assert!(!m.log_to_file());
    m.set_log_level(LogLevel::Trace);
    assert_eq!(m.log_level(), LogLevel::Trace);
    m.set_log_max_files(12);
    assert_eq!(m.log_max_files(), 12);
    m.set_language(Some("zh-CN".to_string()));
    assert_eq!(m.language(), Some("zh-CN".to_string()));
    let c = m.get_config();
    assert_eq!(c.log_max_files, 12);
    assert!(c.auto_start);
}

#[test]
fn manager_update_applies_the_change() {
    let mut m = ConfigManager::init("c.json".to_string(), None);
    m.update(|mut c| {
        c.log_max_files = 9;
        c.language = Some("en".to_string());
        c
    });
    assert_eq!(m.log_max_files(), 9);
    assert_eq!(m.language(), Some("en".to_string()));
}

#[test]
fn config_and_log_paths_under_home() {
    let p = ConfigManager::get_config_path("/home/u");
    assert_eq!(p, "/home/u/.cloudreve/config.json");
    assert_eq!(ConfigManager::get_log_dir(Some("/home/u")), "/home/u/.cloudreve/logs");
    assert_eq!(ConfigManager::get_log_dir(None), "./.cloudreve/logs");
}

#[test]
fn test_load_nonexistent_file() {
    let manager = ConfigManager::init("/nonexistent/path/config.json".to_string(), None);
    let config = manager.get_config();
    assert!(config.auto_start);
}
