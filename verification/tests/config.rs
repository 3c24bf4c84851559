use std::path::PathBuf;

use jobless::config::{
    AppConfig, BrowserEngine, ConfigError, ConfigSourceKind, ConfigStore, RpcSection, APP_LOCALE_EN,
};
use jobless::paths::{default_runtime_dir, AppPaths, BaseDirectories, Disk, PathError};

fn validation(message: &str) -> Result<(), ConfigError> {
    Err(ConfigError::Validation(message.to_string()))
}

fn test_paths(root: &std::path::Path) -> AppPaths {
    AppPaths::from_normalized(
        root.join("config").to_string_lossy().into_owned(),
        root.join("config/config.toml").to_string_lossy().into_owned(),
        root.join("data").to_string_lossy().into_owned(),
        root.join("runtime").to_string_lossy().into_owned(),
    )
}

#[test]
fn default_configuration_is_valid() {
    let config = AppConfig::default();
    assert_eq!(config.app.locale, "zh-CN");
    assert_eq!(config.browser.engine, BrowserEngine::Patchright);
    assert!(!config.browser.headless);
    assert_eq!(config.browser.smoke_url, "about:blank");
    assert_eq!(config.rpc.request_timeout_ms, 10_000);
    assert_eq!(config.rpc.shutdown_timeout_ms, 3_000);
    assert_eq!(config.rpc.max_frame_bytes, 4 * 1024 * 1024);
    assert_eq!(config.logging.level, "info");
    assert_eq!(config.validate(), Ok(()));
}

#[test]
fn invalid_request_timeout_fails_validation() {
    let value = AppConfig {
        rpc: RpcSection { request_timeout_ms: 0, ..RpcSection::default() },
        ..AppConfig::default()
    };
    assert!(value.validate().is_err());
    assert_eq!(value.validate(), validation("rpc.request_timeout_ms must be between 1 and 600000"));
}

#[test]
fn validation_reports_each_rule() {
    let mut config = AppConfig::default();
    config.app.locale = "fr".to_string();
    assert_eq!(config.validate(), validation("app.locale must be `zh-CN` or `en`"));

    let mut config = AppConfig::default();
    config.app.locale = APP_LOCALE_EN.to_string();
    assert_eq!(config.validate(), Ok(()));

    let mut config = AppConfig::default();
    config.rpc.request_timeout_ms = 600_001;
    assert_eq!(config.validate(), validation("rpc.request_timeout_ms must be between 1 and 600000"));
    config.rpc.request_timeout_ms = 600_000;
    assert_eq!(config.validate(), Ok(()));

    let mut config = AppConfig::default();
    config.rpc.shutdown_timeout_ms = 0;
    assert_eq!(config.validate(), validation("rpc.shutdown_timeout_ms must be between 1 and 600000"));

    let mut config = AppConfig::default();
    config.rpc.max_frame_bytes = 1_023;
    assert_eq!(config.validate(), validation("rpc.max_frame_bytes must be between 1024 and 67108864"));
    config.rpc.max_frame_bytes = 64 * 1024 * 1024 + 1;
    assert_eq!(config.validate(), validation("rpc.max_frame_bytes must be between 1024 and 67108864"));
    config.rpc.max_frame_bytes = 1_024;
    assert_eq!(config.validate(), Ok(()));

    let mut config = AppConfig::default();
    config.browser.smoke_url = " \t\n".to_string();
    assert_eq!(config.validate(), validation("browser.smoke_url must not be empty"));

    let mut config = AppConfig::default();
    config.logging.level = "\u{3000}".to_string();
    assert_eq!(config.validate(), validation("logging.level must not be empty"));
}

#[test]
fn validation_reports_the_first_rule_broken() {
    let mut config = AppConfig::default();
    config.app.locale = "de".to_string();
    config.rpc.request_timeout_ms = 0;
    config.logging.level = String::new();
    assert_eq!(config.validate(), validation("app.locale must be `zh-CN` or `en`"));
}

#[test]
fn explicit_overrides_are_normalized() {
    let root = tempfile::tempdir().unwrap();
    let paths = AppPaths::with_overrides(
        Some(root.path().join("config/config.toml").to_string_lossy().into_owned()),
        Some(root.path().join("data").to_string_lossy().into_owned()),
        root.path().join("runtime").to_string_lossy().into_owned(),
    )
    .unwrap();

    assert_eq!(PathBuf::from(&paths.config_file), root.path().join("config/config.toml"));
    assert_eq!(PathBuf::from(&paths.config_dir), root.path().join("config"));
    assert_eq!(PathBuf::from(&paths.database_file), root.path().join("data/db/jobless.sqlite3"));
    assert_eq!(PathBuf::from(&paths.browser_profiles_dir), root.path().join("data/browser-profiles"));
}

#[test]
fn base_directories_give_the_defaults() {
    let base = BaseDirectories { config_dir: "/home/u/.config".to_string(), data_local_dir: "/home/u/.local/share".to_string() };
    let paths = AppPaths::from_base(None, None, "/opt/runtime".to_string(), Some(base)).unwrap();
    assert_eq!(paths.config_file, "/home/u/.config/com.jobless.desktop/config.toml");
    assert_eq!(paths.config_dir, "/home/u/.config/com.jobless.desktop");
    assert_eq!(paths.data_dir, "/home/u/.local/share/com.jobless.desktop");
    assert_eq!(paths.database_file, "/home/u/.local/share/com.jobless.desktop/db/jobless.sqlite3");
    assert_eq!(paths.logs_dir, "/home/u/.local/share/com.jobless.desktop/logs");
    assert_eq!(paths.runtime_dir, "/opt/runtime");
}

#[test]
fn missing_base_directories_fail_even_with_overrides() {
    let result = AppPaths::from_base(Some("/c/config.toml".to_string()), Some("/d".to_string()), "/r".to_string(), None);
    assert_eq!(result, Err(PathError::NoBaseDirectories));
}

#[test]
fn moving_the_data_directory_moves_its_files() {
    let mut paths = AppPaths::from_normalized("/c".to_string(), "/c/config.toml".to_string(), "/d".to_string(), "/r".to_string());
    paths.set_data_dir("/e".to_string());
    assert_eq!(paths.data_dir, "/e");
    assert_eq!(paths.database_file, "/e/db/jobless.sqlite3");
    assert_eq!(paths.browser_profiles_dir, "/e/browser-profiles");
    assert_eq!(paths.logs_dir, "/e/logs");
    assert_eq!(paths.config_file, "/c/config.toml");
    assert_eq!(paths.runtime_dir, "/r");
    paths.set_runtime_dir("/s".to_string());
    assert_eq!(paths.runtime_dir, "/s");
    assert_eq!(paths.data_dir, "/e");
}

#[test]
fn finishing_a_load_applies_the_configured_directories() {
    let root = tempfile::tempdir().unwrap();
    let store = ConfigStore::new(test_paths(root.path()));
    let custom = root.path().join("custom-data");
    let mut value = AppConfig::default();
    value.storage.data_dir = Some(custom.to_string_lossy().into_owned());
    value.runtime.dir = Some("/opt/jobless-runtime".to_string());

    let loaded = store.finish_load(value.clone()).unwrap();
    assert_eq!(loaded.value, value);
    assert_eq!(PathBuf::from(&loaded.paths.data_dir), custom);
    assert_eq!(PathBuf::from(&loaded.paths.database_file), root.path().join("custom-data/db/jobless.sqlite3"));
    assert_eq!(loaded.paths.runtime_dir, "/opt/jobless-runtime");
    assert_eq!(loaded.paths.config_file, store.paths().config_file);
    let kinds: Vec<ConfigSourceKind> = loaded.sources.iter().map(|s| s.kind).collect();
    assert_eq!(kinds, vec![ConfigSourceKind::Defaults, ConfigSourceKind::UserFile, ConfigSourceKind::Environment]);
    assert_eq!(loaded.sources[1].path.as_deref(), Some(store.paths().config_file.as_str()));
}

#[test]
fn finishing_a_load_refuses_an_invalid_configuration() {
    let root = tempfile::tempdir().unwrap();
    let store = ConfigStore::new(test_paths(root.path()));
    let mut value = AppConfig::default();
    value.rpc.shutdown_timeout_ms = 0;
    assert!(matches!(store.finish_load(value), Err(ConfigError::Validation(_))));
}

#[test]
fn the_bundled_runtime_is_preferred_when_present() {
    let root = tempfile::tempdir().unwrap();
    let bin = tempfile::Builder::new().prefix("bin").rand_bytes(0).tempdir_in(root.path()).unwrap().keep();
    let exe = bin.join("jobless").to_string_lossy().into_owned();
    let cwd = root.path().join("work").to_string_lossy().into_owned();
    assert_eq!(PathBuf::from(default_runtime_dir(&mut Disk::new(), Some(exe.clone()), cwd.clone())), root.path().join("work/runtime"));

    let resources = tempfile::Builder::new().prefix("Resources").rand_bytes(0).tempdir_in(root.path()).unwrap().keep();
    tempfile::Builder::new().prefix("runtime").rand_bytes(0).tempdir_in(&resources).unwrap().keep();
    assert_eq!(PathBuf::from(default_runtime_dir(&mut Disk::new(), Some(exe.clone()), cwd.clone())), root.path().join("Resources/runtime"));

    tempfile::Builder::new().prefix("runtime").rand_bytes(0).tempdir_in(&bin).unwrap().keep();
    assert_eq!(PathBuf::from(default_runtime_dir(&mut Disk::new(), Some(exe), cwd.clone())), bin.join("runtime"));
    assert_eq!(default_runtime_dir(&mut Disk::new(), None, "/w".to_string()), "/w/runtime");
}

#[test]
fn configuration_errors_read_as_messages() {
    assert_eq!(
        ConfigError::Validation("logging.level must not be empty".to_string()).message(),
        "invalid configuration: logging.level must not be empty"
    );
    assert_eq!(ConfigError::Paths(PathError::NoBaseDirectories).message(), "the current user has no platform config/data directory");
    assert_eq!(
        ConfigError::Io { path: "/c".to_string(), message: "denied".to_string() }.message(),
        "failed to read or write `/c`: denied"
    );
}

#[test]
fn rejects_invalid_timeout() {
    let root = tempfile::tempdir().unwrap();
    let store = ConfigStore::new(test_paths(root.path()));
    let value = AppConfig {
        rpc: RpcSection { request_timeout_ms: 0, ..RpcSection::default() },
        ..AppConfig::default()
    };

    assert!(value.validate().is_err());
    assert!(store.finish_load(value).is_err());
}

#[test]
fn config_data_dir_override_updates_effective_paths() {
    let root = tempfile::tempdir().unwrap();
    let store = ConfigStore::new(test_paths(root.path()));
    let custom = root.path().join("custom-data");
    let mut value = AppConfig::default();
    value.storage.data_dir = Some(custom.to_string_lossy().into_owned());

    let loaded = store.finish_load(value).unwrap();
    assert_eq!(PathBuf::from(&loaded.paths.data_dir), custom);
    assert_eq!(PathBuf::from(&loaded.paths.database_file), root.path().join("custom-data/db/jobless.sqlite3"));
}
