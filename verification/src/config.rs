//! The user configuration: its sections, defaults and validation, and the
//! paths that follow from it.
use vstd::prelude::*;

use crate::paths::{is_normalized, normalized_paths, path_message, AppPaths, AppPathsView, PathError};
use crate::text::{is_blank, joined, str_eq, text_is_blank};
use vstd::string::StringExecFns;

verus! {

pub const APP_LOCALE_ZH_CN: &'static str = "zh-CN";

pub const APP_LOCALE_EN: &'static str = "en";

/// Longest request or shutdown timeout accepted, in milliseconds (ten minutes).
pub const MAX_REQUEST_TIMEOUT_MS: u64 = 600_000;

/// Smallest frame limit accepted, in bytes.
pub const MIN_FRAME_BYTES: usize = 1_024;

/// Largest frame limit accepted, in bytes (64 MiB).
pub const MAX_FRAME_BYTES: usize = 67_108_864;

/// The whole configuration.
#[derive(Debug, Clone, PartialEq, Eq)]
pub struct AppConfig {
    pub app: AppSection,
    pub storage: StorageSection,
    pub runtime: RuntimeSection,
    pub browser: BrowserSection,
    pub rpc: RpcSection,
    pub logging: LoggingSection,
}

#[derive(Debug, Clone, PartialEq, Eq)]
pub struct AppSection {
    pub locale: String,
}

#[derive(Debug, Clone, Default, PartialEq, Eq)]
pub struct StorageSection {
    pub data_dir: Option<String>,
}

#[derive(Debug, Clone, Default, PartialEq, Eq)]
pub struct RuntimeSection {
    pub dir: Option<String>,
    pub bin: Option<String>,
    pub worker_entry: Option<String>,
}

#[derive(Debug, Clone, PartialEq, Eq)]
pub struct BrowserSection {
    pub engine: BrowserEngine,
    pub headless: bool,
    pub smoke_url: String,
}

/// The browser automation engine driven by the worker.
#[derive(Debug, Clone, Copy, PartialEq, Eq)]
pub enum BrowserEngine {
    Patchright,
}

#[derive(Debug, Clone, PartialEq, Eq)]
pub struct RpcSection {
    pub request_timeout_ms: u64,
    pub shutdown_timeout_ms: u64,
    pub max_frame_bytes: usize,
}

#[derive(Debug, Clone, PartialEq, Eq)]
pub struct LoggingSection {
    pub level: String,
}

impl Default for AppSection {
    /// The interface starts in Simplified Chinese.
    fn default() -> (r: Self)
        ensures
            r.locale@ == APP_LOCALE_ZH_CN@,
    {
        AppSection { locale: APP_LOCALE_ZH_CN.to_string() }
    }
}

impl Default for BrowserSection {
    /// Patchright, with a visible window, testing against `about:blank`.
    fn default() -> (r: Self)
        ensures
            r.engine == BrowserEngine::Patchright,
            !r.headless,
            r.smoke_url@ == "about:blank"@,
    {
        BrowserSection {
            engine: BrowserEngine::Patchright,
            headless: false,
            smoke_url: "about:blank".to_string(),
        }
    }
}

impl Default for BrowserEngine {
    fn default() -> (r: Self)
        ensures
            r == BrowserEngine::Patchright,
    {
        BrowserEngine::Patchright
    }
}

impl Default for RpcSection {
    /// Requests time out after 10 s, shutdown after 3 s; frames up to 4 MiB.
    fn default() -> (r: Self)
        ensures
            r.request_timeout_ms == 10_000,
            r.shutdown_timeout_ms == 3_000,
            r.max_frame_bytes == 4_194_304,
    {
        RpcSection { request_timeout_ms: 10_000, shutdown_timeout_ms: 3_000, max_frame_bytes: 4_194_304 }
    }
}

impl Default for LoggingSection {
    fn default() -> (r: Self)
        ensures
            r.level@ == "info"@,
    {
        LoggingSection { level: "info".to_string() }
    }
}

/// What each default section holds.
pub open spec fn is_default_config(c: AppConfig) -> bool {
    &&& c.app.locale@ == APP_LOCALE_ZH_CN@
    &&& c.storage.data_dir is None
    &&& c.runtime.dir is None
    &&& c.runtime.bin is None
    &&& c.runtime.worker_entry is None
    &&& c.browser.engine == BrowserEngine::Patchright
    &&& !c.browser.headless
    &&& c.browser.smoke_url@ == "about:blank"@
    &&& c.rpc.request_timeout_ms == 10_000
    &&& c.rpc.shutdown_timeout_ms == 3_000
    &&& c.rpc.max_frame_bytes == 4_194_304
    &&& c.logging.level@ == "info"@
}

impl Default for AppConfig {
    /// Every section at its default.
    fn default() -> (r: Self)
        ensures
            is_default_config(r),
    {
        AppConfig {
            app: AppSection::default(),
            storage: StorageSection { data_dir: None },
            runtime: RuntimeSection { dir: None, bin: None, worker_entry: None },
            browser: BrowserSection::default(),
            rpc: RpcSection::default(),
            logging: LoggingSection::default(),
        }
    }
}

/// Why the configuration could not be loaded, checked or saved.
#[derive(Debug, Clone, PartialEq, Eq)]
pub enum ConfigError {
    Paths(PathError),
    Io { path: String, message: String },
    Config(String),
    Validation(String),
    Serialize(String),
}

/// How a configuration error reads.
pub open spec fn config_message(e: ConfigError) -> Seq<char> {
    match e {
        ConfigError::Paths(p) => path_message(p),
        ConfigError::Io { path, message } => "failed to read or write `"@ + path@ + "`: "@ + message@,
        ConfigError::Config(m) => "configuration error: "@ + m@,
        ConfigError::Validation(m) => "invalid configuration: "@ + m@,
        ConfigError::Serialize(m) => "failed to serialize configuration: "@ + m@,
    }
}

impl ConfigError {
    /// The error as it is shown.
    pub fn message(&self) -> (r: String)
        ensures
            r@ == config_message(*self),
    {
        match self {
            ConfigError::Paths(p) => p.message(),
            ConfigError::Io { path, message } => {
                let mut text = joined("failed to read or write `", path.as_str());
                text.append("`: ");
                text.append(message.as_str());
                text
            },
            ConfigError::Config(m) => joined("configuration error: ", m.as_str()),
            ConfigError::Validation(m) => joined("invalid configuration: ", m.as_str()),
            ConfigError::Serialize(m) => joined("failed to serialize configuration: ", m.as_str()),
        }
    }
}

/// The message of the first rule that `c` breaks, in the order they are
/// checked, or `None` when `c` is valid.
pub open spec fn validation_message(c: AppConfig) -> Option<Seq<char>> {
    if !(c.app.locale@ == APP_LOCALE_ZH_CN@ || c.app.locale@ == APP_LOCALE_EN@) {
        Some("app.locale must be `zh-CN` or `en`"@)
    } else if c.rpc.request_timeout_ms == 0 || c.rpc.request_timeout_ms > MAX_REQUEST_TIMEOUT_MS {
        Some("rpc.request_timeout_ms must be between 1 and 600000"@)
    } else if c.rpc.shutdown_timeout_ms == 0 || c.rpc.shutdown_timeout_ms > MAX_REQUEST_TIMEOUT_MS {
        Some("rpc.shutdown_timeout_ms must be between 1 and 600000"@)
    } else if !(MIN_FRAME_BYTES <= c.rpc.max_frame_bytes <= MAX_FRAME_BYTES) {
        Some("rpc.max_frame_bytes must be between 1024 and 67108864"@)
    } else if is_blank(c.browser.smoke_url@) {
        Some("browser.smoke_url must not be empty"@)
    } else if is_blank(c.logging.level@) {
        Some("logging.level must not be empty"@)
    } else {
        None
    }
}

/// A configuration that every rule accepts.
pub open spec fn config_is_valid(c: AppConfig) -> bool {
    validation_message(c) is None
}

impl AppConfig {
    /// Checks, in this order: the locale is `zh-CN` or `en`; both timeouts are
    /// 1..=600000 ms; the frame limit is 1024..=67108864 bytes; the smoke URL
    /// and the log level are not blank. Reports the first rule broken.
    pub fn validate(&self) -> (r: Result<(), ConfigError>)
        ensures
            match validation_message(*self) {
                None => r is Ok,
                Some(m) => r matches Err(ConfigError::Validation(msg)) && msg@ == m,
            },
    {
        let locale = self.app.locale.as_str();
        if !(str_eq(locale, APP_LOCALE_ZH_CN) || str_eq(locale, APP_LOCALE_EN)) {
            return Err(ConfigError::Validation("app.locale must be `zh-CN` or `en`".to_string()));
        }
        if self.rpc.request_timeout_ms == 0 || self.rpc.request_timeout_ms > MAX_REQUEST_TIMEOUT_MS {
            return Err(
                ConfigError::Validation(
                    "rpc.request_timeout_ms must be between 1 and 600000".to_string(),
                ),
            );
        }
        if self.rpc.shutdown_timeout_ms == 0 || self.rpc.shutdown_timeout_ms
            > MAX_REQUEST_TIMEOUT_MS {
            return Err(
                ConfigError::Validation(
                    "rpc.shutdown_timeout_ms must be between 1 and 600000".to_string(),
                ),
            );
        }
        if !(MIN_FRAME_BYTES <= self.rpc.max_frame_bytes && self.rpc.max_frame_bytes
            <= MAX_FRAME_BYTES) {
            return Err(
                ConfigError::Validation(
                    "rpc.max_frame_bytes must be between 1024 and 67108864".to_string(),
                ),
            );
        }
        if text_is_blank(self.browser.smoke_url.as_str()) {
            return Err(ConfigError::Validation("browser.smoke_url must not be empty".to_string()));
        }
        if text_is_blank(self.logging.level.as_str()) {
            return Err(ConfigError::Validation("logging.level must not be empty".to_string()));
        }
        Ok(())
    }
}

/// Where a layer of the configuration came from.
#[derive(Debug, Clone, Copy, PartialEq, Eq)]
pub enum ConfigSourceKind {
    Defaults,
    UserFile,
    Environment,
}

#[derive(Debug, Clone, PartialEq, Eq)]
pub struct ConfigSource {
    pub kind: ConfigSourceKind,
    pub path: Option<String>,
}

/// A checked configuration, the paths it leads to, and its layers in the
/// order they were applied.
#[derive(Debug, Clone)]
pub struct LoadedConfig {
    pub value: AppConfig,
    pub paths: AppPaths,
    pub sources: Vec<ConfigSource>,
}

/// The paths that hold once `c` is in force: the configured data directory
/// (with everything under it) and runtime directory replace the defaults.
pub open spec fn effective_paths(c: AppConfig, p: AppPathsView) -> AppPathsView {
    let with_data = match c.storage.data_dir {
        Some(d) => normalized_paths(p.config_dir, p.config_file, d@, p.runtime_dir),
        None => p,
    };
    match c.runtime.dir {
        Some(r) => AppPathsView { runtime_dir: r@, ..with_data },
        None => with_data,
    }
}

/// Reads and writes the configuration file of one set of paths.
#[derive(Debug, Clone)]
pub struct ConfigStore {
    paths: AppPaths,
}

impl ConfigStore {
    pub fn new(paths: AppPaths) -> (r: Self)
        ensures
            r.spec_paths() == paths,
    {
        ConfigStore { paths }
    }

    pub closed spec fn spec_paths(&self) -> AppPaths {
        self.paths
    }

    pub fn paths(&self) -> (r: &AppPaths)
        ensures
            *r == self.spec_paths(),
    {
        &self.paths
    }

    /// Completes a load once the layers (defaults, user file, environment)
    /// have been merged into `value`: checks it, applies its directory
    /// settings to the paths, and records the layers.
    pub fn finish_load(&self, value: AppConfig) -> (r: Result<LoadedConfig, ConfigError>)
        ensures
            match validation_message(value) {
                Some(m) => r matches Err(ConfigError::Validation(msg)) && msg@ == m,
                None => r matches Ok(loaded) && {
                    &&& loaded.value == value
                    &&& loaded.paths@ == effective_paths(value, self.spec_paths()@)
                    &&& loaded.sources@.len() == 3
                    &&& loaded.sources@[0].kind == ConfigSourceKind::Defaults
                    &&& loaded.sources@[0].path is None
                    &&& loaded.sources@[1].kind == ConfigSourceKind::UserFile
                    &&& loaded.sources@[1].path matches Some(f) && f@
                        == self.spec_paths().config_file@
                    &&& loaded.sources@[2].kind == ConfigSourceKind::Environment
                    &&& loaded.sources@[2].path is None
                },
            },
    {
        value.validate()?;
        let mut paths = self.paths.duplicate();
        match &value.storage.data_dir {
            Some(data_dir) => paths.set_data_dir(data_dir.clone()),
            None => {},
        }
        match &value.runtime.dir {
            Some(runtime_dir) => paths.set_runtime_dir(runtime_dir.clone()),
            None => {},
        }
        let mut sources: Vec<ConfigSource> = Vec::new();
        sources.push(ConfigSource { kind: ConfigSourceKind::Defaults, path: None });
        sources.push(
            ConfigSource { kind: ConfigSourceKind::UserFile, path: Some(self.paths.config_file.clone()) },
        );
        sources.push(ConfigSource { kind: ConfigSourceKind::Environment, path: None });
        Ok(LoadedConfig { value, paths, sources })
    }
}

/// The default configuration passes validation.
pub proof fn default_config_is_valid(c: AppConfig)
    requires
        is_default_config(c),
    ensures
        config_is_valid(c),
{
    reveal_strlit("about:blank");
    reveal_strlit("info");
    assert(!crate::text::is_white_space(c.browser.smoke_url@[0]));
    assert(!crate::text::is_white_space(c.logging.level@[0]));
}

/// A load moves only the paths it hands back: they keep the store's
/// configuration file and directory, and a configuration that sets neither
/// a data nor a runtime directory leaves them exactly the store's. (The
/// store itself has no method that changes its paths.)
pub proof fn loads_keep_configuration_location(c: AppConfig, p: AppPathsView)
    ensures
        effective_paths(c, p).config_file == p.config_file,
        effective_paths(c, p).config_dir == p.config_dir,
        c.storage.data_dir is None && c.runtime.dir is None ==> effective_paths(c, p) == p,
{
}

/// A configured runtime directory becomes the effective one whatever else
/// is configured, and without one the store's stays; a configured data
/// directory becomes the effective one with the database, profiles and logs
/// under it, and without one the store's data paths stay.
pub proof fn configured_directories_take_effect(c: AppConfig, p: AppPathsView)
    ensures
        c.runtime.dir matches Some(r) ==> effective_paths(c, p).runtime_dir == r@,
        c.runtime.dir is None ==> effective_paths(c, p).runtime_dir == p.runtime_dir,
        c.storage.data_dir matches Some(d) ==> effective_paths(c, p).data_dir == d@ && is_normalized(
            effective_paths(c, p),
        ),
        c.storage.data_dir is None ==> {
            &&& effective_paths(c, p).data_dir == p.data_dir
            &&& effective_paths(c, p).database_file == p.database_file
            &&& effective_paths(c, p).browser_profiles_dir == p.browser_profiles_dir
            &&& effective_paths(c, p).logs_dir == p.logs_dir
        },
{
}

} // verus!
