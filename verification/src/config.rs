//! Application configuration: log levels, the persisted settings and the
//! manager that owns the current settings.

use vstd::prelude::*;
use crate::text::{ascii_lower, ascii_lowercase, str_eq};
use crate::paths::{path_join, spec_path_join};
use crate::remote::clone_opt_string;

verus! {

/// Verbosity of the application log.
#[derive(Debug, Clone, Copy, PartialEq, Eq, Structural)]
pub enum LogLevel {
    Trace,
    Debug,
    Info,
    Warn,
    Error,
}

/// The lowercase name of a level.
pub open spec fn level_name(level: LogLevel) -> Seq<char> {
    match level {
        LogLevel::Trace => "trace"@,
        LogLevel::Debug => "debug"@,
        LogLevel::Info => "info"@,
        LogLevel::Warn => "warn"@,
        LogLevel::Error => "error"@,
    }
}

/// The level named by an already-lowercased string; unknown names mean `Info`.
pub open spec fn level_from_lowercase(s: Seq<char>) -> LogLevel {
    if s == "trace"@ {
        LogLevel::Trace
    } else if s == "debug"@ {
        LogLevel::Debug
    } else if s == "info"@ {
        LogLevel::Info
    } else if s == "warn"@ {
        LogLevel::Warn
    } else if s == "error"@ {
        LogLevel::Error
    } else {
        LogLevel::Info
    }
}

impl LogLevel {
    /// The lowercase name of this level.
    pub fn as_str(&self) -> (r: &'static str)
        ensures
            r@ == level_name(*self),
    {
        match self {
            LogLevel::Trace => "trace",
            LogLevel::Debug => "debug",
            LogLevel::Info => "info",
            LogLevel::Warn => "warn",
            LogLevel::Error => "error",
        }
    }

    /// Parses a level name case-insensitively; anything unknown is `Info`.
    pub fn from_str(s: &str) -> (r: LogLevel)
        ensures
            r == level_from_lowercase(ascii_lower(s@)),
    {
        let lowered = ascii_lowercase(s);
        let l = lowered.as_str();
        if str_eq(l, "trace") {
            LogLevel::Trace
        } else if str_eq(l, "debug") {
            LogLevel::Debug
        } else if str_eq(l, "info") {
            LogLevel::Info
        } else if str_eq(l, "warn") {
            LogLevel::Warn
        } else if str_eq(l, "error") {
            LogLevel::Error
        } else {
            LogLevel::Info
        }
    }
}

impl Default for LogLevel {
    fn default() -> (r: LogLevel)
        ensures
            r == LogLevel::Info,
    {
        LogLevel::Info
    }
}


/// Parsing the name of a level gives the level back.
pub proof fn lemma_level_name_roundtrip(level: LogLevel)
    ensures
        level_from_lowercase(ascii_lower(level_name(level))) == level,
{
    reveal_strlit("trace");
    reveal_strlit("debug");
    reveal_strlit("info");
    reveal_strlit("warn");
    reveal_strlit("error");
    let name = level_name(level);
    assert(ascii_lower(name) =~= name);
    match level {
        LogLevel::Trace => {},
        LogLevel::Debug => {
            assert(name[0] != "trace"@[0]);
        },
        LogLevel::Info => {
            assert(name != "trace"@);
            assert(name != "debug"@);
        },
        LogLevel::Warn => {
            assert(name != "trace"@);
            assert(name != "debug"@);
            assert(name[0] != "info"@[0]);
        },
        LogLevel::Error => {
            assert(name[0] != "trace"@[0]);
            assert(name != "debug"@);
            assert(name != "info"@);
            assert(name != "warn"@);
        },
    }
}

/// The persisted application settings.
#[derive(Debug, Clone)]
pub struct AppConfig {
    pub auto_start: bool,
    pub notify_credential_expired: bool,
    pub notify_file_conflict: bool,
    pub fast_popup_launch: bool,
    pub log_to_file: bool,
    pub log_level: LogLevel,
    pub log_max_files: usize,
    pub language: Option<String>,
}

/// The settings used when nothing was saved yet.
pub open spec fn default_config() -> AppConfig {
    AppConfig {
        auto_start: true,
        notify_credential_expired: true,
        notify_file_conflict: true,
        fast_popup_launch: true,
        log_to_file: true,
        log_level: LogLevel::Debug,
        log_max_files: 5,
        language: None,
    }
}

impl Default for AppConfig {
    fn default() -> (r: AppConfig)
        ensures
            r == default_config(),
    {
        AppConfig {
            auto_start: true,
            notify_credential_expired: true,
            notify_file_conflict: true,
            fast_popup_launch: true,
            log_to_file: true,
            log_level: LogLevel::Debug,
            log_max_files: 5,
            language: None,
        }
    }
}

impl AppConfig {
    /// A field-by-field copy.
    pub fn duplicate(&self) -> (r: AppConfig)
        ensures
            r == *self,
    {
        AppConfig {
            auto_start: self.auto_start,
            notify_credential_expired: self.notify_credential_expired,
            notify_file_conflict: self.notify_file_conflict,
            fast_popup_launch: self.fast_popup_launch,
            log_to_file: self.log_to_file,
            log_level: self.log_level,
            log_max_files: self.log_max_files,
            language: clone_opt_string(&self.language),
        }
    }
}

/// `home/.cloudreve/config.json`: where the settings are kept.
pub open spec fn config_path_spec(home: Seq<char>) -> Seq<char> {
    spec_path_join(spec_path_join(home, ".cloudreve"@), "config.json"@)
}

/// `home/.cloudreve/logs`, with `.` standing for an unknown home directory.
pub open spec fn log_dir_spec(home: Option<Seq<char>>) -> Seq<char> {
    let base = match home {
        Some(h) => h,
        None => "."@,
    };
    spec_path_join(spec_path_join(base, ".cloudreve"@), "logs"@)
}

/// Owns the current settings and the file they are saved to. Every change
/// goes through [`ConfigManager::update`] or a setter; saving the result is
/// the caller's I/O.
#[derive(Debug)]
pub struct ConfigManager {
    config: AppConfig,
    config_path: String,
}

impl ConfigManager {
    /// The settings held now.
    pub closed spec fn current(&self) -> AppConfig {
        self.config
    }

    /// The file the settings are saved to.
    pub closed spec fn path(&self) -> Seq<char> {
        self.config_path@
    }

    /// The settings file below a home directory.
    pub fn get_config_path(home: &str) -> (r: String)
        ensures
            r@ == config_path_spec(home@),
    {
        let dir = path_join(home, ".cloudreve");
        path_join(dir.as_str(), "config.json")
    }

    /// The log directory below a home directory (or below `.` when the
    /// home directory is unknown).
    pub fn get_log_dir(home: Option<&str>) -> (r: String)
        ensures
            r@ == log_dir_spec(
                match home {
                    Some(h) => Some(h@),
                    None => None,
                },
            ),
    {
        let base = match home {
            Some(h) => h,
            None => ".",
        };
        let dir = path_join(base, ".cloudreve");
        path_join(dir.as_str(), "logs")
    }

    /// A manager for the settings file at `config_path`, holding what was
    /// loaded from it, or the defaults when there was no file.
    pub fn init(config_path: String, loaded: Option<AppConfig>) -> (r: ConfigManager)
        ensures
            r.path() == config_path@,
            r.current() == match loaded {
                Some(c) => c,
                None => default_config(),
            },
    {
        let config = match loaded {
            Some(c) => c,
            None => AppConfig::default(),
        };
        ConfigManager { config, config_path }
    }

    /// The file the settings are saved to.
    pub fn config_path(&self) -> (r: &str)
        ensures
            r@ == self.path(),
    {
        self.config_path.as_str()
    }

    /// A copy of the current settings.
    pub fn get_config(&self) -> (r: AppConfig)
        ensures
            r == self.current(),
    {
        self.config.duplicate()
    }

    /// Replaces the settings by what `f` makes of them.
    pub fn update<F: FnOnce(AppConfig) -> AppConfig>(&mut self, f: F)
        requires
            f.requires((old(self).current(),)),
        ensures
            f.ensures((old(self).current(),), final(self).current()),
            final(self).path() == old(self).path(),
    {
        let cur = self.config.duplicate();
        self.config = f(cur);
    }

    pub fn auto_start(&self) -> (r: bool)
        ensures
            r == self.current().auto_start,
    {
        self.config.auto_start
    }

    pub fn set_auto_start(&mut self, enabled: bool)
        ensures
            final(self).current() == (AppConfig { auto_start: enabled, ..old(self).current() }),
            final(self).path() == old(self).path(),
    {
        self.config.auto_start = enabled;
    }

    pub fn notify_credential_expired(&self) -> (r: bool)
        ensures
            r == self.current().notify_credential_expired,
    {
        self.config.notify_credential_expired
    }

    pub fn set_notify_credential_expired(&mut self, enabled: bool)
        ensures
            final(self).current() == (AppConfig {
                notify_credential_expired: enabled,
                ..old(self).current()
            }),
            final(self).path() == old(self).path(),
    {
        self.config.notify_credential_expired = enabled;
    }

    pub fn notify_file_conflict(&self) -> (r: bool)
        ensures
            r == self.current().notify_file_conflict,
    {
        self.config.notify_file_conflict
    }

    pub fn set_notify_file_conflict(&mut self, enabled: bool)
        ensures
            final(self).current() == (AppConfig { notify_file_conflict: enabled, ..old(self).current() }),
            final(self).path() == old(self).path(),
    {
        self.config.notify_file_conflict = enabled;
    }

    pub fn fast_popup_launch(&self) -> (r: bool)
        ensures
            r == self.current().fast_popup_launch,
    {
        self.config.fast_popup_launch
    }

    pub fn set_fast_popup_launch(&mut self, enabled: bool)
        ensures
            final(self).current() == (AppConfig { fast_popup_launch: enabled, ..old(self).current() }),
            final(self).path() == old(self).path(),
    {
        self.config.fast_popup_launch = enabled;
    }

    pub fn log_to_file(&self) -> (r: bool)
        ensures
            r == self.current().log_to_file,
    {
        self.config.log_to_file
    }

    pub fn set_log_to_file(&mut self, enabled: bool)
        ensures
            final(self).current() == (AppConfig { log_to_file: enabled, ..old(self).current() }),
            final(self).path() == old(self).path(),
    {
        self.config.log_to_file = enabled;
    }

    pub fn log_level(&self) -> (r: LogLevel)
        ensures
            r == self.current().log_level,
    {
        self.config.log_level
    }

    pub fn set_log_level(&mut self, level: LogLevel)
        ensures
            final(self).current() == (AppConfig { log_level: level, ..old(self).current() }),
            final(self).path() == old(self).path(),
    {
        self.config.log_level = level;
    }

    pub fn log_max_files(&self) -> (r: usize)
        ensures
            r == self.current().log_max_files,
    {
        self.config.log_max_files
    }

    pub fn set_log_max_files(&mut self, max_files: usize)
        ensures
            final(self).current() == (AppConfig { log_max_files: max_files, ..old(self).current() }),
            final(self).path() == old(self).path(),
    {
        self.config.log_max_files = max_files;
    }

    pub fn language(&self) -> (r: Option<String>)
        ensures
            r == self.current().language,
    {
        clone_opt_string(&self.config.language)
    }

    pub fn set_language(&mut self, language: Option<String>)
        ensures
            final(self).current() == (AppConfig { language: language, ..old(self).current() }),
            final(self).path() == old(self).path(),
    {
        self.config.language = language;
    }
}

/// The process-wide settings manager, set once.
#[derive(Debug)]
pub struct ConfigSlot {
    manager: Option<ConfigManager>,
}

impl ConfigSlot {
    /// The manager held, if one was installed.
    pub closed spec fn held(&self) -> Option<ConfigManager> {
        self.manager
    }

    pub fn new() -> (r: Self)
        ensures
            r.held() is None,
    {
        ConfigSlot { manager: None }
    }

    /// Installs `manager` unless one is installed already (then the first
    /// one stays), and returns the installed one.
    pub fn get_or_init(&mut self, manager: ConfigManager) -> (r: &ConfigManager)
        ensures
            final(self).held() == (match old(self).held() {
                Some(m) => Some(m),
                None => Some(manager),
            }),
            Some(*r) == final(self).held(),
    {
        if self.manager.is_none() {
            self.manager = Some(manager);
        }
        match &self.manager {
            Some(m) => m,
            None => vstd::pervasive::unreached(),
        }
    }
}

impl ConfigSlot {
    /// Replaces the installed manager's settings by what `f` makes of them;
    /// `false` (and nothing changes) when no manager is installed.
    pub fn update<F: FnOnce(AppConfig) -> AppConfig>(&mut self, f: F) -> (r: bool)
        requires
            old(self).held() is Some ==> f.requires((old(self).held()->0.current(),)),
        ensures
            r == old(self).held() is Some,
            old(self).held() is None ==> final(self).held() is None,
            old(self).held() is Some ==> final(self).held() is Some && final(self).held()->0.path() == old(
                self,
            ).held()->0.path() && f.ensures((old(self).held()->0.current(),), final(self).held()->0.current()),
    {
        match self.manager.take() {
            Some(mut m) => {
                m.update(f);
                self.manager = Some(m);
                true
            },
            None => false,
        }
    }
}

impl ConfigManager {
    /// The installed manager; it must have been installed.
    pub fn get(slot: &ConfigSlot) -> (r: &ConfigManager)
        requires
            slot.held() is Some,
        ensures
            Some(*r) == slot.held(),
    {
        match &slot.manager {
            Some(m) => m,
            None => vstd::pervasive::unreached(),
        }
    }

    /// The installed manager, if any.
    pub fn try_get(slot: &ConfigSlot) -> (r: Option<&ConfigManager>)
        ensures
            match r {
                Some(m) => slot.held() == Some(*m),
                None => slot.held() is None,
            },
    {
        match &slot.manager {
            Some(m) => Some(m),
            None => None,
        }
    }
}

} // verus!
