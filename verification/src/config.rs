use vstd::prelude::*;

use crate::sync_mode::SyncMode;

verus! {

/// The default virtual CDJ device number.
pub const DEFAULT_DEVICE_NUMBER: u8 = 5;

/// The default status display refresh interval, in milliseconds.
pub const DEFAULT_STATUS_INTERVAL_MS: u64 = 500;

/// The default virtual CDJ device name.
pub open spec fn default_device_name() -> Seq<char> {
    "beatbridge"@
}

/// The default log level.
pub open spec fn default_log_level() -> Seq<char> {
    "info"@
}

/// The value that the command line gives, else the value that the configuration file
/// gives, else nothing.
pub open spec fn preferred<T>(given: Option<T>, file: Option<T>) -> Option<T> {
    if given is Some {
        given
    } else {
        file
    }
}

/// A setting resolved from its layers: a flag given on the command line wins, whatever
/// the file says; without the flag the file's value is taken; without either, the default.
pub open spec fn layered<T>(given: Option<T>, file: Option<T>, default: T) -> T {
    match preferred(given, file) {
        Some(v) => v,
        None => default,
    }
}

/// Command-line flags override configuration file values: a flag that was given is kept
/// whatever the file says, even when it repeats the default; the file's value counts only
/// for a flag that was not given, and the default only where neither sets the value.
pub proof fn lemma_cli_overrides_file<T>(given: Option<T>, file: Option<T>, default: T)
    ensures
        given is Some ==> layered(given, file, default) == given->0,
        given is None && file is Some ==> layered(given, file, default) == file->0,
        given is None && file is None ==> layered(given, file, default) == default,
{
}

/// The text of an optional string.
pub open spec fn text_of(value: Option<String>) -> Option<Seq<char>> {
    match value {
        Some(s) => Some(s@),
        None => None,
    }
}

/// Picks the command-line value of a setting if the flag was given, else the
/// configuration file's value, if any.
pub fn prefer_given<T>(given: Option<T>, file: Option<T>) -> (value: Option<T>)
    ensures
        value == preferred(given, file),
{
    match given {
        Some(v) => Some(v),
        None => file,
    }
}

/// Resolves one setting: the command-line value if the flag was given, else the
/// configuration file's value, else `default`.
pub fn layer<T>(given: Option<T>, file: Option<T>, default: T) -> (value: T)
    ensures
        value == layered(given, file, default),
{
    match prefer_given(given, file) {
        Some(v) => v,
        None => default,
    }
}

/// The settings of the bridge that the command line and the configuration file both give.
pub struct Settings {
    pub device_name: String,
    pub device_number: u8,
    pub sync_mode: SyncMode,
    pub log_level: String,
    pub status_interval_ms: u64,
}

/// The same settings as given on the command line: a setting is `Some` exactly when its
/// flag was given.
pub struct SettingsFlags {
    pub device_name: Option<String>,
    pub device_number: Option<u8>,
    pub sync_mode: Option<SyncMode>,
    pub log_level: Option<String>,
    pub status_interval_ms: Option<u64>,
}

/// The same settings as read from a configuration file, where each may be absent.
pub struct SettingsFile {
    pub device_name: Option<String>,
    pub device_number: Option<u8>,
    pub sync_mode: Option<SyncMode>,
    pub log_level: Option<String>,
    pub status_interval_ms: Option<u64>,
}

impl Settings {
    /// The command-line defaults.
    pub fn defaults() -> (settings: Settings)
        ensures
            settings.device_name@ == default_device_name(),
            settings.device_number == DEFAULT_DEVICE_NUMBER,
            settings.sync_mode == SyncMode::Master,
            settings.log_level@ == default_log_level(),
            settings.status_interval_ms == DEFAULT_STATUS_INTERVAL_MS,
    {
        Settings {
            device_name: String::from_str("beatbridge"),
            device_number: DEFAULT_DEVICE_NUMBER,
            sync_mode: SyncMode::Master,
            log_level: String::from_str("info"),
            status_interval_ms: DEFAULT_STATUS_INTERVAL_MS,
        }
    }
}

impl SettingsFlags {
    /// A command line that gives none of the flags.
    pub fn none() -> (flags: SettingsFlags)
        ensures
            flags.device_name is None,
            flags.device_number is None,
            flags.sync_mode is None,
            flags.log_level is None,
            flags.status_interval_ms is None,
    {
        SettingsFlags {
            device_name: None,
            device_number: None,
            sync_mode: None,
            log_level: None,
            status_interval_ms: None,
        }
    }
}

impl SettingsFile {
    /// A configuration file that sets nothing.
    pub fn empty() -> (file: SettingsFile)
        ensures
            file.device_name is None,
            file.device_number is None,
            file.sync_mode is None,
            file.log_level is None,
            file.status_interval_ms is None,
    {
        SettingsFile {
            device_name: None,
            device_number: None,
            sync_mode: None,
            log_level: None,
            status_interval_ms: None,
        }
    }
}

/// Resolves the settings: each flag given on the command line wins over the configuration
/// file; a flag not given takes the file's value, and a setting that neither sets takes
/// its default.
pub fn merge_settings(flags: SettingsFlags, file: SettingsFile) -> (merged: Settings)
    ensures
        merged.device_name@ == layered(
            text_of(flags.device_name),
            text_of(file.device_name),
            default_device_name(),
        ),
        merged.device_number == layered(
            flags.device_number,
            file.device_number,
            DEFAULT_DEVICE_NUMBER,
        ),
        merged.sync_mode == layered(flags.sync_mode, file.sync_mode, SyncMode::Master),
        merged.log_level@ == layered(
            text_of(flags.log_level),
            text_of(file.log_level),
            default_log_level(),
        ),
        merged.status_interval_ms == layered(
            flags.status_interval_ms,
            file.status_interval_ms,
            DEFAULT_STATUS_INTERVAL_MS,
        ),
{
    let defaults = Settings::defaults();
    let device_name = layer(flags.device_name, file.device_name, defaults.device_name);
    let log_level = layer(flags.log_level, file.log_level, defaults.log_level);
    Settings {
        device_name,
        device_number: layer(flags.device_number, file.device_number, defaults.device_number),
        sync_mode: layer(flags.sync_mode, file.sync_mode, defaults.sync_mode),
        log_level,
        status_interval_ms: layer(
            flags.status_interval_ms,
            file.status_interval_ms,
            defaults.status_interval_ms,
        ),
    }
}

} // verus!
