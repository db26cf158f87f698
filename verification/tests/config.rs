use beatbridge::config::{layer, merge_settings, prefer_given, Settings, SettingsFile, SettingsFlags};
use beatbridge::SyncMode;

fn flags(name: &str, number: u8, mode: SyncMode, level: &str, interval: u64) -> SettingsFlags {
    SettingsFlags {
        device_name: Some(name.to_string()),
        device_number: Some(number),
        sync_mode: Some(mode),
        log_level: Some(level.to_string()),
        status_interval_ms: Some(interval),
    }
}

fn full_file() -> SettingsFile {
    SettingsFile {
        device_name: Some("mybridge".to_string()),
        device_number: Some(3),
        sync_mode: Some(SyncMode::Slave),
        log_level: Some("debug".to_string()),
        status_interval_ms: Some(250),
    }
}

#[test]
fn defaults_match_the_documented_cli_defaults() {
    let d = Settings::defaults();
    assert_eq!(d.device_name, "beatbridge");
    assert_eq!(d.device_number, 5);
    assert_eq!(d.sync_mode, SyncMode::Master);
    assert_eq!(d.log_level, "info");
    assert_eq!(d.status_interval_ms, 500);
}

#[test]
fn empty_file_and_no_flags_set_nothing() {
    let f = SettingsFile::empty();
    assert!(f.device_name.is_none());
    assert!(f.device_number.is_none());
    assert!(f.sync_mode.is_none());
    assert!(f.log_level.is_none());
    assert!(f.status_interval_ms.is_none());
    let g = SettingsFlags::none();
    assert!(g.device_name.is_none());
    assert!(g.device_number.is_none());
    assert!(g.sync_mode.is_none());
    assert!(g.log_level.is_none());
    assert!(g.status_interval_ms.is_none());
}

#[test]
fn file_fills_in_flags_not_given() {
    let merged = merge_settings(SettingsFlags::none(), full_file());
    assert_eq!(merged.device_name, "mybridge");
    assert_eq!(merged.device_number, 3);
    assert_eq!(merged.sync_mode, SyncMode::Slave);
    assert_eq!(merged.log_level, "debug");
    assert_eq!(merged.status_interval_ms, 250);
}

#[test]
fn given_flags_override_the_file() {
    let merged = merge_settings(
        flags("stage-left", 2, SyncMode::Bidirectional, "trace", 1000),
        full_file(),
    );
    assert_eq!(merged.device_name, "stage-left");
    assert_eq!(merged.device_number, 2);
    assert_eq!(merged.sync_mode, SyncMode::Bidirectional);
    assert_eq!(merged.log_level, "trace");
    assert_eq!(merged.status_interval_ms, 1000);
}

#[test]
fn flags_given_with_default_values_still_override_the_file() {
    let merged = merge_settings(flags("beatbridge", 5, SyncMode::Master, "info", 500), full_file());
    assert_eq!(merged.device_name, "beatbridge");
    assert_eq!(merged.device_number, 5);
    assert_eq!(merged.sync_mode, SyncMode::Master);
    assert_eq!(merged.log_level, "info");
    assert_eq!(merged.status_interval_ms, 500);
}

#[test]
fn neither_flag_nor_file_gives_the_defaults() {
    let merged = merge_settings(SettingsFlags::none(), SettingsFile::empty());
    assert_eq!(merged.device_name, "beatbridge");
    assert_eq!(merged.device_number, 5);
    assert_eq!(merged.sync_mode, SyncMode::Master);
    assert_eq!(merged.log_level, "info");
    assert_eq!(merged.status_interval_ms, 500);
}

#[test]
fn partial_file_only_sets_its_values() {
    let file = SettingsFile {
        device_name: Some("partial".to_string()),
        device_number: None,
        sync_mode: None,
        log_level: None,
        status_interval_ms: None,
    };
    let mut given = SettingsFlags::none();
    given.device_number = Some(6);
    let merged = merge_settings(given, file);
    assert_eq!(merged.device_name, "partial");
    assert_eq!(merged.device_number, 6);
    assert_eq!(merged.sync_mode, SyncMode::Master);
    assert_eq!(merged.log_level, "info");
}

#[test]
fn layer_on_floating_point_settings() {
    // Quantum and initial tempo are layered the same way.
    assert_eq!(layer(None, Some(8.0), 4.0), 8.0);
    assert_eq!(layer(None, None, 4.0), 4.0);
    assert_eq!(layer(Some(4.0), Some(8.0), 4.0), 4.0);
    assert_eq!(layer(Some(140.0), Some(100.0), 120.0), 140.0);
}

#[test]
fn prefer_given_for_settings_without_default() {
    assert_eq!(prefer_given(Some(1), Some(2)), Some(1));
    assert_eq!(prefer_given(None, Some(2)), Some(2));
    assert_eq!(prefer_given(Some(1), None), Some(1));
    assert_eq!(prefer_given::<u8>(None, None), None);
}
