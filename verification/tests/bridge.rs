use std::time::{Duration, Instant};

use beatbridge::bridge::{echo_guard_active, is_echo_guarded, map_beat_to_phase, ECHO_GUARD_MS};
use beatbridge::display::format_master_device;
use beatbridge::SyncMode;

#[test]
fn sync_mode_variants_distinct() {
    let master = SyncMode::Master;
    let slave = SyncMode::Slave;
    let bidir = SyncMode::Bidirectional;

    assert_ne!(master, slave);
    assert_ne!(master, bidir);
    assert_ne!(slave, bidir);
    assert_eq!(master, SyncMode::Master);
}

#[test]
fn map_beat_to_phase_valid_beats() {
    assert_eq!(map_beat_to_phase(1).map(f64::from), Some(0.0));
    assert_eq!(map_beat_to_phase(2).map(f64::from), Some(1.0));
    assert_eq!(map_beat_to_phase(3).map(f64::from), Some(2.0));
    assert_eq!(map_beat_to_phase(4).map(f64::from), Some(3.0));
}

#[test]
fn map_beat_to_phase_zero_is_invalid() {
    assert_eq!(map_beat_to_phase(0), None);
}

#[test]
fn map_beat_to_phase_above_four_is_invalid() {
    assert_eq!(map_beat_to_phase(5), None);
    assert_eq!(map_beat_to_phase(255), None);
}

#[test]
fn echo_guard_active_when_recent() {
    let now = Instant::now();
    // Just created — elapsed is ~0ms, guard at 100ms should be active
    assert!(is_echo_guarded(now, 100));
}

#[test]
fn echo_guard_inactive_when_old() {
    let old = Instant::now() - Duration::from_secs(1);
    assert!(!is_echo_guarded(old, 100));
}

#[test]
fn echo_guard_zero_ms_never_guards() {
    let now = Instant::now();
    // 0ms guard means nothing is ever guarded (elapsed >= 0)
    assert!(!is_echo_guarded(now, 0));
}

#[test]
fn echo_guard_boundary_is_exclusive() {
    assert!(echo_guard_active(99, ECHO_GUARD_MS));
    assert!(!echo_guard_active(100, ECHO_GUARD_MS));
    assert!(!echo_guard_active(250, ECHO_GUARD_MS));
    assert!(!echo_guard_active(0, 0));
}

#[test]
fn echo_guard_uses_the_elapsed_time() {
    // The guard is measured from the write, so a guard longer than the age of the write holds.
    let earlier = Instant::now() - Duration::from_millis(300);
    assert!(is_echo_guarded(earlier, 60_000));
    assert!(!is_echo_guarded(earlier, 200));
}

#[test]
fn format_master_device_some() {
    assert_eq!(format_master_device(Some(1)), "P1");
    assert_eq!(format_master_device(Some(3)), "P3");
}

#[test]
fn format_master_device_none() {
    assert_eq!(format_master_device(None), "---");
}

#[test]
fn format_master_device_multi_digit() {
    assert_eq!(format_master_device(Some(0)), "P0");
    assert_eq!(format_master_device(Some(10)), "P10");
    assert_eq!(format_master_device(Some(33)), "P33");
    assert_eq!(format_master_device(Some(255)), "P255");
}

#[test]
fn sync_mode_display() {
    assert_eq!(SyncMode::Master.to_string(), "master");
    assert_eq!(SyncMode::Slave.to_string(), "slave");
    assert_eq!(SyncMode::Bidirectional.to_string(), "bidirectional");
}

#[test]
fn sync_mode_default_is_master() {
    let mode = SyncMode::default();
    assert_eq!(mode, SyncMode::Master);
}

#[test]
fn sync_mode_directions() {
    assert!(SyncMode::Master.follows_cdjs());
    assert!(!SyncMode::Master.drives_cdjs());
    assert!(!SyncMode::Slave.follows_cdjs());
    assert!(SyncMode::Slave.drives_cdjs());
    assert!(SyncMode::Bidirectional.follows_cdjs());
    assert!(SyncMode::Bidirectional.drives_cdjs());
}
