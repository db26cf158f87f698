use beatbridge::display::{format_mode_icon, format_status_line, render_phase_bar};
use beatbridge::SyncMode;

/// The status display's conversion of a Link phase and quantum to whole beats.
fn phase_bar(phase: f64, quantum: f64) -> String {
    render_phase_bar(phase.floor() as usize, quantum as usize)
}

#[test]
fn phase_bar_first_beat() {
    assert_eq!(phase_bar(0.0, 4.0), "[█░░░]");
}

#[test]
fn phase_bar_third_beat() {
    assert_eq!(phase_bar(2.5, 4.0), "[░░█░]");
}

#[test]
fn phase_bar_last_beat() {
    assert_eq!(phase_bar(3.9, 4.0), "[░░░█]");
}

#[test]
fn phase_bar_zero_quantum() {
    assert_eq!(phase_bar(0.0, 0.0), "");
}

#[test]
fn phase_bar_second_beat() {
    assert_eq!(phase_bar(1.0, 4.0), "[░█░░]");
}

#[test]
fn phase_bar_single_beat_quantum() {
    assert_eq!(phase_bar(0.0, 1.0), "[█]");
}

#[test]
fn phase_bar_large_quantum() {
    let bar = phase_bar(5.0, 8.0);
    assert_eq!(bar, "[░░░░░█░░]");
    assert_eq!(bar.len(), "[░░░░░█░░]".len());
}

#[test]
fn phase_bar_phase_exceeds_quantum_clamps() {
    // phase >= quantum should clamp to last beat
    let bar = phase_bar(5.0, 4.0);
    assert_eq!(bar, "[░░░█]");
}

#[test]
fn phase_bar_negative_phase() {
    // Negative phase floors to 0 via usize conversion clamping
    let bar = phase_bar(-1.0, 4.0);
    assert_eq!(bar.len(), "[░░░░]".len());
}

#[test]
fn phase_bar_fractional_phase() {
    // 1.99 floors to 1
    assert_eq!(phase_bar(1.99, 4.0), "[░█░░]");
}

#[test]
fn phase_bar_integer_inputs() {
    assert_eq!(render_phase_bar(0, 0), "");
    assert_eq!(render_phase_bar(7, 0), "");
    assert_eq!(render_phase_bar(2, 3), "[░░█]");
    assert_eq!(render_phase_bar(usize::MAX, 2), "[░█]");
    assert_eq!(render_phase_bar(0, 6), "[█░░░░░]");
}

#[test]
fn mode_icons() {
    assert_eq!(format_mode_icon(SyncMode::Master), "CDJ→Link");
    assert_eq!(format_mode_icon(SyncMode::Slave), "Link→CDJ");
    assert_eq!(format_mode_icon(SyncMode::Bidirectional), "CDJ⇄Link");
}

#[test]
fn status_line_playing_with_master() {
    let line = format_status_line(true, "128.0", SyncMode::Master, Some(1), 2, "[█░░░]", "✓ synced");
    assert_eq!(
        line,
        "\r  ▶ 128.0 BPM │ CDJ→Link │ Master: P1 │ Link: 2 peers │ Phase: [█░░░] │ ✓ synced   "
    );
}

#[test]
fn status_line_single_peer_and_no_master() {
    let line = format_status_line(
        false,
        "120.0",
        SyncMode::Bidirectional,
        None,
        1,
        "[░░█░]",
        "⚠ drift 1.5",
    );
    assert_eq!(
        line,
        "\r  ⏸ 120.0 BPM │ CDJ⇄Link │ Master: --- │ Link: 1 peer │ Phase: [░░█░] │ ⚠ drift 1.5   "
    );
}

#[test]
fn status_line_no_peers() {
    let line = format_status_line(false, "0.0", SyncMode::Slave, Some(4), 0, "", "✓ synced");
    assert_eq!(
        line,
        "\r  ⏸ 0.0 BPM │ Link→CDJ │ Master: P4 │ Link: 0 peers │ Phase:  │ ✓ synced   "
    );
}
