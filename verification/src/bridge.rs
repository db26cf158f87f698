use vstd::prelude::*;

use std::time::Duration;
use std::time::Instant;

use crate::sync_mode::SyncMode;

verus! {

/// Cooldown after one side's write during which changes from the other side are not
/// accepted (echo-loop suppression in bidirectional mode).
pub const ECHO_GUARD_MS: u128 = 100;

/// The number of mixer channels that receive fader start and stop commands.
pub const FADER_CHANNELS: u8 = 4;

/// A point in time of the standard library's monotonic clock.
#[verifier::external_type_specification]
#[verifier::external_body]
pub struct ExInstant(Instant);

/// Calls `Instant::elapsed`: the time that has passed since `instant`, read from the
/// machine's clock. Nothing is claimed of the value, which depends on the clock.
#[verifier::external_body]
fn elapsed_since(instant: &Instant) -> Duration {
    instant.elapsed()
}

/// Calls `Duration::as_millis`: the whole milliseconds of a duration. The duration is
/// opaque here, so nothing is claimed of the value.
#[verifier::external_body]
fn whole_millis(duration: &Duration) -> u128 {
    duration.as_millis()
}

/// Whether a guard of `guard_ms` milliseconds is still active `elapsed_ms` milliseconds
/// after the write that started it.
pub open spec fn guard_active(elapsed_ms: int, guard_ms: int) -> bool {
    elapsed_ms < guard_ms
}

/// Decides the echo guard from the milliseconds elapsed since the last write: the guard
/// holds while fewer than `guard_ms` milliseconds have passed.
pub fn echo_guard_active(elapsed_ms: u128, guard_ms: u128) -> (active: bool)
    ensures
        active == guard_active(elapsed_ms as int, guard_ms as int),
        active <==> elapsed_ms < guard_ms,
{
    elapsed_ms < guard_ms
}

/// A guard holds exactly while fewer than its milliseconds have passed: it is active from
/// the write until the guard time has elapsed, and over from then on, for good.
pub proof fn lemma_guard_ends(elapsed_ms: int, later_ms: int, guard_ms: int)
    requires
        0 <= elapsed_ms <= later_ms,
    ensures
        elapsed_ms >= guard_ms ==> !guard_active(elapsed_ms, guard_ms),
        elapsed_ms < guard_ms ==> guard_active(elapsed_ms, guard_ms),
        !guard_active(elapsed_ms, guard_ms) ==> !guard_active(later_ms, guard_ms),
        guard_active(0, guard_ms) <==> guard_ms > 0,
{
}

/// Determines if the echo guard started by the write at `last_write` is still active.
/// The elapsed time is read from the clock; whatever it reads, a zero guard is never active.
pub fn is_echo_guarded(last_write: Instant, guard_ms: u128) -> (guarded: bool)
    ensures
        guard_ms == 0 ==> !guarded,
{
    let elapsed = elapsed_since(&last_write);
    let elapsed_ms = whole_millis(&elapsed);
    echo_guard_active(elapsed_ms, guard_ms)
}

/// The 0-based Link beat for a CDJ `beat_within_bar` (1-based, 1 to 4), or `None` for a
/// value outside the bar.
pub open spec fn beat_phase(beat_within_bar: u8) -> Option<u8> {
    if 1 <= beat_within_bar <= 4 {
        Some((beat_within_bar - 1) as u8)
    } else {
        None
    }
}

/// A beat inside the 4-beat bar maps to the Link beat one lower, so that the first beat of
/// the bar is Link beat 0; any other value maps to nothing. Distinct bar positions map to
/// distinct Link beats.
pub proof fn lemma_beat_phase_in_bar(beat_within_bar: u8, other: u8)
    ensures
        beat_phase(beat_within_bar) is Some <==> 1 <= beat_within_bar <= 4,
        beat_phase(beat_within_bar) matches Some(k) ==> k + 1 == beat_within_bar && k < 4,
        beat_phase(beat_within_bar) is Some && beat_phase(other) is Some && beat_within_bar
            != other ==> beat_phase(beat_within_bar) != beat_phase(other),
{
}

/// Maps a CDJ `beat_within_bar` (1-based, 1 to 4) to the 0-based Link beat position.
/// Returns `None` for invalid values (0 or more than 4).
pub fn map_beat_to_phase(beat_within_bar: u8) -> (beat: Option<u8>)
    ensures
        beat == beat_phase(beat_within_bar),
{
    if beat_within_bar == 0 || beat_within_bar > 4 {
        None
    } else {
        Some(beat_within_bar - 1)
    }
}

} // verus!
