//! Properties of the bridge's decisions that hold for every state and event.
use vstd::prelude::*;

use crate::bridge::{beat_phase, ECHO_GUARD_MS};
use crate::engine::{guarded, BridgeAction, BridgeCore, BridgeEvent, NANOS_PER_MILLI};
use crate::sync_mode::{relays_to_cdjs, relays_to_link, SyncMode};

verus! {

/// Whether an action writes to the Pro DJ Link side (the CDJs).
pub open spec fn writes_cdjs(action: BridgeAction) -> bool {
    match action {
        BridgeAction::SendTempoToCdjs | BridgeAction::SetCdjsPlaying(_)
        | BridgeAction::FaderStart { .. } => true,
        _ => false,
    }
}

/// Whether an action writes to the Link session.
pub open spec fn writes_link(action: BridgeAction) -> bool {
    match action {
        BridgeAction::PushTempoToLink | BridgeAction::AlignLinkPhase(_)
        | BridgeAction::SetLinkPlaying(_) => true,
        _ => false,
    }
}

/// The sync mode and the phase-sync setting never change.
pub proof fn lemma_settings_kept(core: BridgeCore, event: BridgeEvent)
    ensures
        core.next(event).0.mode == core.mode,
        core.next(event).0.phase_sync == core.phase_sync,
{
}

/// A mode that does not relay to the CDJs (master mode, CDJ to Link) never writes to them.
pub proof fn lemma_master_mode_never_writes_cdjs(core: BridgeCore, event: BridgeEvent)
    requires
        !relays_to_cdjs(core.mode),
    ensures
        forall|i: int|
            0 <= i < core.next(event).1.len() ==> !writes_cdjs(#[trigger] core.next(event).1[i]),
{
    let actions = core.next(event).1;
    assert forall|i: int| 0 <= i < actions.len() implies !writes_cdjs(#[trigger] actions[i]) by {
        match event {
            BridgeEvent::Beat { device, master_device, from_mixer, beat_within_bar, .. } => {
                if master_device == Some(device) {
                    if i >= 1 && i < actions.len() - 1 {
                        assert(actions[i] == crate::engine::phase_actions(
                            core.phase_sync,
                            from_mixer,
                            beat_within_bar,
                        )[i - 1]);
                    }
                }
            },
            _ => {},
        }
    }
}

/// A mode that does not relay to Link (slave mode, Link to CDJ) never writes to Link.
pub proof fn lemma_slave_mode_never_writes_link(core: BridgeCore, event: BridgeEvent)
    requires
        !relays_to_link(core.mode),
    ensures
        forall|i: int|
            0 <= i < core.next(event).1.len() ==> !writes_link(#[trigger] core.next(event).1[i]),
{
    let actions = core.next(event).1;
    assert forall|i: int| 0 <= i < actions.len() implies !writes_link(#[trigger] actions[i]) by {
        match event {
            BridgeEvent::LinkTick { tempo_changed, playing, .. } => {
                let t: int = if tempo_changed { 1 } else { 0 };
                if playing != core.last_playing && t + 1 <= i < t + 5 {
                    assert(actions[i] == crate::engine::fader_actions(playing)[i - t - 1]);
                }
            },
            _ => {},
        }
    }
}

/// Only the beats of the tempo master player move Link's tempo, and the phase is aligned
/// only from a player's beat inside the bar, with phase sync on, to that beat less one.
pub proof fn lemma_only_tempo_master_beats_move_link(
    core: BridgeCore,
    event: BridgeEvent,
    i: int,
)
    requires
        0 <= i < core.next(event).1.len(),
    ensures
        core.next(event).1[i] == BridgeAction::PushTempoToLink ==> (event matches
            BridgeEvent::Beat { device, master_device, .. } && master_device == Some(device)),
        core.next(event).1[i] is AlignLinkPhase ==> (event matches BridgeEvent::Beat {
            device,
            master_device,
            from_mixer,
            beat_within_bar,
            ..
        } && master_device == Some(device) && core.phase_sync && !from_mixer && beat_phase(
            beat_within_bar,
        ) == Some(core.next(event).1[i]->AlignLinkPhase_0) && core.next(event).1[i]->AlignLinkPhase_0
            < 4),
{
    let actions = core.next(event).1;
    match event {
        BridgeEvent::Beat { device, master_device, from_mixer, beat_within_bar, .. } => {
            if master_device == Some(device) && i >= 1 {
                let p = crate::engine::phase_actions(core.phase_sync, from_mixer, beat_within_bar);
                if i - 1 < p.len() {
                    assert(actions[i] == p[i - 1]);
                }
            }
        },
        BridgeEvent::LinkTick { tempo_changed, playing, .. } => {
            if core.mode == SyncMode::Slave {
                let t: int = if tempo_changed { 1 } else { 0 };
                if playing != core.last_playing && t + 1 <= i < t + 5 {
                    assert(actions[i] == crate::engine::fader_actions(playing)[i - t - 1]);
                }
            }
        },
        _ => {},
    }
}

/// Every event from either network that the bridge handles ends with a published
/// snapshot, so the status display sees every change relayed; an event that is not
/// handled (ignored by the mode, or dropped by the echo guard) does nothing at all.
pub proof fn lemma_handled_events_publish(core: BridgeCore, event: BridgeEvent)
    requires
        event is Beat || event is CdjStatus || event is LinkTick,
    ensures
        core.next(event).1.len() == 0 || core.next(event).1.last() == BridgeAction::PublishState,
        core.next(event).1.len() == 0 ==> core.next(event).0 == core,
{
}

/// A shutdown request, or a closed channel, stops the bridge and does nothing else.
pub proof fn lemma_shutdown_stops(core: BridgeCore, event: BridgeEvent)
    requires
        event is Shutdown || event is Closed,
    ensures
        core.next(event).0 == core,
        core.next(event).1 == seq![BridgeAction::Stop],
{
}

/// In bidirectional mode, while the guard of a write from Link to the CDJs holds, events
/// from the CDJs are dropped: no action, no change of state.
pub proof fn lemma_cdj_events_dropped_while_guarded(core: BridgeCore, event: BridgeEvent)
    requires
        core.mode == SyncMode::Bidirectional,
        (event matches BridgeEvent::Beat { now_ns, .. } && guarded(
            core.last_link_to_cdj_ns,
            now_ns,
        )) || (event matches BridgeEvent::CdjStatus { now_ns, .. } && guarded(
            core.last_link_to_cdj_ns,
            now_ns,
        )),
    ensures
        core.next(event) == (core, Seq::<BridgeAction>::empty()),
{
}

/// In bidirectional mode, while the guard of a write from the CDJs to Link holds, polls of
/// Link are dropped: no action, no change of state.
pub proof fn lemma_link_polls_dropped_while_guarded(core: BridgeCore, event: BridgeEvent)
    requires
        core.mode == SyncMode::Bidirectional,
        event matches BridgeEvent::LinkTick { now_ns, .. } && guarded(core.last_cdj_to_link_ns, now_ns),
    ensures
        core.next(event) == (core, Seq::<BridgeAction>::empty()),
{
}

/// The completion of the bridge's own writes to Link starts the echo guard of those writes
/// in bidirectional mode, and does nothing else; the other modes keep no such guard.
pub proof fn lemma_link_written_starts_guard(core: BridgeCore, now_ns: u64)
    ensures
        core.next(BridgeEvent::LinkWritten { now_ns }).1 == Seq::<BridgeAction>::empty(),
        core.mode == SyncMode::Bidirectional ==> core.next(BridgeEvent::LinkWritten { now_ns }).0
            == (BridgeCore { last_cdj_to_link_ns: Some(now_ns), ..core }),
        core.mode != SyncMode::Bidirectional ==> core.next(BridgeEvent::LinkWritten { now_ns }).0
            == core,
{
}

/// No echo: in bidirectional mode, a beat of the tempo master is pushed into Link and the
/// bridge asks to be told when that write completes; once it has completed at `write_ns`, a
/// poll of Link less than the guard time later does nothing, so the tempo just written
/// cannot come back to the CDJs.
pub proof fn lemma_beat_write_not_echoed(
    core: BridgeCore,
    device: u8,
    from_mixer: bool,
    beat_within_bar: u8,
    beat_ns: u64,
    write_ns: u64,
    tempo_changed: bool,
    playing: bool,
    poll_ns: u64,
)
    requires
        core.mode == SyncMode::Bidirectional,
        !guarded(core.last_link_to_cdj_ns, beat_ns),
        write_ns <= poll_ns < write_ns + ECHO_GUARD_MS * NANOS_PER_MILLI,
    ensures
        ({
            let beat = BridgeEvent::Beat {
                device,
                master_device: Some(device),
                from_mixer,
                beat_within_bar,
                now_ns: beat_ns,
            };
            let after_beat = core.next(beat).0;
            let after_write = after_beat.next(BridgeEvent::LinkWritten { now_ns: write_ns }).0;
            &&& core.next(beat).1.contains(BridgeAction::PushTempoToLink)
            &&& core.next(beat).1.contains(BridgeAction::MarkLinkWritten)
            &&& after_write.next(BridgeEvent::LinkTick { tempo_changed, playing, now_ns: poll_ns })
                == (after_write, Seq::<BridgeAction>::empty())
        }),
{
    let beat = BridgeEvent::Beat {
        device,
        master_device: Some(device),
        from_mixer,
        beat_within_bar,
        now_ns: beat_ns,
    };
    let actions = core.next(beat).1;
    let p = crate::engine::phase_actions(core.phase_sync, from_mixer, beat_within_bar);
    assert(actions[0] == BridgeAction::PushTempoToLink);
    assert(actions[1int + p.len()] == BridgeAction::MarkLinkWritten);
}

/// No echo: in bidirectional mode, once a Link tempo change has been sent to the CDJs at
/// `poll_ns`, a CDJ beat or status less than the guard time later does nothing.
pub proof fn lemma_link_write_not_echoed(
    core: BridgeCore,
    poll_ns: u64,
    playing: bool,
    event: BridgeEvent,
)
    requires
        core.mode == SyncMode::Bidirectional,
        !guarded(core.last_cdj_to_link_ns, poll_ns),
        (event matches BridgeEvent::Beat { now_ns, .. } && poll_ns <= now_ns < poll_ns
            + ECHO_GUARD_MS * NANOS_PER_MILLI) || (event matches BridgeEvent::CdjStatus {
            now_ns,
            ..
        } && poll_ns <= now_ns < poll_ns + ECHO_GUARD_MS * NANOS_PER_MILLI),
    ensures
        ({
            let poll = BridgeEvent::LinkTick { tempo_changed: true, playing, now_ns: poll_ns };
            let after_poll = core.next(poll).0;
            &&& core.next(poll).1.contains(BridgeAction::SendTempoToCdjs)
            &&& after_poll.next(event) == (after_poll, Seq::<BridgeAction>::empty())
        }),
{
    let poll = BridgeEvent::LinkTick { tempo_changed: true, playing, now_ns: poll_ns };
    assert(core.next(poll).1[0] == BridgeAction::SendTempoToCdjs);
}

/// A play state change of the tempo master is relayed to Link once: the first status that
/// reports it sets Link's transport, and the same status again sets nothing.
pub proof fn lemma_play_state_relayed_once(core: BridgeCore, playing: bool, now_ns: u64)
    requires
        core.mode != SyncMode::Slave,
        !guarded(core.last_link_to_cdj_ns, now_ns),
        playing != core.last_playing,
    ensures
        ({
            let status = BridgeEvent::CdjStatus { is_tempo_master: true, playing, now_ns };
            let after = core.next(status).0;
            &&& core.next(status).1 == if core.mode == SyncMode::Master {
                seq![BridgeAction::SetLinkPlaying(playing), BridgeAction::PublishState]
            } else {
                seq![
                    BridgeAction::SetLinkPlaying(playing),
                    BridgeAction::MarkLinkWritten,
                    BridgeAction::PublishState,
                ]
            }
            &&& after.last_playing == playing
            &&& after.next(status).1 == seq![BridgeAction::PublishState]
        }),
{
}

/// A Link play state change is relayed to the CDJs once in slave mode: the first poll that
/// sees it sets the virtual CDJ's state and starts or stops the faders of channels 1 to 4,
/// and the same poll again relays no transport change.
pub proof fn lemma_link_play_state_relayed_once(core: BridgeCore, playing: bool, now_ns: u64)
    requires
        core.mode == SyncMode::Slave,
        playing != core.last_playing,
    ensures
        ({
            let poll = BridgeEvent::LinkTick { tempo_changed: false, playing, now_ns };
            let after = core.next(poll).0;
            &&& core.next(poll).1 == seq![BridgeAction::SetCdjsPlaying(playing)]
                + crate::engine::fader_actions(playing) + seq![BridgeAction::PublishState]
            &&& after.last_playing == playing
            &&& after.next(poll).1 == seq![BridgeAction::PublishState]
        }),
{
    let poll = BridgeEvent::LinkTick { tempo_changed: false, playing, now_ns };
    let after = core.next(poll).0;
    assert(core.next(poll).1 =~= seq![BridgeAction::SetCdjsPlaying(playing)]
        + crate::engine::fader_actions(playing) + seq![BridgeAction::PublishState]);
    assert(after.next(poll).1 =~= seq![BridgeAction::PublishState]);
}

/// The echo guard of a write at `t` holds from the write until `ECHO_GUARD_MS`
/// milliseconds have passed, and from then on never again; a core with no write keeps no
/// guard.
pub proof fn lemma_engine_guard_window(t: u64, now_ns: u64)
    ensures
        now_ns >= t + ECHO_GUARD_MS * NANOS_PER_MILLI ==> !guarded(Some(t), now_ns),
        t <= now_ns < t + ECHO_GUARD_MS * NANOS_PER_MILLI ==> guarded(Some(t), now_ns),
        !guarded(None, now_ns),
{
    if now_ns >= t {
        let e = (now_ns - t) as int;
        if e >= 100_000_000 {
            assert(e / 1_000_000 >= 100) by (nonlinear_arith)
                requires
                    e >= 100_000_000,
            ;
        } else {
            assert(e / 1_000_000 < 100) by (nonlinear_arith)
                requires
                    0 <= e < 100_000_000,
            ;
        }
    }
}

/// Only the tempo master drives Link's transport: a status from a CDJ that is not the
/// tempo master changes nothing and never starts or stops Link, in every mode.
pub proof fn lemma_non_master_status_ignored(core: BridgeCore, playing: bool, now_ns: u64)
    ensures
        ({
            let status = BridgeEvent::CdjStatus { is_tempo_master: false, playing, now_ns };
            &&& core.next(status).0 == core
            &&& forall|i: int|
                0 <= i < core.next(status).1.len() ==> #[trigger] core.next(status).1[i]
                    == BridgeAction::PublishState
        }),
{
}

/// The tempo master's play state reaches Link exactly when it differs from the state last
/// relayed, and is remembered either way, in each mode that follows the CDJs (outside the
/// echo guard in bidirectional mode). It never relays the opposite state.
pub proof fn lemma_master_play_state_relayed(core: BridgeCore, playing: bool, now_ns: u64)
    requires
        relays_to_link(core.mode),
        !guarded(core.last_link_to_cdj_ns, now_ns),
    ensures
        ({
            let status = BridgeEvent::CdjStatus { is_tempo_master: true, playing, now_ns };
            let (after, actions) = core.next(status);
            &&& actions.contains(BridgeAction::SetLinkPlaying(playing)) <==> playing
                != core.last_playing
            &&& !actions.contains(BridgeAction::SetLinkPlaying(!playing))
            &&& after.last_playing == playing
            &&& actions.last() == BridgeAction::PublishState
        }),
{
    let status = BridgeEvent::CdjStatus { is_tempo_master: true, playing, now_ns };
    let actions = core.next(status).1;
    if playing != core.last_playing {
        assert(actions[0] == BridgeAction::SetLinkPlaying(playing));
    }
    assert(!actions.contains(BridgeAction::SetLinkPlaying(!playing))) by {
        if actions.contains(BridgeAction::SetLinkPlaying(!playing)) {
            let i = choose|i: int|
                0 <= i < actions.len() && actions[i] == BridgeAction::SetLinkPlaying(!playing);
            assert(actions[i] is SetLinkPlaying ==> actions[i] == BridgeAction::SetLinkPlaying(
                playing,
            ));
        }
    }
    if playing == core.last_playing {
        assert(!actions.contains(BridgeAction::SetLinkPlaying(playing))) by {
            if actions.contains(BridgeAction::SetLinkPlaying(playing)) {
                let i = choose|i: int|
                    0 <= i < actions.len() && actions[i] == BridgeAction::SetLinkPlaying(playing);
                assert(actions[i] == BridgeAction::PublishState);
            }
        }
    }
}

/// A beat of the tempo master always moves Link, whatever the transport state: in each mode
/// that follows the CDJs (outside the echo guard in bidirectional mode) the first action
/// pushes its tempo, the last publishes, the play state does not change the answer, and the
/// phase is aligned exactly when phase sync is on, the beat is not a mixer's and lies in the
/// bar, to the Link beat one lower than the bar position.
pub proof fn lemma_master_beat_moves_link(
    core: BridgeCore,
    other_playing: bool,
    device: u8,
    from_mixer: bool,
    beat_within_bar: u8,
    now_ns: u64,
    target: u8,
)
    requires
        relays_to_link(core.mode),
        !guarded(core.last_link_to_cdj_ns, now_ns),
    ensures
        ({
            let beat = BridgeEvent::Beat {
                device,
                master_device: Some(device),
                from_mixer,
                beat_within_bar,
                now_ns,
            };
            let actions = core.next(beat).1;
            &&& actions[0] == BridgeAction::PushTempoToLink
            &&& actions.last() == BridgeAction::PublishState
            &&& (BridgeCore { last_playing: other_playing, ..core }).next(beat).1 == actions
            &&& actions.contains(BridgeAction::AlignLinkPhase(target)) <==> (core.phase_sync
                && !from_mixer && 1 <= beat_within_bar <= 4 && target + 1 == beat_within_bar)
        }),
{
    let beat = BridgeEvent::Beat {
        device,
        master_device: Some(device),
        from_mixer,
        beat_within_bar,
        now_ns,
    };
    let actions = core.next(beat).1;
    let p = crate::engine::phase_actions(core.phase_sync, from_mixer, beat_within_bar);
    let wanted = core.phase_sync && !from_mixer && 1 <= beat_within_bar <= 4 && target + 1
        == beat_within_bar;
    if wanted {
        assert(actions[1] == BridgeAction::AlignLinkPhase(target));
    } else {
        assert(!actions.contains(BridgeAction::AlignLinkPhase(target))) by {
            if actions.contains(BridgeAction::AlignLinkPhase(target)) {
                let i = choose|i: int|
                    0 <= i < actions.len() && actions[i] == BridgeAction::AlignLinkPhase(target);
                if 1 <= i < 1 + p.len() {
                    assert(actions[i] == p[i - 1]);
                }
            }
        }
    }
}

/// In slave mode a Link tempo change always goes to the CDJs first, whatever the transport
/// state, and an unchanged tempo never does; Link's play state is relayed, with fader start
/// or stop on channels 1 to 4, exactly when it differs from the state last relayed, and is
/// remembered either way.
pub proof fn lemma_slave_tick_relays(
    core: BridgeCore,
    tempo_changed: bool,
    playing: bool,
    now_ns: u64,
    channel: u8,
)
    requires
        core.mode == SyncMode::Slave,
        1 <= channel <= 4,
    ensures
        ({
            let tick = BridgeEvent::LinkTick { tempo_changed, playing, now_ns };
            let (after, actions) = core.next(tick);
            &&& tempo_changed ==> actions[0] == BridgeAction::SendTempoToCdjs
            &&& actions.contains(BridgeAction::SendTempoToCdjs) <==> tempo_changed
            &&& actions.contains(BridgeAction::SetCdjsPlaying(playing)) <==> playing
                != core.last_playing
            &&& actions.contains(BridgeAction::FaderStart { channel, start: playing }) <==> playing
                != core.last_playing
            &&& !actions.contains(BridgeAction::SetCdjsPlaying(!playing))
            &&& !actions.contains(BridgeAction::FaderStart { channel, start: !playing })
            &&& after.last_playing == playing
            &&& actions.last() == BridgeAction::PublishState
        }),
{
    let tick = BridgeEvent::LinkTick { tempo_changed, playing, now_ns };
    let actions = core.next(tick).1;
    let t: int = if tempo_changed { 1 } else { 0 };
    let f = crate::engine::fader_actions(playing);
    if tempo_changed {
        assert(actions[0] == BridgeAction::SendTempoToCdjs);
    }
    if playing != core.last_playing {
        assert(actions[t] == BridgeAction::SetCdjsPlaying(playing));
        assert(actions[t + channel] == f[channel - 1]);
    }
    assert forall|i: int| 0 <= i < actions.len() implies {
        &&& (#[trigger] actions[i] == BridgeAction::SendTempoToCdjs ==> tempo_changed && i == 0)
        &&& (actions[i] is SetCdjsPlaying ==> playing != core.last_playing && actions[i]
            == BridgeAction::SetCdjsPlaying(playing))
        &&& (actions[i] is FaderStart ==> playing != core.last_playing && actions[i]->start
            == playing)
    } by {
        if playing != core.last_playing && t + 1 <= i < t + 5 {
            assert(actions[i] == f[i - t - 1]);
        }
    }
}

/// In bidirectional mode, outside the guard of a write to Link, a Link tempo change goes to
/// the CDJs first and starts the guard of that write at the time of the poll; an unchanged
/// tempo sends nothing.
pub proof fn lemma_bidirectional_tick_relays(
    core: BridgeCore,
    tempo_changed: bool,
    playing: bool,
    now_ns: u64,
)
    requires
        core.mode == SyncMode::Bidirectional,
        !guarded(core.last_cdj_to_link_ns, now_ns),
    ensures
        ({
            let tick = BridgeEvent::LinkTick { tempo_changed, playing, now_ns };
            let (after, actions) = core.next(tick);
            &&& tempo_changed ==> actions[0] == BridgeAction::SendTempoToCdjs
                && after.last_link_to_cdj_ns == Some(now_ns)
            &&& !tempo_changed ==> actions == seq![BridgeAction::PublishState] && after == core
            &&& after.last_playing == core.last_playing
        }),
{
}

} // verus!
