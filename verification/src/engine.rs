use vstd::prelude::*;

use crate::bridge::{
    beat_phase, echo_guard_active, guard_active, map_beat_to_phase, ECHO_GUARD_MS, FADER_CHANNELS,
};
use crate::sync_mode::SyncMode;

verus! {

/// What the bridge observes: an event from one of the two networks, a poll of the Link
/// session, the completion of its own writes to Link, or a request to stop. Times are
/// nanoseconds of a monotonic clock.
pub enum BridgeEvent {
    /// A new beat from a player. `master_device` is the tempo master at the time of the beat.
    Beat { device: u8, master_device: Option<u8>, from_mixer: bool, beat_within_bar: u8, now_ns: u64 },
    /// A precise position report from a player; informational only.
    PrecisePosition,
    /// A status update from a CDJ.
    CdjStatus { is_tempo_master: bool, playing: bool, now_ns: u64 },
    /// A status update from a mixer.
    MixerStatus,
    /// A poll of the Link session. `tempo_changed` says whether the Link tempo moved beyond
    /// the tempo threshold since the tempo last relayed.
    LinkTick { tempo_changed: bool, playing: bool, now_ns: u64 },
    /// The writes to Link that a CDJ event asked for (`MarkLinkWritten`) have completed.
    LinkWritten { now_ns: u64 },
    /// A receiver fell behind and skipped messages.
    Lagged,
    /// A Pro DJ Link channel was closed.
    Closed,
    /// Shutdown was requested.
    Shutdown,
}

/// What the bridge does in answer to an event, in order.
#[derive(Clone, Copy, Debug, PartialEq, Eq, Structural)]
pub enum BridgeAction {
    /// Push the tempo of the beat into Link, when it differs beyond the tempo threshold.
    PushTempoToLink,
    /// Align the Link phase so that the given 0-based beat falls now.
    AlignLinkPhase(u8),
    /// Take the tempo of the beat just pushed as the last known Link tempo.
    RememberBeatTempo,
    /// Report `LinkWritten` with the time at which the writes to Link asked for so far have
    /// completed; the echo guard of a CDJ to Link write starts then.
    MarkLinkWritten,
    /// Set the Link transport to playing or stopped.
    SetLinkPlaying(bool),
    /// Send the current Link tempo to the CDJs and take it as the last relayed tempo.
    SendTempoToCdjs,
    /// Set the playing state that the virtual CDJ reports.
    SetCdjsPlaying(bool),
    /// Send a fader start (`true`) or stop (`false`) to the player on a channel.
    FaderStart { channel: u8, start: bool },
    /// Publish a snapshot of the bridge state for the status display.
    PublishState,
    /// Stop the bridge.
    Stop,
}

/// The decision state of the bridge between events.
pub struct BridgeCore {
    /// The direction of synchronization; it never changes.
    pub mode: SyncMode,
    /// Whether beats may align the Link phase (the Link quantum is a 4-beat bar).
    pub phase_sync: bool,
    /// The last playing state relayed.
    pub last_playing: bool,
    /// When the last writes from the CDJs to Link completed, if there have been any.
    pub last_cdj_to_link_ns: Option<u64>,
    /// When the bridge last decided to relay the Link tempo to the CDJs, if it has.
    pub last_link_to_cdj_ns: Option<u64>,
}

/// Nanoseconds per millisecond.
pub const NANOS_PER_MILLI: u64 = 1_000_000;

/// Whether the echo guard of a write at `last_ns` is active at `now_ns`: the whole
/// milliseconds elapsed since the write are fewer than the guard. A clock that reads earlier
/// than the write counts as no time elapsed.
pub open spec fn guarded(last_ns: Option<u64>, now_ns: u64) -> bool {
    match last_ns {
        Some(t) => guard_active(
            (if now_ns >= t { now_ns - t } else { 0 }) / (NANOS_PER_MILLI as int),
            ECHO_GUARD_MS as int,
        ),
        None => false,
    }
}

/// The phase alignment a beat asks for: only when phase sync is on, the beat does not come
/// from a mixer, and its position lies in the bar.
pub open spec fn phase_actions(phase_sync: bool, from_mixer: bool, beat_within_bar: u8) -> Seq<
    BridgeAction,
> {
    if phase_sync && !from_mixer && beat_phase(beat_within_bar) is Some {
        seq![BridgeAction::AlignLinkPhase(beat_phase(beat_within_bar)->0)]
    } else {
        Seq::empty()
    }
}

/// Fader start or stop for the players on channels 1 to 4.
pub open spec fn fader_actions(start: bool) -> Seq<BridgeAction> {
    seq![
        BridgeAction::FaderStart { channel: 1, start },
        BridgeAction::FaderStart { channel: 2, start },
        BridgeAction::FaderStart { channel: 3, start },
        BridgeAction::FaderStart { channel: 4, start },
    ]
}

impl BridgeCore {
    /// The state of a bridge that has just started. In slave mode the playing state starts
    /// from Link's; otherwise the bridge starts stopped.
    pub open spec fn initial(mode: SyncMode, phase_sync: bool, link_playing: bool) -> BridgeCore {
        BridgeCore {
            mode,
            phase_sync,
            last_playing: mode == SyncMode::Slave && link_playing,
            last_cdj_to_link_ns: None,
            last_link_to_cdj_ns: None,
        }
    }

    /// CDJ to Link: what a sync mode that follows the CDJs does with an event.
    pub open spec fn next_master(self, event: BridgeEvent) -> (BridgeCore, Seq<BridgeAction>) {
        match event {
            BridgeEvent::Beat { device, master_device, from_mixer, beat_within_bar, .. } => {
                if master_device == Some(device) {
                    (
                        self,
                        seq![BridgeAction::PushTempoToLink] + phase_actions(
                            self.phase_sync,
                            from_mixer,
                            beat_within_bar,
                        ) + seq![BridgeAction::PublishState],
                    )
                } else {
                    (self, seq![BridgeAction::PublishState])
                }
            },
            BridgeEvent::CdjStatus { is_tempo_master, playing, .. } => {
                if is_tempo_master && playing != self.last_playing {
                    (
                        BridgeCore { last_playing: playing, ..self },
                        seq![BridgeAction::SetLinkPlaying(playing), BridgeAction::PublishState],
                    )
                } else {
                    (self, seq![BridgeAction::PublishState])
                }
            },
            BridgeEvent::Closed | BridgeEvent::Shutdown => (self, seq![BridgeAction::Stop]),
            _ => (self, Seq::empty()),
        }
    }

    /// Link to CDJ: what a sync mode that follows Link does with an event.
    pub open spec fn next_slave(self, event: BridgeEvent) -> (BridgeCore, Seq<BridgeAction>) {
        match event {
            BridgeEvent::LinkTick { tempo_changed, playing, .. } => {
                let tempo = if tempo_changed {
                    seq![BridgeAction::SendTempoToCdjs]
                } else {
                    Seq::empty()
                };
                let transport = if playing != self.last_playing {
                    seq![BridgeAction::SetCdjsPlaying(playing)] + fader_actions(playing)
                } else {
                    Seq::empty()
                };
                (
                    BridgeCore { last_playing: playing, ..self },
                    tempo + transport + seq![BridgeAction::PublishState],
                )
            },
            BridgeEvent::Closed | BridgeEvent::Shutdown => (self, seq![BridgeAction::Stop]),
            _ => (self, Seq::empty()),
        }
    }

    /// Both directions, last writer wins: what the bidirectional mode does with an event.
    /// Events from one side are dropped while the echo guard of a write to that side holds.
    pub open spec fn next_bidirectional(self, event: BridgeEvent) -> (
        BridgeCore,
        Seq<BridgeAction>,
    ) {
        match event {
            BridgeEvent::Beat { device, master_device, from_mixer, beat_within_bar, now_ns } => {
                if guarded(self.last_link_to_cdj_ns, now_ns) {
                    (self, Seq::empty())
                } else if master_device == Some(device) {
                    (
                        self,
                        seq![BridgeAction::PushTempoToLink] + phase_actions(
                            self.phase_sync,
                            from_mixer,
                            beat_within_bar,
                        ) + seq![
                            BridgeAction::MarkLinkWritten,
                            BridgeAction::RememberBeatTempo,
                            BridgeAction::PublishState,
                        ],
                    )
                } else {
                    (self, seq![BridgeAction::PublishState])
                }
            },
            BridgeEvent::CdjStatus { is_tempo_master, playing, now_ns } => {
                if guarded(self.last_link_to_cdj_ns, now_ns) {
                    (self, Seq::empty())
                } else if is_tempo_master && playing != self.last_playing {
                    (
                        BridgeCore { last_playing: playing, ..self },
                        seq![
                            BridgeAction::SetLinkPlaying(playing),
                            BridgeAction::MarkLinkWritten,
                            BridgeAction::PublishState,
                        ],
                    )
                } else {
                    (self, seq![BridgeAction::PublishState])
                }
            },
            BridgeEvent::LinkTick { tempo_changed, now_ns, .. } => {
                if guarded(self.last_cdj_to_link_ns, now_ns) {
                    (self, Seq::empty())
                } else if tempo_changed {
                    (
                        BridgeCore { last_link_to_cdj_ns: Some(now_ns), ..self },
                        seq![BridgeAction::SendTempoToCdjs, BridgeAction::PublishState],
                    )
                } else {
                    (self, seq![BridgeAction::PublishState])
                }
            },
            BridgeEvent::LinkWritten { now_ns } => (
                BridgeCore { last_cdj_to_link_ns: Some(now_ns), ..self },
                Seq::empty(),
            ),
            BridgeEvent::Closed | BridgeEvent::Shutdown => (self, seq![BridgeAction::Stop]),
            _ => (self, Seq::empty()),
        }
    }

    /// The next state and the actions for an event, by sync mode.
    pub open spec fn next(self, event: BridgeEvent) -> (BridgeCore, Seq<BridgeAction>) {
        match self.mode {
            SyncMode::Master => self.next_master(event),
            SyncMode::Slave => self.next_slave(event),
            SyncMode::Bidirectional => self.next_bidirectional(event),
        }
    }
}

/// Decides the echo guard of a write at `last_ns` at time `now_ns`.
fn guard_holds(last_ns: Option<u64>, now_ns: u64) -> (holds: bool)
    ensures
        holds == guarded(last_ns, now_ns),
{
    match last_ns {
        Some(t) => {
            let elapsed: u64 = if now_ns >= t {
                now_ns - t
            } else {
                0
            };
            echo_guard_active((elapsed / NANOS_PER_MILLI) as u128, ECHO_GUARD_MS)
        },
        None => false,
    }
}

/// Appends the phase alignment that a beat asks for.
fn push_phase_actions(
    actions: &mut Vec<BridgeAction>,
    phase_sync: bool,
    from_mixer: bool,
    beat_within_bar: u8,
)
    ensures
        final(actions)@ == old(actions)@ + phase_actions(phase_sync, from_mixer, beat_within_bar),
{
    if phase_sync && !from_mixer {
        match map_beat_to_phase(beat_within_bar) {
            Some(target) => actions.push(BridgeAction::AlignLinkPhase(target)),
            None => {},
        }
    }
    assert(final(actions)@ =~= old(actions)@ + phase_actions(phase_sync, from_mixer, beat_within_bar));
}

impl BridgeCore {
    /// Creates the state of a bridge that starts in `mode`; `link_playing` is Link's playing
    /// state at start, which slave mode takes as the last relayed state.
    pub fn new(mode: SyncMode, phase_sync: bool, link_playing: bool) -> (core: BridgeCore)
        ensures
            core == BridgeCore::initial(mode, phase_sync, link_playing),
    {
        let last_playing = match mode {
            SyncMode::Slave => link_playing,
            _ => false,
        };
        BridgeCore {
            mode,
            phase_sync,
            last_playing,
            last_cdj_to_link_ns: None,
            last_link_to_cdj_ns: None,
        }
    }

    fn step_master(&mut self, event: BridgeEvent) -> (actions: Vec<BridgeAction>)
        ensures
            *final(self) == old(self).next_master(event).0,
            actions@ == old(self).next_master(event).1,
    {
        let mut actions: Vec<BridgeAction> = Vec::new();
        match event {
            BridgeEvent::Beat { device, master_device, from_mixer, beat_within_bar, .. } => {
                let from_master = match master_device {
                    Some(d) => d == device,
                    None => false,
                };
                if from_master {
                    actions.push(BridgeAction::PushTempoToLink);
                    push_phase_actions(&mut actions, self.phase_sync, from_mixer, beat_within_bar);
                }
                actions.push(BridgeAction::PublishState);
            },
            BridgeEvent::CdjStatus { is_tempo_master, playing, .. } => {
                if is_tempo_master && playing != self.last_playing {
                    self.last_playing = playing;
                    actions.push(BridgeAction::SetLinkPlaying(playing));
                }
                actions.push(BridgeAction::PublishState);
            },
            BridgeEvent::Closed | BridgeEvent::Shutdown => {
                actions.push(BridgeAction::Stop);
            },
            _ => {},
        }
        assert(actions@ =~= old(self).next_master(event).1);
        actions
    }

    fn step_slave(&mut self, event: BridgeEvent) -> (actions: Vec<BridgeAction>)
        ensures
            *final(self) == old(self).next_slave(event).0,
            actions@ == old(self).next_slave(event).1,
    {
        let mut actions: Vec<BridgeAction> = Vec::new();
        match event {
            BridgeEvent::LinkTick { tempo_changed, playing, .. } => {
                if tempo_changed {
                    actions.push(BridgeAction::SendTempoToCdjs);
                }
                if playing != self.last_playing {
                    self.last_playing = playing;
                    actions.push(BridgeAction::SetCdjsPlaying(playing));
                    let mut channel: u8 = 1;
                    while channel <= FADER_CHANNELS
                        invariant
                            1 <= channel <= FADER_CHANNELS + 1,
                            actions@ =~= old(self).next_slave(event).1.take(
                                if tempo_changed { 1int } else { 0int } + channel as int,
                            ),
                            old(self).next_slave(event).1.len() == if tempo_changed { 1int } else { 0int } + 6,
                            old(self).next_slave(event).1 =~= (if tempo_changed {
                                seq![BridgeAction::SendTempoToCdjs]
                            } else {
                                Seq::empty()
                            }) + seq![BridgeAction::SetCdjsPlaying(playing)] + fader_actions(playing)
                                + seq![BridgeAction::PublishState],
                        decreases FADER_CHANNELS + 1 - channel,
                    {
                        actions.push(BridgeAction::FaderStart { channel, start: playing });
                        channel = channel + 1;
                    }
                }
                actions.push(BridgeAction::PublishState);
            },
            BridgeEvent::Closed | BridgeEvent::Shutdown => {
                actions.push(BridgeAction::Stop);
            },
            _ => {},
        }
        assert(actions@ =~= old(self).next_slave(event).1);
        actions
    }

    fn step_bidirectional(&mut self, event: BridgeEvent) -> (actions: Vec<BridgeAction>)
        ensures
            *final(self) == old(self).next_bidirectional(event).0,
            actions@ == old(self).next_bidirectional(event).1,
    {
        let mut actions: Vec<BridgeAction> = Vec::new();
        match event {
            BridgeEvent::Beat { device, master_device, from_mixer, beat_within_bar, now_ns } => {
                if !guard_holds(self.last_link_to_cdj_ns, now_ns) {
                    let from_master = match master_device {
                        Some(d) => d == device,
                        None => false,
                    };
                    if from_master {
                        actions.push(BridgeAction::PushTempoToLink);
                        push_phase_actions(&mut actions, self.phase_sync, from_mixer, beat_within_bar);
                        actions.push(BridgeAction::MarkLinkWritten);
                        actions.push(BridgeAction::RememberBeatTempo);
                    }
                    actions.push(BridgeAction::PublishState);
                }
            },
            BridgeEvent::CdjStatus { is_tempo_master, playing, now_ns } => {
                if !guard_holds(self.last_link_to_cdj_ns, now_ns) {
                    if is_tempo_master && playing != self.last_playing {
                        self.last_playing = playing;
                        actions.push(BridgeAction::SetLinkPlaying(playing));
                        actions.push(BridgeAction::MarkLinkWritten);
                    }
                    actions.push(BridgeAction::PublishState);
                }
            },
            BridgeEvent::LinkTick { tempo_changed, now_ns, .. } => {
                if !guard_holds(self.last_cdj_to_link_ns, now_ns) {
                    if tempo_changed {
                        self.last_link_to_cdj_ns = Some(now_ns);
                        actions.push(BridgeAction::SendTempoToCdjs);
                    }
                    actions.push(BridgeAction::PublishState);
                }
            },
            BridgeEvent::LinkWritten { now_ns } => {
                self.last_cdj_to_link_ns = Some(now_ns);
            },
            BridgeEvent::Closed | BridgeEvent::Shutdown => {
                actions.push(BridgeAction::Stop);
            },
            _ => {},
        }
        assert(actions@ =~= old(self).next_bidirectional(event).1);
        actions
    }

    /// Decides what the bridge does with an event: returns the actions to perform, in
    /// order, and moves to the next state.
    pub fn step(&mut self, event: BridgeEvent) -> (actions: Vec<BridgeAction>)
        ensures
            *final(self) == old(self).next(event).0,
            actions@ == old(self).next(event).1,
    {
        match self.mode {
            SyncMode::Master => self.step_master(event),
            SyncMode::Slave => self.step_slave(event),
            SyncMode::Bidirectional => self.step_bidirectional(event),
        }
    }
}

} // verus!
