//! What the bridge does about the player's events, about its own commands and about
//! the change from one track to the next.
use vstd::prelude::*;
use vstd::string::*;

use crate::state::{BridgeCommand, BridgeConfig, BridgeShared, BridgeView, TrackInfo};
use crate::text::push_decimal;

verus! {

/// What sets one kind of audio item apart from another.
pub enum UniqueFields {
    Track { artists: Vec<String>, album: String },
    Episode { show_name: String },
    Other,
}

/// An audio item, as the player reports it. `covers` holds the addresses of the
/// cover images.
pub struct AudioItem {
    pub name: String,
    pub uri: String,
    pub duration_ms: u32,
    pub covers: Vec<String>,
    pub unique_fields: UniqueFields,
}

/// The first of several texts, or none.
pub open spec fn first_text(texts: Seq<String>) -> Seq<char> {
    if texts.len() > 0 {
        texts[0]@
    } else {
        Seq::empty()
    }
}

/// Who made an item: the first artist of a track, the show of an episode.
pub open spec fn artist_of(fields: UniqueFields) -> Seq<char> {
    match fields {
        UniqueFields::Track { artists, album } => first_text(artists@),
        UniqueFields::Episode { show_name } => show_name@,
        UniqueFields::Other => Seq::empty(),
    }
}

/// The album of a track; nothing else has one.
pub open spec fn album_of(fields: UniqueFields) -> Seq<char> {
    match fields {
        UniqueFields::Track { artists, album } => album@,
        _ => Seq::empty(),
    }
}

fn first_or_empty(texts: &Vec<String>) -> (r: String)
    ensures
        r@ == first_text(texts@),
{
    if texts.len() > 0 {
        texts[0].clone()
    } else {
        String::new()
    }
}

/// Whether `track` is the metadata of `item`.
pub open spec fn describes(track: TrackInfo, item: AudioItem) -> bool {
    &&& track.name@ == item.name@
    &&& track.artist@ == artist_of(item.unique_fields)
    &&& track.album@ == album_of(item.unique_fields)
    &&& track.cover@ == first_text(item.covers@)
    &&& track.uri@ == item.uri@
    &&& track.duration_ms == item.duration_ms
}

/// The track metadata of an audio item.
pub fn track_info_from(item: &AudioItem) -> (r: TrackInfo)
    ensures
        describes(r, *item),
{
    let (artist, album) = match &item.unique_fields {
        UniqueFields::Track { artists, album } => (first_or_empty(artists), album.clone()),
        UniqueFields::Episode { show_name } => (show_name.clone(), String::new()),
        UniqueFields::Other => (String::new(), String::new()),
    };
    TrackInfo {
        name: item.name.clone(),
        artist,
        album,
        cover: first_or_empty(&item.covers),
        uri: item.uri.clone(),
        duration_ms: item.duration_ms,
    }
}

/// An event of the player.
pub enum PlayerEvent {
    TrackChanged { track: TrackInfo },
    EndOfTrack,
    Paused { position_ms: u32 },
    Playing { position_ms: u32 },
    VolumeChanged { volume: u16 },
    Seeked { position_ms: u32 },
    Stopped,
    Unavailable,
    Other,
}

/// The task that waits for the station to finish a track, as its owner sees it.
#[derive(Debug, Clone, Copy, PartialEq, Eq, Structural)]
pub enum TransitionTask {
    Idle,
    Running,
    Finished,
}

/// What is to be done about that task.
#[derive(Debug, Clone, Copy, PartialEq, Eq, Structural)]
pub enum TransitionChange {
    /// Leave it.
    Keep,
    /// Abort it, if there is one.
    Cancel,
    /// Spawn one; none is running.
    Start,
    /// Abort it, if there is one, and spawn another.
    Restart,
}

/// What an event asks for besides the change of state.
pub struct EventOutcome<W> {
    pub transition: TransitionChange,
    pub command: Option<BridgeCommand>,
    pub wake: Option<W>,
}

impl<W> BridgeView<W> {
    /// A track is being played and has not ended.
    pub open spec fn mid_track(self) -> bool {
        self.streaming && !self.track_ended
    }

    /// After playback was paused.
    pub open spec fn held(self) -> Self {
        BridgeView { paused: true, track_ended: false, stream_waker: None, ..self.cut() }
    }

    /// After playback of the same track went on at `position_ms`.
    pub open spec fn resumed(self, position_ms: u32) -> Self {
        BridgeView {
            paused: false,
            track_ended: false,
            expected_bytes: self.expected_from(position_ms),
            bytes_produced: 0,
            bytes_delivered: 0,
            ..self.cut()
        }
    }

    /// After the pending track, if there is one, took over at `position_ms`.
    pub open spec fn switched(self, position_ms: u32, now_ms: u64) -> Self {
        match self.pending_track {
            Some(next) => BridgeView {
                pending_track: None,
                ..self.started(next, position_ms, now_ms)
            },
            None => self,
        }
    }

    /// After playback ended with no track to follow.
    pub open spec fn idled(self) -> Self {
        BridgeView { current_track: None, track_ended: false, ..self.halted() }
    }

    /// The state after an event of the player.
    pub open spec fn after_event(self, event: PlayerEvent, now_ms: u64) -> Self {
        match event {
            PlayerEvent::TrackChanged { track } => if self.streaming || self.track_ended {
                BridgeView { pending_track: Some(track), ..self }
            } else {
                self.started(track, 0, now_ms)
            },
            PlayerEvent::EndOfTrack => BridgeView { track_ended: true, ..self },
            PlayerEvent::Paused { position_ms } => self.held(),
            PlayerEvent::Playing { position_ms } => if !self.paused {
                self
            } else if self.pending_track is Some {
                self.switched(position_ms, now_ms)
            } else {
                self.resumed(position_ms)
            },
            PlayerEvent::Seeked { position_ms } => if self.internal_seek {
                BridgeView { internal_seek: false, ..self }
            } else {
                self.reset(position_ms, now_ms)
            },
            PlayerEvent::Stopped => if self.pending_track is Some {
                BridgeView { paused: true, ..self }
            } else {
                self.idled()
            },
            PlayerEvent::VolumeChanged { volume } => self,
            PlayerEvent::Unavailable => self,
            PlayerEvent::Other => self,
        }
    }

    /// What an event of the player asks for.
    pub open spec fn event_outcome(self, event: PlayerEvent, task: TransitionTask) -> EventOutcome<
        W,
    > {
        let nothing = EventOutcome {
            transition: TransitionChange::Keep,
            command: None,
            wake: None,
        };
        match event {
            PlayerEvent::TrackChanged { track } => if self.mid_track() {
                nothing
            } else if self.track_ended {
                if task == TransitionTask::Running {
                    nothing
                } else {
                    EventOutcome { transition: TransitionChange::Start, ..nothing }
                }
            } else {
                EventOutcome {
                    transition: TransitionChange::Cancel,
                    command: Some(BridgeCommand::SendRadioPlay),
                    wake: self.stream_waker,
                }
            },
            PlayerEvent::EndOfTrack => if self.pending_track is Some {
                EventOutcome { transition: TransitionChange::Restart, ..nothing }
            } else {
                nothing
            },
            PlayerEvent::Paused { position_ms } => EventOutcome {
                transition: TransitionChange::Cancel,
                command: Some(BridgeCommand::Stop),
                wake: self.stream_waker,
            },
            PlayerEvent::Playing { position_ms } => if !self.paused {
                nothing
            } else {
                EventOutcome {
                    transition: TransitionChange::Keep,
                    command: Some(BridgeCommand::SendRadioPlay),
                    wake: if self.pending_track is Some {
                        self.stream_waker
                    } else {
                        None
                    },
                }
            },
            PlayerEvent::VolumeChanged { volume } => EventOutcome {
                command: Some(BridgeCommand::SetVolume(volume)),
                ..nothing
            },
            PlayerEvent::Seeked { position_ms } => if self.internal_seek {
                nothing
            } else {
                EventOutcome {
                    transition: TransitionChange::Cancel,
                    command: Some(BridgeCommand::SendRadioPlay),
                    wake: self.stream_waker,
                }
            },
            PlayerEvent::Stopped => if self.pending_track is Some {
                nothing
            } else {
                EventOutcome {
                    transition: TransitionChange::Cancel,
                    command: None,
                    wake: self.stream_waker,
                }
            },
            PlayerEvent::Unavailable => nothing,
            PlayerEvent::Other => nothing,
        }
    }
}

/// The tracks that an event brings fit this machine.
pub open spec fn event_fits(event: PlayerEvent) -> bool {
    event matches PlayerEvent::TrackChanged { track } ==> crate::state::track_fits(track)
}

impl<W> BridgeShared<W> {
    /// Pauses playback, and hands out the waker of a client that waits.
    #[must_use]
    pub fn hold(&mut self) -> (wake: Option<W>)
        requires
            old(self)@.wf(),
            old(self)@.stream_token < u64::MAX,
        ensures
            final(self)@ == old(self)@.held(),
            wake == old(self)@.stream_waker,
            final(self)@.wf(),
    {
        self.paused = true;
        self.track_ended = false;
        self.internal_disconnect = true;
        self.stream_token = self.stream_token + 1;
        self.mp3_buffer.clear();
        let wake = self.stream_waker.take();
        proof {
            assert(self@ =~= old(self)@.held());
        }
        wake
    }

    /// Goes on with the same track at `position_ms`.
    pub fn resume(&mut self, position_ms: u32)
        requires
            old(self)@.wf(),
            old(self)@.stream_token < u64::MAX,
        ensures
            final(self)@ == old(self)@.resumed(position_ms),
            final(self)@.wf(),
    {
        self.paused = false;
        self.track_ended = false;
        if let Some(track) = &self.current_track {
            self.expected_bytes = Self::calc_expected_bytes(track.duration_ms, position_ms);
        }
        self.internal_disconnect = true;
        self.stream_token = self.stream_token + 1;
        self.mp3_buffer.clear();
        self.bytes_produced = 0;
        self.bytes_delivered = 0;
        proof {
            assert(self@ =~= old(self)@.resumed(position_ms));
        }
    }

    /// Lets the pending track, if there is one, take over at `position_ms`, and hands
    /// out the waker of a client of the old one.
    #[must_use]
    pub fn switch_to_pending(&mut self, position_ms: u32, now_ms: u64) -> (wake: Option<W>)
        requires
            old(self)@.wf(),
            old(self)@.stream_token < u64::MAX,
            old(self)@.tracks_played < u64::MAX,
        ensures
            final(self)@ == old(self)@.switched(position_ms, now_ms),
            wake == (if old(self)@.pending_track is Some {
                old(self)@.stream_waker
            } else {
                None
            }),
            final(self)@.wf(),
    {
        let wake = match self.pending_track.take() {
            Some(next) => self.start_new_track(next, position_ms, now_ms),
            None => None,
        };
        proof {
            assert(self@ =~= old(self)@.switched(position_ms, now_ms));
        }
        wake
    }

    /// Ends playback with no track to follow, and hands out the waker of a client that
    /// waits.
    #[must_use]
    pub fn idle(&mut self) -> (wake: Option<W>)
        ensures
            final(self)@ == old(self)@.idled(),
            wake == old(self)@.stream_waker,
            old(self)@.wf() ==> final(self)@.wf(),
    {
        let wake = self.force_stop();
        self.track_ended = false;
        self.current_track = None;
        proof {
            assert(self@ =~= old(self)@.idled());
        }
        wake
    }
}

/// Takes in an event of the player: changes the state, and says what is to be done
/// about the waiting task, which command is to be queued, and whom to wake.
pub fn handle_player_event<W>(
    shared: &mut BridgeShared<W>,
    event: PlayerEvent,
    task: TransitionTask,
    now_ms: u64,
) -> (r: EventOutcome<W>)
    requires
        old(shared)@.wf(),
        event_fits(event),
        old(shared)@.stream_token < u64::MAX,
        old(shared)@.tracks_played < u64::MAX,
    ensures
        final(shared)@ == old(shared)@.after_event(event, now_ms),
        r == old(shared)@.event_outcome(event, task),
        final(shared)@.wf(),
{
    match event {
        PlayerEvent::TrackChanged { track } => {
            if shared.streaming && !shared.track_ended {
                shared.pending_track = Some(track);
                EventOutcome { transition: TransitionChange::Keep, command: None, wake: None }
            } else if shared.track_ended {
                shared.pending_track = Some(track);
                let transition = if task == TransitionTask::Running {
                    TransitionChange::Keep
                } else {
                    TransitionChange::Start
                };
                EventOutcome { transition, command: None, wake: None }
            } else {
                let wake = shared.start_new_track(track, 0, now_ms);
                EventOutcome {
                    transition: TransitionChange::Cancel,
                    command: Some(BridgeCommand::SendRadioPlay),
                    wake,
                }
            }
        },
        PlayerEvent::EndOfTrack => {
            shared.track_ended = true;
            let transition = if shared.pending_track.is_some() {
                TransitionChange::Restart
            } else {
                TransitionChange::Keep
            };
            EventOutcome { transition, command: None, wake: None }
        },
        PlayerEvent::Paused { .. } => {
            let wake = shared.hold();
            EventOutcome {
                transition: TransitionChange::Cancel,
                command: Some(BridgeCommand::Stop),
                wake,
            }
        },
        PlayerEvent::Playing { position_ms } => {
            if !shared.paused {
                return EventOutcome {
                    transition: TransitionChange::Keep,
                    command: None,
                    wake: None,
                };
            }
            let wake = if shared.pending_track.is_some() {
                shared.switch_to_pending(position_ms, now_ms)
            } else {
                shared.resume(position_ms);
                None
            };
            EventOutcome {
                transition: TransitionChange::Keep,
                command: Some(BridgeCommand::SendRadioPlay),
                wake,
            }
        },
        PlayerEvent::VolumeChanged { volume } => EventOutcome {
            transition: TransitionChange::Keep,
            command: Some(BridgeCommand::SetVolume(volume)),
            wake: None,
        },
        PlayerEvent::Seeked { position_ms } => {
            if shared.internal_seek {
                shared.internal_seek = false;
                EventOutcome { transition: TransitionChange::Keep, command: None, wake: None }
            } else {
                let wake = shared.reset_stream(position_ms, now_ms);
                EventOutcome {
                    transition: TransitionChange::Cancel,
                    command: Some(BridgeCommand::SendRadioPlay),
                    wake,
                }
            }
        },
        PlayerEvent::Stopped => {
            if shared.pending_track.is_some() {
                shared.paused = true;
                EventOutcome { transition: TransitionChange::Keep, command: None, wake: None }
            } else {
                let wake = shared.idle();
                EventOutcome { transition: TransitionChange::Cancel, command: None, wake }
            }
        },
        PlayerEvent::Unavailable | PlayerEvent::Other => EventOutcome {
            transition: TransitionChange::Keep,
            command: None,
            wake: None,
        },
    }
}

/// The address under which a client finds the stream with `token`.
pub open spec fn stream_url(host: Seq<char>, port: u16, token: u64) -> Seq<char> {
    "http://"@ + host + ":"@ + crate::text::decimal(port as nat) + "/stream.mp3?"@
        + stream_query(token)
}

/// The query by which the stream with `token` is asked for.
pub open spec fn stream_query(token: u64) -> Seq<char> {
    "t="@ + crate::text::decimal(token as nat)
}

/// A stream for the station to play.
pub struct RadioPlay {
    pub url: String,
    pub title: String,
    pub subtitle: String,
}

impl RadioPlay {
    /// Whether this is the play command for the stream of `shared`: its address, with
    /// the name and the artist of the current track, if there is one.
    pub open spec fn announces<W>(self, shared: BridgeView<W>, config: BridgeConfig) -> bool {
        &&& self.url@ == stream_url(config.sbc_ip@, config.bridge_port, shared.stream_token)
        &&& self.title@ == (match shared.current_track {
            Some(track) => track.name@,
            None => Seq::empty(),
        })
        &&& self.subtitle@ == (match shared.current_track {
            Some(track) => track.artist@,
            None => Seq::empty(),
        })
    }
}

/// The play command for the current stream.
pub fn radio_play<W>(shared: &BridgeShared<W>, config: &BridgeConfig) -> (r: RadioPlay)
    ensures
        r.announces(shared@, *config),
{
    let mut url = String::new();
    url.append("http://");
    url.append(config.sbc_ip.as_str());
    url.append(":");
    push_decimal(&mut url, config.bridge_port as u64);
    url.append("/stream.mp3?");
    url.append("t=");
    push_decimal(&mut url, shared.stream_token);
    proof {
        assert(url@ =~= stream_url(config.sbc_ip@, config.bridge_port, shared.stream_token));
    }
    let (title, subtitle) = match &shared.current_track {
        Some(track) => (track.name.clone(), track.artist.clone()),
        None => (String::new(), String::new()),
    };
    RadioPlay { url, title, subtitle }
}

/// How long a transition waits at most for the delivery, in milliseconds.
pub const TRANSITION_TIMEOUT_MS: u64 = 30000;

/// What a transition finds when it looks at the stream that it waits for.
#[derive(Debug, Clone, Copy, PartialEq, Eq, Structural)]
pub enum TransitionPoll {
    /// Look again later.
    Wait,
    /// The station has the whole stream.
    Delivered,
    /// Playback was paused or stopped: there is nothing to wait for.
    Cancelled,
    /// The wait has been too long: switch anyway.
    TimedOut,
}

/// What a transition finds, `elapsed_ms` after it began to wait for a stream of
/// `expected` bytes.
pub open spec fn transition_poll<W>(
    shared: BridgeView<W>,
    expected: usize,
    elapsed_ms: u64,
) -> TransitionPoll {
    if shared.bytes_delivered >= expected {
        TransitionPoll::Delivered
    } else if !shared.streaming || shared.paused {
        TransitionPoll::Cancelled
    } else if elapsed_ms > TRANSITION_TIMEOUT_MS {
        TransitionPoll::TimedOut
    } else {
        TransitionPoll::Wait
    }
}

/// Looks at the stream that a transition waits for.
pub fn poll_transition<W>(shared: &BridgeShared<W>, expected: usize, elapsed_ms: u64) -> (r:
    TransitionPoll)
    ensures
        r == transition_poll(shared@, expected, elapsed_ms),
{
    if shared.bytes_delivered >= expected {
        TransitionPoll::Delivered
    } else if !shared.streaming || shared.paused {
        TransitionPoll::Cancelled
    } else if elapsed_ms > TRANSITION_TIMEOUT_MS {
        TransitionPoll::TimedOut
    } else {
        TransitionPoll::Wait
    }
}

/// What a finished transition asks for.
pub struct TransitionOutcome<W> {
    /// The next track's stream, if there is a next track.
    pub play: Option<RadioPlay>,
    pub wake: Option<W>,
}

impl<W> TransitionOutcome<W> {
    /// Whether this is what a finished transition asks for that found the state `before`
    /// and left the state `after`.
    pub open spec fn ends(
        self,
        before: BridgeView<W>,
        after: BridgeView<W>,
        config: BridgeConfig,
    ) -> bool {
        &&& self.play is Some <==> before.pending_track is Some
        &&& self.play matches Some(play) ==> play.announces(after, config)
        &&& self.wake == (if before.pending_track is Some {
            before.stream_waker
        } else {
            None
        })
    }
}

impl<W> BridgeView<W> {
    /// After a transition: the pending track has taken over, and in any case the end of
    /// the old one has been dealt with.
    pub open spec fn transitioned(self, now_ms: u64) -> Self {
        BridgeView { track_ended: false, ..self.switched(0, now_ms) }
    }
}

/// Ends a transition: switches to the pending track, if there is one.
pub fn finish_transition<W>(shared: &mut BridgeShared<W>, config: &BridgeConfig, now_ms: u64) -> (r:
    TransitionOutcome<W>)
    requires
        old(shared)@.wf(),
        old(shared)@.stream_token < u64::MAX,
        old(shared)@.tracks_played < u64::MAX,
    ensures
        final(shared)@ == old(shared)@.transitioned(now_ms),
        final(shared)@.wf(),
        r.ends(old(shared)@, final(shared)@, *config),
{
    let has_next = shared.pending_track.is_some();
    let wake = shared.switch_to_pending(0, now_ms);
    shared.track_ended = false;
    proof {
        assert(shared@ =~= old(shared)@.transitioned(now_ms));
    }
    let play = if has_next {
        Some(radio_play(shared, config))
    } else {
        None
    };
    TransitionOutcome { play, wake }
}

/// What a command asks for.
pub enum CommandAction<W> {
    /// Nothing now: the station is busy with Bluetooth, and the play command waits.
    Defer,
    /// Wake whoever waits for the stream, stop the station, then play the stream.
    Play(RadioPlay),
    /// Stop the station, and wake whoever waits for the stream.
    StopStation(Option<W>),
    /// Set the station's volume.
    SetVolume(u16),
    /// Wait for the debounce time, then confirm the pause.
    ConfirmPause(u64),
}

impl<W> CommandAction<W> {
    /// Whether this is what `command` asks for in the state `shared`.
    pub open spec fn carries_out(
        self,
        command: BridgeCommand,
        shared: BridgeView<W>,
        bt_playing: bool,
        config: BridgeConfig,
    ) -> bool {
        match command {
            BridgeCommand::SendRadioPlay => if bt_playing {
                self is Defer
            } else {
                self matches CommandAction::Play(play) && play.announces(shared, config)
            },
            BridgeCommand::Stop => self == CommandAction::<W>::StopStation(None),
            BridgeCommand::SetVolume(volume) => self == CommandAction::<W>::SetVolume(volume),
            BridgeCommand::AutoPause(token) => self == CommandAction::<W>::ConfirmPause(token),
            BridgeCommand::ForceStop => self == CommandAction::StopStation(shared.stream_waker),
        }
    }
}

impl<W> BridgeView<W> {
    /// The state after a command was taken up.
    pub open spec fn after_command(self, command: BridgeCommand, bt_playing: bool) -> Self {
        match command {
            BridgeCommand::SendRadioPlay => BridgeView {
                bt_deferred: self.bt_deferred || bt_playing,
                ..self
            },
            BridgeCommand::ForceStop => self.halted(),
            _ => self,
        }
    }
}

/// Takes up a command, while the station's Bluetooth playback is as `bt_playing` says.
pub fn execute_command<W>(
    shared: &mut BridgeShared<W>,
    command: BridgeCommand,
    bt_playing: bool,
    config: &BridgeConfig,
) -> (r: CommandAction<W>)
    ensures
        final(shared)@ == old(shared)@.after_command(command, bt_playing),
        old(shared)@.wf() ==> final(shared)@.wf(),
        r.carries_out(command, old(shared)@, bt_playing, *config),
{
    match command {
        BridgeCommand::SendRadioPlay => {
            if bt_playing {
                shared.bt_deferred = true;
                CommandAction::Defer
            } else {
                CommandAction::Play(radio_play(shared, config))
            }
        },
        BridgeCommand::Stop => CommandAction::StopStation(None),
        BridgeCommand::SetVolume(volume) => CommandAction::SetVolume(volume),
        BridgeCommand::AutoPause(token) => CommandAction::ConfirmPause(token),
        BridgeCommand::ForceStop => CommandAction::StopStation(shared.force_stop()),
    }
}

/// How long the station may be away before Spotify is paused, in milliseconds.
pub const AUTO_PAUSE_DEBOUNCE_MS: u64 = 2000;

/// How long after Bluetooth playback a deferred play command is sent, in milliseconds.
pub const BT_RESUME_DELAY_MS: u64 = 500;

/// How long after a stop the station is told to play, in milliseconds.
pub const STOP_TO_PLAY_DELAY_MS: u64 = 100;

/// How often a transition looks at the stream, in milliseconds.
pub const TRANSITION_POLL_MS: u64 = 200;

/// What comes of the station having left a stream.
#[derive(Debug, Clone, Copy, PartialEq, Eq, Structural)]
pub enum PauseVerdict {
    /// The state has changed meanwhile: nothing to do.
    Cancelled,
    /// The station plays Bluetooth: leave Spotify alone.
    Bluetooth,
    /// Pause Spotify and stop the station.
    Pause,
}

impl<W> BridgeView<W> {
    /// The stream with `token` is the current one, is being played, and it was not the
    /// bridge that ended it.
    pub open spec fn abandoned(self, token: u64) -> bool {
        self.streaming && !self.paused && !self.internal_disconnect && self.stream_token == token
    }
}

/// What is to be done about a station that left the stream with `token`.
pub open spec fn pause_verdict<W>(
    shared: BridgeView<W>,
    token: u64,
    bt_playing: bool,
) -> PauseVerdict {
    if !shared.abandoned(token) {
        PauseVerdict::Cancelled
    } else if bt_playing {
        PauseVerdict::Bluetooth
    } else {
        PauseVerdict::Pause
    }
}

/// Decides, after the debounce time, about a station that left the stream.
pub fn confirm_pause<W>(shared: &BridgeShared<W>, token: u64, bt_playing: bool) -> (r: PauseVerdict)
    ensures
        r == pause_verdict(shared@, token, bt_playing),
{
    if shared.streaming && !shared.paused && !shared.internal_disconnect && shared.stream_token
        == token {
        if bt_playing {
            PauseVerdict::Bluetooth
        } else {
            PauseVerdict::Pause
        }
    } else {
        PauseVerdict::Cancelled
    }
}

impl<W> BridgeView<W> {
    /// A play command waits for the station's Bluetooth playback to end.
    pub open spec fn owes_play(self) -> bool {
        self.bt_deferred
    }

    /// After it was taken down how many commands the station has been sent.
    pub open spec fn with_commands_sent(self, commands_sent: u64) -> Self {
        BridgeView { glagol_commands_sent: commands_sent, ..self }
    }

    /// After a play command that waited was let go.
    pub open spec fn released(self) -> Self {
        BridgeView { bt_deferred: false, ..self }
    }
}

/// Takes in that the station's Bluetooth playback has ended: whether a play command
/// waited for that, and is to be sent now.
pub fn bluetooth_stopped<W>(shared: &mut BridgeShared<W>) -> (send: bool)
    ensures
        send == old(shared)@.owes_play(),
        final(shared)@ == old(shared)@.released(),
        old(shared)@.wf() ==> final(shared)@.wf(),
{
    let deferred = shared.bt_deferred;
    if deferred {
        shared.bt_deferred = false;
    }
    deferred
}

/// Takes down how many commands the station has been sent.
pub fn record_commands_sent<W>(shared: &mut BridgeShared<W>, commands_sent: u64)
    ensures
        final(shared)@ == old(shared)@.with_commands_sent(commands_sent),
        old(shared)@.wf() ==> final(shared)@.wf(),
{
    shared.glagol_commands_sent = commands_sent;
}

} // verus!
