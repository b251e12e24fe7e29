//! What each operation of the bridge changes, and that it changes nothing else.
use vstd::prelude::*;

use crate::events::{
    CommandAction, EventOutcome, PlayerEvent, TransitionChange, TransitionTask,
};
use crate::http::{Endpoint, StreamBody};
use crate::state::{BridgeCommand, BridgeConfig, BridgeView, TrackInfo};

verus! {

/// Everything that can happen to the bridge.
pub enum Operation<W> {
    /// The encoder gives out data.
    Push(Seq<u8>),
    /// The player reports something.
    Event(PlayerEvent, u64),
    /// A transition comes to its end.
    Transition(u64),
    /// A command is taken up, while Bluetooth plays or does not.
    Command(BridgeCommand, bool),
    /// Somebody asks for a path, with a query.
    Request(Seq<char>, Option<Seq<char>>, u64),
    /// A client of a stream asks for more.
    Poll(StreamBody, W),
    /// The station's Bluetooth playback ends.
    BluetoothEnded,
    /// A session is opened or lost.
    Session(bool),
    /// The number of commands sent is taken down.
    CommandsSent(u64),
    /// What a closed session played is cleared.
    Clear,
}

/// The state after an operation.
pub open spec fn after<W>(s: BridgeView<W>, op: Operation<W>) -> BridgeView<W> {
    match op {
        Operation::Push(data) => s.pushed(data),
        Operation::Event(event, now_ms) => s.after_event(event, now_ms),
        Operation::Transition(now_ms) => s.transitioned(now_ms),
        Operation::Command(command, bt_playing) => s.after_command(command, bt_playing),
        Operation::Request(path, query, now_ms) => s.after_request(path, query, now_ms),
        Operation::Poll(body, waker) => s.served(body, waker),
        Operation::BluetoothEnded => s.released(),
        Operation::Session(alive) => s.with_session(alive),
        Operation::CommandsSent(commands_sent) => s.with_commands_sent(commands_sent),
        Operation::Clear => s.cleared(),
    }
}

/// The track that an operation begins: the one that is reported while nothing plays, and
/// the pending one when playback goes on after a pause or when a transition ends.
pub open spec fn begun<W>(s: BridgeView<W>, op: Operation<W>) -> Option<TrackInfo> {
    match op {
        Operation::Event(PlayerEvent::TrackChanged { track }, _) => if s.streaming
            || s.track_ended {
            None
        } else {
            Some(track)
        },
        Operation::Event(PlayerEvent::Playing { .. }, _) => if s.paused {
            s.pending_track
        } else {
            None
        },
        Operation::Transition(_) => s.pending_track,
        _ => None,
    }
}

/// An operation goes on with the paused track.
pub open spec fn resumes<W>(s: BridgeView<W>, op: Operation<W>) -> bool {
    op matches Operation::Event(PlayerEvent::Playing { .. }, _) && s.paused && s.pending_track
        is None
}

/// An operation goes to another position of the track, and it is not the bridge's own.
pub open spec fn seeks<W>(s: BridgeView<W>, op: Operation<W>) -> bool {
    op matches Operation::Event(PlayerEvent::Seeked { .. }, _) && !s.internal_seek
}

/// An operation pauses playback.
pub open spec fn pauses<W>(op: Operation<W>) -> bool {
    op matches Operation::Event(PlayerEvent::Paused { .. }, _)
}

/// An operation begins another stream.
pub open spec fn cuts<W>(s: BridgeView<W>, op: Operation<W>) -> bool {
    begun(s, op) is Some || resumes(s, op) || seeks(s, op) || pauses(op)
}

/// An operation ends playback with no track to follow.
pub open spec fn gives_up<W>(s: BridgeView<W>, op: Operation<W>) -> bool {
    match op {
        Operation::Event(PlayerEvent::Stopped, _) => s.pending_track is None,
        Operation::Clear => true,
        _ => false,
    }
}

/// An operation stops playback, by force or because there is nothing to follow.
pub open spec fn halts<W>(s: BridgeView<W>, op: Operation<W>) -> bool {
    gives_up(s, op) || match op {
        Operation::Command(command, _) => command == BridgeCommand::ForceStop,
        Operation::Request(path, _, _) => crate::http::endpoint_of(path) == Endpoint::Stop,
        _ => false,
    }
}

/// A client is let in to the current stream.
pub open spec fn lets_in<W>(s: BridgeView<W>, op: Operation<W>) -> bool {
    op matches Operation::Request(path, query, _) && crate::http::endpoint_of(path)
        == Endpoint::Stream && s.streaming && crate::http::token_of_query(query)
        == s.stream_token
}

/// A client of the current stream that is not done asks for more.
pub open spec fn asks<W>(s: BridgeView<W>, op: Operation<W>) -> bool {
    op matches Operation::Poll(body, _) && !body.done && body.token == s.stream_token
}

/// The data that an operation takes off the queue: the oldest, for a client that asks.
pub open spec fn taken<W>(s: BridgeView<W>, op: Operation<W>) -> Seq<u8> {
    if asks(s, op) && s.mp3_buffer.len() > 0 {
        s.mp3_buffer[0]
    } else {
        Seq::empty()
    }
}

/// The data that an operation puts on the queue.
pub open spec fn added<W>(op: Operation<W>) -> Seq<u8> {
    match op {
        Operation::Push(data) => data,
        _ => Seq::empty(),
    }
}

/// The position of the track at which an operation begins a stream.
pub open spec fn position_of<W>(op: Operation<W>) -> u32 {
    match op {
        Operation::Event(PlayerEvent::Playing { position_ms }, _) => position_ms,
        Operation::Event(PlayerEvent::Seeked { position_ms }, _) => position_ms,
        _ => 0,
    }
}

/// When an operation takes place, where that is known.
pub open spec fn time_of<W>(op: Operation<W>) -> u64 {
    match op {
        Operation::Event(_, now_ms) => now_ms,
        Operation::Transition(now_ms) => now_ms,
        Operation::Request(_, _, now_ms) => now_ms,
        _ => 0,
    }
}

/// The token grows by one with every new stream, and stays otherwise.
pub proof fn law_token<W>(s: BridgeView<W>, op: Operation<W>)
    requires
        s.stream_token < u64::MAX,
    ensures
        after(s, op).stream_token == s.stream_token + (if cuts(s, op) {
            1int
        } else {
            0int
        }),
{
}

/// The queue is emptied by a new stream and by a stop. Otherwise what is added comes to
/// its end, what is taken leaves its front, and nothing else happens to it; above all, a
/// client that connects finds all of it.
pub proof fn law_queue<W>(s: BridgeView<W>, op: Operation<W>)
    ensures
        after(s, op).mp3_buffer == (if cuts(s, op) || halts(s, op) {
            Seq::empty()
        } else if added(op).len() > 0 {
            s.mp3_buffer.push(added(op))
        } else if asks(s, op) && s.mp3_buffer.len() > 0 {
            s.mp3_buffer.skip(1)
        } else {
            s.mp3_buffer
        }),
{
}

/// What is produced and delivered is counted to the byte, from zero in every new stream
/// but the one that a pause leaves behind; what is served is counted for good.
pub proof fn law_counts<W>(s: BridgeView<W>, op: Operation<W>)
    requires
        s.bytes_produced + added(op).len() <= usize::MAX,
        s.bytes_delivered + taken(s, op).len() <= usize::MAX,
        s.total_bytes_served + taken(s, op).len() <= u64::MAX,
    ensures
        after(s, op).bytes_produced == (if cuts(s, op) && !pauses(op) {
            0
        } else {
            s.bytes_produced + added(op).len()
        }),
        after(s, op).bytes_delivered == (if cuts(s, op) && !pauses(op) {
            0
        } else {
            s.bytes_delivered + taken(s, op).len()
        }),
        after(s, op).total_bytes_served == s.total_bytes_served + taken(s, op).len(),
{
}

/// A new stream is promised to be as long as the rest of its track from its position on;
/// a pause, and everything else, leaves the promise as it is.
pub proof fn law_promise<W>(s: BridgeView<W>, op: Operation<W>)
    ensures
        ({
            let t = after(s, op);
            if cuts(s, op) && !pauses(op) && t.current_track is Some {
                t.expected_bytes == crate::state::content_length(
                    t.current_track->0.duration_ms as int,
                    position_of(op) as int,
                ) as usize
            } else {
                t.expected_bytes == s.expected_bytes
            }
        }),
{
}

/// The current track is the one that was begun last, until playback is given up. A track
/// that is reported while another one plays or has just ended waits until it is begun or
/// the session is cleared. Every track that is begun is counted.
pub proof fn law_tracks<W>(s: BridgeView<W>, op: Operation<W>)
    requires
        s.tracks_played < u64::MAX,
    ensures
        after(s, op).current_track == (if begun(s, op) is Some {
            begun(s, op)
        } else if gives_up(s, op) {
            None
        } else {
            s.current_track
        }),
        after(s, op).pending_track == (match op {
            Operation::Event(PlayerEvent::TrackChanged { track }, _) => if begun(s, op) is Some {
                s.pending_track
            } else {
                Some(track)
            },
            Operation::Clear => None,
            _ => if begun(s, op) is Some {
                None
            } else {
                s.pending_track
            },
        }),
        after(s, op).tracks_played == s.tracks_played + (if begun(s, op) is Some {
            1int
        } else {
            0int
        }),
{
}

/// The bridge streams from when a track is begun until playback is stopped. It is paused
/// from a pause, or a stop in the middle of a skip, until a stream is begun or playback is
/// stopped. A track has ended from the report of its end until another stream is begun,
/// the pause, the end of the transition, or playback is given up.
pub proof fn law_flags<W>(s: BridgeView<W>, op: Operation<W>)
    ensures
        after(s, op).streaming == ((s.streaming || begun(s, op) is Some) && !halts(s, op)),
        after(s, op).paused == (if pauses(op) {
            true
        } else if begun(s, op) is Some || resumes(s, op) || halts(s, op) {
            false
        } else {
            s.paused || op matches Operation::Event(PlayerEvent::Stopped, _)
        }),
        after(s, op).track_ended == (if cuts(s, op) || gives_up(s, op) || op is Transition {
            false
        } else {
            s.track_ended || op matches Operation::Event(PlayerEvent::EndOfTrack, _)
        }),
{
}

/// The clock of a stream starts when a track is begun or sought in, and with it the wait
/// for the station, which ends when a client is first let in. Then, where the start is
/// known, the lag is estimated: the time since the start, and two and a half seconds.
pub proof fn law_times<W>(s: BridgeView<W>, op: Operation<W>)
    requires
        time_of(op) <= u64::MAX - 2500,
    ensures
        ({
            let t = after(s, op);
            let restarts = begun(s, op) is Some || seeks(s, op);
            let first = lets_in(s, op) && s.station_connected_wall is None;
            &&& t.track_start_wall == (if restarts {
                Some(time_of(op))
            } else {
                s.track_start_wall
            })
            &&& t.station_connected_wall == (if restarts {
                None
            } else if first {
                Some(time_of(op))
            } else {
                s.station_connected_wall
            })
            &&& match s.track_start_wall {
                Some(start) if first => t.station_offset_ms == 2500 + (if start <= time_of(op) {
                    time_of(op) - start
                } else {
                    0
                }),
                _ => t.station_offset_ms == s.station_offset_ms,
            }
        }),
{
}

/// It counts as the bridge's own doing that a stream has ended, from when the bridge
/// begins another one until a client is let in to that. A seek of the bridge's own is
/// passed over once.
pub proof fn law_own_doing<W>(s: BridgeView<W>, op: Operation<W>)
    ensures
        after(s, op).internal_disconnect == ((s.internal_disconnect || cuts(s, op)) && !lets_in(
            s,
            op,
        )),
        after(s, op).internal_seek == (s.internal_seek && !(op matches Operation::Event(
            PlayerEvent::Seeked { .. },
            _,
        ))),
{
}

/// A client that asks, finds nothing queued and has not got all that it was promised.
pub open spec fn must_wait<W>(s: BridgeView<W>, op: Operation<W>) -> bool {
    &&& asks(s, op)
    &&& s.mp3_buffer.len() == 0
    &&& op matches Operation::Poll(body, _) && body.bytes_delivered < body.expected_bytes
}

/// The waker of a client that has to wait is kept until there is data, or until the
/// stream is over other than by going on after a pause.
pub proof fn law_waker<W>(s: BridgeView<W>, op: Operation<W>)
    ensures
        after(s, op).stream_waker == (if must_wait(s, op) {
            match op {
                Operation::Poll(_, waker) => Some(waker),
                _ => None,
            }
        } else if added(op).len() > 0 || halts(s, op) || cuts(s, op) && !resumes(s, op) {
            None
        } else {
            s.stream_waker
        }),
{
}

/// A play command that meets Bluetooth playback waits until that ends. Whether there is a
/// session, and how many commands were sent, is as was last taken down. The silence, and
/// what is known of the last transition, never change.
pub proof fn law_the_rest<W>(s: BridgeView<W>, op: Operation<W>)
    ensures
        after(s, op).bt_deferred == (match op {
            Operation::Command(command, bt_playing) => s.bt_deferred || command
                == BridgeCommand::SendRadioPlay && bt_playing,
            Operation::BluetoothEnded => false,
            _ => s.bt_deferred,
        }),
        after(s, op).spirc_alive == (match op {
            Operation::Session(alive) => alive,
            _ => s.spirc_alive,
        }),
        after(s, op).glagol_commands_sent == (match op {
            Operation::CommandsSent(commands_sent) => commands_sent,
            _ => s.glagol_commands_sent,
        }),
        after(s, op).silence == s.silence,
        after(s, op).last_transition_ms == s.last_transition_ms,
{
}

/// A command to stop the station, to set its volume or to confirm a pause leaves the
/// bridge as it is, and so does a play command that goes out.
pub proof fn law_commands_change_nothing<W>(
    s: BridgeView<W>,
    volume: u16,
    token: u64,
    bt_playing: bool,
)
    ensures
        s.after_command(BridgeCommand::Stop, bt_playing) == s,
        s.after_command(BridgeCommand::SetVolume(volume), bt_playing) == s,
        s.after_command(BridgeCommand::AutoPause(token), bt_playing) == s,
        s.after_command(BridgeCommand::SendRadioPlay, false) == s,
{
}

/// The volume that the player reports is the volume that the station is to have; nothing
/// else comes of the report.
pub proof fn law_volume_is_passed_on<W>(
    s: BridgeView<W>,
    volume: u16,
    task: TransitionTask,
    now_ms: u64,
    config: BridgeConfig,
    bt_playing: bool,
    action: CommandAction<W>,
)
    ensures
        s.after_event(PlayerEvent::VolumeChanged { volume }, now_ms) == s,
        s.event_outcome(PlayerEvent::VolumeChanged { volume }, task) == (EventOutcome::<W> {
            transition: TransitionChange::Keep,
            command: Some(BridgeCommand::SetVolume(volume)),
            wake: None,
        }),
        action.carries_out(BridgeCommand::SetVolume(volume), s, bt_playing, config) <==> action
            == CommandAction::<W>::SetVolume(volume),
{
}

/// What an event asks for follows from what it does: a new stream is announced, a pause
/// stops the station, a volume is passed on, and nothing else is sent. Whoever waits for
/// a stream that is over is woken. A transition under way is given up for a new stream
/// that does not come of a pause, for a pause and when playback is given up; one is begun
/// when both the end of the track and the next track have been reported.
pub proof fn law_what_events_ask_for<W>(
    s: BridgeView<W>,
    event: PlayerEvent,
    task: TransitionTask,
    now_ms: u64,
)
    ensures
        ({
            let op = Operation::<W>::Event(event, now_ms);
            let outcome = s.event_outcome(event, task);
            &&& outcome.command == (if pauses(op) {
                Some(BridgeCommand::Stop)
            } else if cuts(s, op) {
                Some(BridgeCommand::SendRadioPlay)
            } else {
                match event {
                    PlayerEvent::VolumeChanged { volume } => Some(
                        BridgeCommand::SetVolume(volume),
                    ),
                    _ => None,
                }
            })
            &&& outcome.wake == (if halts(s, op) || cuts(s, op) && !resumes(s, op) {
                s.stream_waker
            } else {
                None
            })
            &&& outcome.transition == (if pauses(op) || seeks(s, op) || gives_up(s, op) || (begun(
                s,
                op,
            ) is Some && event is TrackChanged) {
                TransitionChange::Cancel
            } else if event is EndOfTrack && s.pending_track is Some {
                TransitionChange::Restart
            } else if event is TrackChanged && s.track_ended && task != TransitionTask::Running {
                TransitionChange::Start
            } else {
                TransitionChange::Keep
            })
        }),
{
}

/// Events that say nothing new leave the bridge as it is.
pub proof fn law_idle_events_change_nothing<W>(s: BridgeView<W>, position_ms: u32, now_ms: u64)
    ensures
        s.after_event(PlayerEvent::Unavailable, now_ms) == s,
        s.after_event(PlayerEvent::Other, now_ms) == s,
        !s.paused ==> s.after_event(PlayerEvent::Playing { position_ms }, now_ms) == s,
{
}

/// No waker is lost: one that leaves the state is handed out, by every operation.
pub proof fn law_no_waker_is_lost<W>(s: BridgeView<W>, op: Operation<W>, task: TransitionTask)
    ensures
        ({
            let woken = match op {
                Operation::Push(data) => s.woken_by_data(data),
                Operation::Event(event, _) => s.event_outcome(event, task).wake,
                Operation::Request(path, _, _) => s.woken_by(path),
                _ => s.stream_waker,
            };
            s.stream_waker is Some && after(s, op).stream_waker is None ==> woken
                == s.stream_waker
        }),
        ({
            let stays = after(s, op).stream_waker == s.stream_waker;
            match op {
                Operation::Push(data) => stays && s.stream_waker is Some ==> s.woken_by_data(data)
                    is None,
                Operation::Request(path, _, _) => stays && s.stream_waker is Some ==> s.woken_by(
                    path,
                ) is None,
                _ => true,
            }
        }),
{
}

/// What a command asks for: a play command waits for Bluetooth and otherwise announces the
/// current stream, a stop stops the station, and a forced stop also wakes whoever waits.
pub proof fn law_what_commands_ask_for<W>(
    s: BridgeView<W>,
    command: BridgeCommand,
    bt_playing: bool,
    config: BridgeConfig,
    action: CommandAction<W>,
)
    requires
        action.carries_out(command, s, bt_playing, config),
    ensures
        action is Defer <==> command == BridgeCommand::SendRadioPlay && bt_playing,
        action is Play <==> command == BridgeCommand::SendRadioPlay && !bt_playing,
        action matches CommandAction::Play(play) ==> {
            &&& play.url@ == "http://"@ + config.sbc_ip@ + ":"@ + crate::text::decimal(
                config.bridge_port as nat,
            ) + "/stream.mp3?"@ + ("t="@ + crate::text::decimal(s.stream_token as nat))
            &&& s.current_track matches Some(track) ==> play.title@ == track.name@
                && play.subtitle@ == track.artist@
            &&& s.current_track is None ==> play.title@.len() == 0 && play.subtitle@.len() == 0
        },
        action matches CommandAction::StopStation(wake) ==> {
            ||| command == BridgeCommand::Stop && wake is None
            ||| command == BridgeCommand::ForceStop && wake == s.stream_waker
        },
        action is StopStation <==> command == BridgeCommand::Stop || command
            == BridgeCommand::ForceStop,
        action matches CommandAction::SetVolume(volume) ==> command == BridgeCommand::SetVolume(
            volume,
        ),
        action matches CommandAction::ConfirmPause(token) ==> command
            == BridgeCommand::AutoPause(token),
{
}

/// When a transition ends, the pending track, if there is one, is announced under the new
/// token by its own name and artist, and whoever waits for the old stream is woken.
pub proof fn law_what_transitions_ask_for<W>(
    s: BridgeView<W>,
    now_ms: u64,
    config: BridgeConfig,
    outcome: crate::events::TransitionOutcome<W>,
)
    requires
        s.stream_token < u64::MAX,
        outcome.ends(s, s.transitioned(now_ms), config),
    ensures
        s.pending_track matches Some(next) ==> {
            &&& outcome.play matches Some(play)
            &&& play.title@ == next.name@
            &&& play.subtitle@ == next.artist@
            &&& play.url@ == "http://"@ + config.sbc_ip@ + ":"@ + crate::text::decimal(
                config.bridge_port as nat,
            ) + "/stream.mp3?"@ + ("t="@ + crate::text::decimal((s.stream_token + 1) as nat))
            &&& outcome.wake == s.stream_waker
        },
        s.pending_track is None ==> outcome.play is None && outcome.wake is None,
{
}

/// A bridge that has just been started: nothing plays, nothing is queued or promised,
/// everything is counted from zero, and nothing is known of a session.
pub proof fn law_start<W>(silence: Seq<u8>)
    ensures
        ({
            let s = BridgeView::<W>::initial(silence);
            &&& !s.streaming && !s.paused && !s.track_ended
            &&& s.current_track is None && s.pending_track is None
            &&& s.mp3_buffer.len() == 0 && s.stream_waker is None
            &&& s.stream_token == 0 && s.expected_bytes == 0
            &&& s.bytes_produced == 0 && s.bytes_delivered == 0
            &&& s.tracks_played == 0 && s.total_bytes_served == 0
            &&& s.glagol_commands_sent == 0 && s.last_transition_ms == 0
            &&& s.track_start_wall is None && s.station_connected_wall is None
            &&& s.station_offset_ms == 0
            &&& !s.internal_seek && !s.internal_disconnect && !s.bt_deferred && !s.spirc_alive
            &&& s.silence == silence
        }),
{
}

/// What a pause of the station's making comes to: Spotify is paused exactly where the
/// stream that the station left is current and plays, it was not the bridge that ended
/// it, and the station does not play Bluetooth.
pub proof fn law_pause_exactly<W>(s: BridgeView<W>, token: u64, bt_playing: bool)
    ensures
        crate::events::pause_verdict(s, token, bt_playing) == crate::events::PauseVerdict::Pause
            <==> {
            &&& s.streaming && !s.paused && !s.internal_disconnect
            &&& token == s.stream_token
            &&& !bt_playing
        },
        crate::events::pause_verdict(s, token, bt_playing)
            == crate::events::PauseVerdict::Bluetooth <==> {
            &&& s.streaming && !s.paused && !s.internal_disconnect
            &&& token == s.stream_token
            &&& bt_playing
        },
{
}

/// The metadata of an item: the name, address and length that it has, the first of its
/// covers, and by what kind it is the first artist and the album, or the show.
pub proof fn law_metadata(track: TrackInfo, item: crate::events::AudioItem)
    requires
        crate::events::describes(track, item),
    ensures
        track.name@ == item.name@,
        track.uri@ == item.uri@,
        track.duration_ms == item.duration_ms,
        item.covers@.len() > 0 ==> track.cover@ == item.covers@[0]@,
        item.covers@.len() == 0 ==> track.cover@.len() == 0,
        item.unique_fields matches crate::events::UniqueFields::Track { artists, album } ==> {
            &&& track.album@ == album@
            &&& artists@.len() > 0 ==> track.artist@ == artists@[0]@
            &&& artists@.len() == 0 ==> track.artist@.len() == 0
        },
        item.unique_fields matches crate::events::UniqueFields::Episode { show_name } ==> {
            &&& track.artist@ == show_name@
            &&& track.album@.len() == 0
        },
        item.unique_fields is Other ==> track.artist@.len() == 0 && track.album@.len() == 0,
{
}

/// The pace of things, in milliseconds: how long the station may be away, how long a play
/// command waits after Bluetooth and after a stop, how often and how long a transition
/// looks at the stream, and how far the station's own buffer puts it behind.
pub proof fn law_pace_of_things()
    ensures
        crate::events::AUTO_PAUSE_DEBOUNCE_MS == 2000,
        crate::events::BT_RESUME_DELAY_MS == 500,
        crate::events::STOP_TO_PLAY_DELAY_MS == 100,
        crate::events::TRANSITION_POLL_MS == 200,
        crate::events::TRANSITION_TIMEOUT_MS == 30000,
        crate::http::STATION_BUFFER_MS == 2500,
{
}

} // verus!
