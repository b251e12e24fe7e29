//! What the bridge knows: the stream it serves, the track it plays, the commands
//! it owes the station and what the station last said of itself.
//!
//! Times are milliseconds of one monotonic clock.
use std::collections::VecDeque;

use bytes::Bytes;
use vstd::prelude::*;

use crate::chunk::bytes_from_vec;

verus! {

/// Track metadata.
#[derive(Debug, Clone)]
pub struct TrackInfo {
    pub name: String,
    pub artist: String,
    pub album: String,
    pub cover: String,
    pub uri: String,
    pub duration_ms: u32,
}

/// MP3 bit rate, in kilobits per second.
pub const MP3_BITRATE: u32 = 192;

/// MP3 bytes per second of audio.
pub const MP3_BYTES_PER_SEC: usize = 24000;

/// PCM sample rate, in hertz.
pub const SAMPLE_RATE: u32 = 44100;

/// PCM channels.
pub const CHANNELS: u32 = 2;

/// The state shared by the audio thread and the tasks around it. `W` is whatever
/// wakes a stream that waits for data: an operation that ends such a wait hands the
/// waker out, and its caller wakes it.
pub struct BridgeShared<W> {
    /// Encoded audio that no client has received yet, oldest first.
    pub mp3_buffer: VecDeque<Bytes>,
    /// Set while a client waits for data.
    pub stream_waker: Option<W>,
    /// Names the current stream; a client with another token is stale.
    pub stream_token: u64,
    /// Content length of the current stream.
    pub expected_bytes: usize,
    /// Bytes encoded for the current stream.
    pub bytes_produced: usize,
    /// Bytes of the current stream handed to clients.
    pub bytes_delivered: usize,
    pub current_track: Option<TrackInfo>,
    pub pending_track: Option<TrackInfo>,
    /// The player has reported the end of the current track.
    pub track_ended: bool,
    pub streaming: bool,
    pub paused: bool,
    /// When the current stream was begun.
    pub track_start_wall: Option<u64>,
    /// When the station first connected to the current track.
    pub station_connected_wall: Option<u64>,
    /// How far the station lags behind, by estimate.
    pub station_offset_ms: u64,
    /// The next seek is the bridge's own.
    pub internal_seek: bool,
    /// The bridge itself ended the stream (skip, seek, pause, new track), and the
    /// station has not connected to the new one yet.
    pub internal_disconnect: bool,
    /// A play command waits for the station's Bluetooth playback to end.
    pub bt_deferred: bool,
    pub spirc_alive: bool,
    pub tracks_played: u64,
    pub total_bytes_served: u64,
    pub glagol_commands_sent: u64,
    pub last_transition_ms: u64,
    /// Encoded silence, for clients with a stale token.
    pub silence: Bytes,
}

/// The mathematical content of a `BridgeShared`.
#[verifier::ext_equal]
pub struct BridgeView<W> {
    pub mp3_buffer: Seq<Seq<u8>>,
    pub stream_waker: Option<W>,
    pub stream_token: u64,
    pub expected_bytes: usize,
    pub bytes_produced: usize,
    pub bytes_delivered: usize,
    pub current_track: Option<TrackInfo>,
    pub pending_track: Option<TrackInfo>,
    pub track_ended: bool,
    pub streaming: bool,
    pub paused: bool,
    pub track_start_wall: Option<u64>,
    pub station_connected_wall: Option<u64>,
    pub station_offset_ms: u64,
    pub internal_seek: bool,
    pub internal_disconnect: bool,
    pub bt_deferred: bool,
    pub spirc_alive: bool,
    pub tracks_played: u64,
    pub total_bytes_served: u64,
    pub glagol_commands_sent: u64,
    pub last_transition_ms: u64,
    pub silence: Seq<u8>,
}

impl<W> View for BridgeShared<W> {
    type V = BridgeView<W>;

    open spec fn view(&self) -> BridgeView<W> {
        BridgeView {
            mp3_buffer: crate::chunk::chunk_contents(self.mp3_buffer@),
            stream_waker: self.stream_waker,
            stream_token: self.stream_token,
            expected_bytes: self.expected_bytes,
            bytes_produced: self.bytes_produced,
            bytes_delivered: self.bytes_delivered,
            current_track: self.current_track,
            pending_track: self.pending_track,
            track_ended: self.track_ended,
            streaming: self.streaming,
            paused: self.paused,
            track_start_wall: self.track_start_wall,
            station_connected_wall: self.station_connected_wall,
            station_offset_ms: self.station_offset_ms,
            internal_seek: self.internal_seek,
            internal_disconnect: self.internal_disconnect,
            bt_deferred: self.bt_deferred,
            spirc_alive: self.spirc_alive,
            tracks_played: self.tracks_played,
            total_bytes_served: self.total_bytes_served,
            glagol_commands_sent: self.glagol_commands_sent,
            last_transition_ms: self.last_transition_ms,
            silence: crate::chunk::bytes_content(self.silence),
        }
    }
}

/// The time from `since_ms` to `now_ms`; none, where the clock has not moved on.
pub open spec fn elapsed(since_ms: u64, now_ms: u64) -> u64 {
    if since_ms < now_ms {
        (now_ms - since_ms) as u64
    } else {
        0
    }
}

/// The time from `since_ms` to `now_ms`.
pub fn elapsed_ms(since_ms: u64, now_ms: u64) -> (r: u64)
    ensures
        r == elapsed(since_ms, now_ms),
{
    now_ms.saturating_sub(since_ms)
}

/// Milliseconds of a track that are left to play.
pub open spec fn remaining_ms(duration_ms: int, position_ms: int) -> int {
    if position_ms < duration_ms {
        duration_ms - position_ms
    } else {
        0
    }
}

/// Content length of a stream that begins at `position_ms`: the seconds left,
/// rounded up, and one second of padding, at the MP3 byte rate.
pub open spec fn content_length(duration_ms: int, position_ms: int) -> int {
    ((remaining_ms(duration_ms, position_ms) + 999) / 1000 + 1) * MP3_BYTES_PER_SEC
}

/// Whether the content length of a track is within this machine's sizes, which on a
/// 64-bit machine it always is.
pub open spec fn track_fits(track: TrackInfo) -> bool {
    content_length(track.duration_ms as int, 0) <= usize::MAX
}

/// Whether an optional track, if it is there, fits.
pub open spec fn opt_track_fits(track: Option<TrackInfo>) -> bool {
    track matches Some(t) ==> track_fits(t)
}

impl<W> BridgeView<W> {
    /// What every operation keeps: no more has been delivered than was produced, what
    /// is queued counted in, and the tracks at hand fit this machine.
    pub open spec fn wf(self) -> bool {
        &&& self.bytes_delivered + crate::chunk::total_len(self.mp3_buffer) <= self.bytes_produced
        &&& opt_track_fits(self.current_track)
        &&& opt_track_fits(self.pending_track)
    }

    /// The state of a bridge that has just been started.
    pub open spec fn initial(silence: Seq<u8>) -> Self {
        BridgeView {
            mp3_buffer: Seq::empty(),
            stream_waker: None,
            stream_token: 0,
            expected_bytes: 0,
            bytes_produced: 0,
            bytes_delivered: 0,
            current_track: None,
            pending_track: None,
            track_ended: false,
            streaming: false,
            paused: false,
            track_start_wall: None,
            station_connected_wall: None,
            station_offset_ms: 0,
            internal_seek: false,
            internal_disconnect: false,
            bt_deferred: false,
            spirc_alive: false,
            tracks_played: 0,
            total_bytes_served: 0,
            glagol_commands_sent: 0,
            last_transition_ms: 0,
            silence,
        }
    }

    /// After encoded data came in: queued behind the rest, and nobody waits any more.
    /// No data changes nothing.
    pub open spec fn pushed(self, data: Seq<u8>) -> Self {
        if data.len() == 0 {
            self
        } else {
            BridgeView {
                mp3_buffer: self.mp3_buffer.push(data),
                bytes_produced: (self.bytes_produced + data.len()) as usize,
                stream_waker: None,
                ..self
            }
        }
    }

    /// Whose wait encoded data ends.
    pub open spec fn woken_by_data(self, data: Seq<u8>) -> Option<W> {
        if data.len() == 0 {
            None
        } else {
            self.stream_waker
        }
    }

    /// After the stream was cut by the bridge itself: a new token, nothing queued.
    pub open spec fn cut(self) -> Self {
        BridgeView {
            internal_disconnect: true,
            stream_token: (self.stream_token + 1) as u64,
            mp3_buffer: Seq::empty(),
            ..self
        }
    }

    /// After a track was begun at `position_ms`.
    pub open spec fn started(self, track: TrackInfo, position_ms: u32, now_ms: u64) -> Self {
        BridgeView {
            bytes_produced: 0,
            bytes_delivered: 0,
            expected_bytes: content_length(
                track.duration_ms as int,
                position_ms as int,
            ) as usize,
            current_track: Some(track),
            track_ended: false,
            streaming: true,
            paused: false,
            tracks_played: (self.tracks_played + 1) as u64,
            track_start_wall: Some(now_ms),
            station_connected_wall: None,
            stream_waker: None,
            ..self.cut()
        }
    }

    /// Content length of the current track from `position_ms` on; without a current
    /// track, what it was.
    pub open spec fn expected_from(self, position_ms: u32) -> usize {
        match self.current_track {
            Some(track) => content_length(
                track.duration_ms as int,
                position_ms as int,
            ) as usize,
            None => self.expected_bytes,
        }
    }

    /// After the stream was begun anew at `position_ms` of the same track.
    pub open spec fn reset(self, position_ms: u32, now_ms: u64) -> Self {
        BridgeView {
            bytes_produced: 0,
            bytes_delivered: 0,
            expected_bytes: self.expected_from(position_ms),
            track_ended: false,
            station_connected_wall: None,
            track_start_wall: Some(now_ms),
            stream_waker: None,
            ..self.cut()
        }
    }

    /// After playback was stopped by force.
    pub open spec fn halted(self) -> Self {
        BridgeView {
            streaming: false,
            paused: false,
            mp3_buffer: Seq::empty(),
            stream_waker: None,
            ..self
        }
    }
}

impl<W> BridgeShared<W> {
    /// A bridge that plays nothing yet.
    pub fn new(silence: Bytes) -> (r: Self)
        ensures
            r@ == BridgeView::<W>::initial(crate::chunk::bytes_content(silence)),
            r@.wf(),
    {
        let r = Self {
            mp3_buffer: VecDeque::with_capacity(64),
            stream_waker: None,
            stream_token: 0,
            expected_bytes: 0,
            bytes_produced: 0,
            bytes_delivered: 0,
            current_track: None,
            pending_track: None,
            track_ended: false,
            streaming: false,
            paused: false,
            track_start_wall: None,
            station_connected_wall: None,
            station_offset_ms: 0,
            internal_seek: false,
            internal_disconnect: false,
            bt_deferred: false,
            spirc_alive: false,
            tracks_played: 0,
            total_bytes_served: 0,
            glagol_commands_sent: 0,
            last_transition_ms: 0,
            silence,
        };
        proof {
            assert(r@ =~= BridgeView::<W>::initial(crate::chunk::bytes_content(silence)));
        }
        r
    }

    /// Queues encoded data, and hands out the waker of a client that waits for it.
    #[must_use]
    pub fn push_mp3(&mut self, data: Vec<u8>) -> (wake: Option<W>)
        requires
            old(self)@.bytes_produced + data@.len() <= usize::MAX,
        ensures
            final(self)@ == old(self)@.pushed(data@),
            wake == old(self)@.woken_by_data(data@),
            old(self)@.wf() ==> final(self)@.wf(),
    {
        if data.is_empty() {
            return None;
        }
        self.bytes_produced = self.bytes_produced + data.len();
        self.mp3_buffer.push_back(bytes_from_vec(data));
        let wake = self.stream_waker.take();
        proof {
            assert(self@.mp3_buffer =~= old(self)@.mp3_buffer.push(data@));
            assert(self@.mp3_buffer.drop_last() =~= old(self)@.mp3_buffer);
        }
        wake
    }

    /// Content length for a track that begins at `position_ms`.
    pub fn calc_expected_bytes(duration_ms: u32, position_ms: u32) -> (r: usize)
        requires
            content_length(duration_ms as int, position_ms as int) <= usize::MAX,
        ensures
            r == content_length(duration_ms as int, position_ms as int),
    {
        let remaining: usize = duration_ms.saturating_sub(position_ms) as usize;
        let seconds: usize = (remaining + 999) / 1000 + 1;
        seconds * MP3_BYTES_PER_SEC
    }

    /// Begins the stream of a new track, and hands out the waker of a client of the
    /// old one.
    #[must_use]
    pub fn start_new_track(&mut self, track: TrackInfo, position_ms: u32, now_ms: u64) -> (wake:
        Option<W>)
        requires
            old(self)@.wf(),
            track_fits(track),
            old(self)@.stream_token < u64::MAX,
            old(self)@.tracks_played < u64::MAX,
        ensures
            final(self)@ == old(self)@.started(track, position_ms, now_ms),
            wake == old(self)@.stream_waker,
            final(self)@.wf(),
    {
        self.internal_disconnect = true;
        self.stream_token = self.stream_token + 1;
        self.mp3_buffer.clear();
        self.bytes_produced = 0;
        self.bytes_delivered = 0;
        self.expected_bytes = Self::calc_expected_bytes(track.duration_ms, position_ms);
        self.current_track = Some(track);
        self.track_ended = false;
        self.streaming = true;
        self.paused = false;
        self.tracks_played = self.tracks_played + 1;
        self.track_start_wall = Some(now_ms);
        self.station_connected_wall = None;
        let wake = self.stream_waker.take();
        proof {
            assert(self@ =~= old(self)@.started(track, position_ms, now_ms));
        }
        wake
    }

    /// Begins the stream of the current track anew at `position_ms`, and hands out the
    /// waker of a client of the old one.
    #[must_use]
    pub fn reset_stream(&mut self, position_ms: u32, now_ms: u64) -> (wake: Option<W>)
        requires
            old(self)@.wf(),
            old(self)@.stream_token < u64::MAX,
        ensures
            final(self)@ == old(self)@.reset(position_ms, now_ms),
            wake == old(self)@.stream_waker,
            final(self)@.wf(),
    {
        self.internal_disconnect = true;
        self.stream_token = self.stream_token + 1;
        self.mp3_buffer.clear();
        self.bytes_produced = 0;
        self.bytes_delivered = 0;
        if let Some(track) = &self.current_track {
            self.expected_bytes = Self::calc_expected_bytes(track.duration_ms, position_ms);
        }
        self.track_ended = false;
        self.station_connected_wall = None;
        self.track_start_wall = Some(now_ms);
        let wake = self.stream_waker.take();
        proof {
            assert(self@ =~= old(self)@.reset(position_ms, now_ms));
        }
        wake
    }

    /// Stops playback, and hands out the waker of a client that waits.
    #[must_use]
    pub fn force_stop(&mut self) -> (wake: Option<W>)
        ensures
            final(self)@ == old(self)@.halted(),
            wake == old(self)@.stream_waker,
            old(self)@.wf() ==> final(self)@.wf(),
    {
        self.streaming = false;
        self.paused = false;
        self.mp3_buffer.clear();
        let wake = self.stream_waker.take();
        proof {
            assert(self@ =~= old(self)@.halted());
        }
        wake
    }
}

/// Commands from the event handler to the command executor.
#[derive(Debug, Clone, Copy, PartialEq, Eq, Structural)]
pub enum BridgeCommand {
    SendRadioPlay,
    Stop,
    /// The volume that Spotify reports, `u16::MAX` being full.
    SetVolume(u16),
    /// The station left the stream with this token.
    AutoPause(u64),
    ForceStop,
}

/// What the station last said of itself. The station reports its volume, and the
/// progress and duration of what it plays in seconds, as doubles; they are kept by
/// their bits.
pub struct GlagolState {
    pub player_type: Option<String>,
    pub bt_playing: bool,
    pub has_pause: bool,
    pub volume_bits: u64,
    pub last_message: Option<u64>,
    pub progress_bits: u64,
    pub duration_bits: u64,
    pub progress_updated: Option<u64>,
}

impl GlagolState {
    /// Nothing heard yet.
    pub open spec fn initial() -> Self {
        GlagolState {
            player_type: None,
            bt_playing: false,
            has_pause: false,
            volume_bits: 0,
            last_message: None,
            progress_bits: 0,
            duration_bits: 0,
            progress_updated: None,
        }
    }

    /// Nothing heard yet.
    pub fn new() -> (r: Self)
        ensures
            r == Self::initial(),
    {
        Self {
            player_type: None,
            bt_playing: false,
            has_pause: false,
            volume_bits: 0,
            last_message: None,
            progress_bits: 0,
            duration_bits: 0,
            progress_updated: None,
        }
    }
}

/// Bridge configuration.
#[derive(Debug, Clone)]
pub struct BridgeConfig {
    pub station_ip: String,
    pub sbc_ip: String,
    pub bridge_port: u16,
    pub session_id: String,
    pub device_id: String,
    pub platform: String,
    pub socks_proxy: String,
    pub mp3_bitrate: u32,
}

/// The content length covers what is left of the track at the MP3 byte rate with at
/// least one second to spare, and by less than two.
pub proof fn law_content_length_covers_the_rest(duration_ms: u32, position_ms: u32)
    ensures
        MP3_BYTES_PER_SEC * 8 == MP3_BITRATE * 1000,
        ({
            let rest = remaining_ms(duration_ms as int, position_ms as int) * MP3_BYTES_PER_SEC;
            let promised = content_length(duration_ms as int, position_ms as int) * 1000;
            &&& rest + MP3_BYTES_PER_SEC * 1000 <= promised
            &&& promised < rest + 2 * MP3_BYTES_PER_SEC * 1000
        }),
{
}

/// A later position never promises more; at or past the end one padding second is
/// promised.
pub proof fn law_content_length_shrinks(duration_ms: u32, earlier_ms: u32, later_ms: u32)
    requires
        earlier_ms <= later_ms,
    ensures
        content_length(duration_ms as int, later_ms as int) <= content_length(
            duration_ms as int,
            earlier_ms as int,
        ),
        duration_ms <= later_ms ==> content_length(duration_ms as int, later_ms as int)
            == MP3_BYTES_PER_SEC,
{
}

/// On a machine with 64-bit sizes every track fits.
pub proof fn law_every_track_fits_64_bits(track: TrackInfo)
    requires
        usize::MAX == u64::MAX,
    ensures
        track_fits(track),
{
}

/// Data comes out in the order in which it went in: what is queued after a push is
/// what was queued before, followed by the data.
pub proof fn law_push_appends<W>(s: BridgeView<W>, data: Seq<u8>)
    ensures
        crate::chunk::joined(s.pushed(data).mp3_buffer) == crate::chunk::joined(s.mp3_buffer)
            + data,
{
    if data.len() > 0 {
        assert(s.mp3_buffer.push(data).drop_last() =~= s.mp3_buffer);
    } else {
        assert(data =~= Seq::<u8>::empty());
        assert(crate::chunk::joined(s.mp3_buffer) =~= crate::chunk::joined(s.mp3_buffer) + data);
    }
}

/// The time from one moment to another is what is between them, and none backwards.
pub proof fn law_elapsed(since_ms: u64, now_ms: u64)
    ensures
        since_ms <= now_ms ==> since_ms + elapsed(since_ms, now_ms) == now_ms,
        now_ms <= since_ms ==> elapsed(since_ms, now_ms) == 0,
{
}

/// A stream is promised in whole seconds of 24000 bytes: as many as the rest of the track
/// takes, rounded up, and one more. Past its end nothing of a track is left.
pub proof fn law_content_length_in_seconds(duration_ms: u32, position_ms: u32, seconds: int)
    ensures
        content_length(duration_ms as int, position_ms as int) % 24000 == 0,
        position_ms <= duration_ms && (seconds - 1) * 1000 < duration_ms - position_ms <= seconds
            * 1000 ==> content_length(duration_ms as int, position_ms as int) == (seconds + 1)
            * 24000,
        position_ms >= duration_ms ==> content_length(duration_ms as int, position_ms as int)
            == 24000,
{
    let rest = remaining_ms(duration_ms as int, position_ms as int);
    let whole = (rest + 999) / 1000 + 1;
    vstd::arithmetic::div_mod::lemma_mod_multiples_basic(whole, 24000);
}

/// What the station is fed: 192 kilobits a second, of two channels of 44100 samples each.
pub proof fn law_audio_format()
    ensures
        MP3_BITRATE == 192,
        MP3_BYTES_PER_SEC == 24000,
        SAMPLE_RATE == 44100,
        CHANNELS == 2,
{
}

/// Before the station has said anything, nothing is known of it.
pub proof fn law_nothing_heard()
    ensures
        ({
            let state = GlagolState::initial();
            &&& state.player_type is None
            &&& !state.bt_playing && !state.has_pause
            &&& state.volume_bits == 0
            &&& state.progress_bits == 0 && state.duration_bits == 0
            &&& state.last_message is None && state.progress_updated is None
        }),
{
}

/// What every operation keeps, in bytes: what was delivered and what is queued was
/// produced. And every track at hand can be promised on this machine.
pub proof fn law_what_is_kept<W>(s: BridgeView<W>)
    requires
        s.wf(),
    ensures
        s.bytes_delivered + crate::chunk::joined(s.mp3_buffer).len() <= s.bytes_produced,
        s.current_track matches Some(track) ==> content_length(track.duration_ms as int, 0)
            <= usize::MAX,
        s.pending_track matches Some(track) ==> content_length(track.duration_ms as int, 0)
            <= usize::MAX,
{
    crate::chunk::lemma_joined_len(s.mp3_buffer);
}

/// What is said of the shared state is said of its own fields: the queue chunk by chunk in
/// its order, and the others as they are.
pub proof fn law_shared_view<W>(shared: BridgeShared<W>, i: int)
    ensures
        shared@.mp3_buffer.len() == shared.mp3_buffer@.len(),
        0 <= i < shared.mp3_buffer@.len() ==> shared@.mp3_buffer[i]
            == crate::chunk::bytes_content(shared.mp3_buffer@[i]),
        shared@.silence == crate::chunk::bytes_content(shared.silence),
        shared@.stream_waker == shared.stream_waker,
        shared@.stream_token == shared.stream_token,
        shared@.expected_bytes == shared.expected_bytes,
        shared@.bytes_produced == shared.bytes_produced,
        shared@.bytes_delivered == shared.bytes_delivered,
        shared@.current_track == shared.current_track,
        shared@.pending_track == shared.pending_track,
        shared@.track_ended == shared.track_ended,
        shared@.streaming == shared.streaming,
        shared@.paused == shared.paused,
        shared@.track_start_wall == shared.track_start_wall,
        shared@.station_connected_wall == shared.station_connected_wall,
        shared@.station_offset_ms == shared.station_offset_ms,
        shared@.internal_seek == shared.internal_seek,
        shared@.internal_disconnect == shared.internal_disconnect,
        shared@.bt_deferred == shared.bt_deferred,
        shared@.spirc_alive == shared.spirc_alive,
        shared@.tracks_played == shared.tracks_played,
        shared@.total_bytes_served == shared.total_bytes_served,
        shared@.glagol_commands_sent == shared.glagol_commands_sent,
        shared@.last_transition_ms == shared.last_transition_ms,
{
}

} // verus!
