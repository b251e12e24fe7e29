//! The HTTP side of the bridge: what each request is answered, how the stream is fed
//! to the station, and what the station's leaving means.
use bytes::Bytes;
use serde_json::Value;
use vstd::prelude::*;
use vstd::string::*;

use crate::chunk::{bytes_clone, bytes_from_text, bytes_len};
use crate::json::{
    json_bool, json_null, json_optional_text, json_text, json_to_string_pretty, json_whole,
    JsonFields, JsonTree,
};
use crate::state::{
    elapsed_ms, BridgeCommand, BridgeConfig, BridgeShared, BridgeView, TrackInfo,
};
use crate::text::{decimal_text, parse_number, push_decimal, same_text, split_text, starts_with};

verus! {

/// The stream as one client receives it.
#[derive(Debug, Clone, Copy, PartialEq, Eq, Structural)]
pub struct StreamBody {
    /// The stream that the client asked for.
    pub token: u64,
    /// Bytes that this client has been handed.
    pub bytes_delivered: usize,
    /// Bytes that this client was promised.
    pub expected_bytes: usize,
    /// The client is to be handed nothing more.
    pub done: bool,
}

/// What a client that asks for more is told.
pub enum StreamPoll {
    /// Here is more.
    Frame(Bytes),
    /// There is nothing more.
    End,
    /// Wait to be woken.
    Pending,
}

/// The mathematical content of a `StreamPoll`.
#[verifier::ext_equal]
pub enum PollView {
    Frame(Seq<u8>),
    End,
    Pending,
}

impl View for StreamPoll {
    type V = PollView;

    open spec fn view(&self) -> PollView {
        match self {
            StreamPoll::Frame(chunk) => PollView::Frame(crate::chunk::bytes_content(*chunk)),
            StreamPoll::End => PollView::End,
            StreamPoll::Pending => PollView::Pending,
        }
    }
}

impl StreamBody {
    /// Nothing more for this client: it has all, or its stream is over.
    pub open spec fn closed<W>(self, shared: BridgeView<W>) -> bool {
        self.done || self.token != shared.stream_token
    }

    /// This client has been handed all that it was promised.
    pub open spec fn satisfied(self) -> bool {
        self.bytes_delivered >= self.expected_bytes
    }

    /// What every operation keeps of a client: its stream is the current one or an older
    /// one, and of the current one it has no more than was delivered in all.
    pub open spec fn attached<W>(self, shared: BridgeView<W>) -> bool {
        &&& self.token <= shared.stream_token
        &&& self.token == shared.stream_token ==> self.bytes_delivered <= shared.bytes_delivered
    }

    /// What a client of the current stream is handed can be counted.
    pub open spec fn servable<W>(self, shared: BridgeView<W>) -> bool {
        &&& shared.wf()
        &&& self.attached(shared)
        &&& shared.total_bytes_served + crate::chunk::total_len(shared.mp3_buffer) <= u64::MAX
    }

    /// What the client is told when it asks for more.
    pub open spec fn reply<W>(self, shared: BridgeView<W>) -> PollView {
        if self.closed(shared) {
            PollView::End
        } else if shared.mp3_buffer.len() > 0 {
            PollView::Frame(shared.mp3_buffer[0])
        } else if self.satisfied() {
            PollView::End
        } else {
            PollView::Pending
        }
    }

    /// The client after it was told.
    pub open spec fn polled<W>(self, shared: BridgeView<W>) -> Self {
        if self.closed(shared) {
            StreamBody { done: true, ..self }
        } else if shared.mp3_buffer.len() > 0 {
            let delivered = (self.bytes_delivered + shared.mp3_buffer[0].len()) as usize;
            StreamBody {
                bytes_delivered: delivered,
                done: delivered >= self.expected_bytes,
                ..self
            }
        } else {
            StreamBody { done: self.satisfied(), ..self }
        }
    }

    /// A client that has been handed nothing yet.
    pub open spec fn initial(token: u64, expected_bytes: usize) -> Self {
        StreamBody { token, bytes_delivered: 0, expected_bytes, done: false }
    }

    /// A client that has been handed nothing yet.
    pub fn new(token: u64, expected_bytes: usize) -> (r: Self)
        ensures
            r == Self::initial(token, expected_bytes),
    {
        Self { token, bytes_delivered: 0, expected_bytes, done: false }
    }

    /// Hands the client the oldest data in the queue; where there is none, `waker` is
    /// kept for when there is.
    pub fn poll_frame<W>(&mut self, shared: &mut BridgeShared<W>, waker: W) -> (r: StreamPoll)
        requires
            !old(self).closed(old(shared)@) ==> old(self).servable(old(shared)@),
        ensures
            r@ == old(self).reply(old(shared)@),
            *final(self) == old(self).polled(old(shared)@),
            final(shared)@ == old(shared)@.served(*old(self), waker),
            old(shared)@.wf() ==> final(shared)@.wf(),
            old(self).attached(old(shared)@) ==> final(self).attached(final(shared)@),
    {
        if self.done {
            return StreamPoll::End;
        }
        if self.token != shared.stream_token {
            self.done = true;
            return StreamPoll::End;
        }
        match shared.mp3_buffer.pop_front() {
            Some(chunk) => {
                let len: usize = bytes_len(&chunk);
                proof {
                    let queue = old(shared)@.mp3_buffer;
                    crate::chunk::lemma_total_len_first(queue);
                    assert(queue[0] == crate::chunk::bytes_content(chunk));
                    assert(shared@.mp3_buffer =~= queue.skip(1));
                }
                self.bytes_delivered = self.bytes_delivered + len;
                shared.bytes_delivered = shared.bytes_delivered + len;
                shared.total_bytes_served = shared.total_bytes_served + len as u64;
                if self.bytes_delivered >= self.expected_bytes {
                    self.done = true;
                }
                proof {
                    assert(shared@ =~= old(shared)@.served(*old(self), waker));
                }
                StreamPoll::Frame(chunk)
            },
            None => {
                proof {
                    assert(old(shared)@.mp3_buffer.len() == 0);
                }
                if self.bytes_delivered >= self.expected_bytes {
                    self.done = true;
                    StreamPoll::End
                } else {
                    shared.stream_waker = Some(waker);
                    proof {
                        assert(shared@ =~= old(shared)@.served(*old(self), waker));
                    }
                    StreamPoll::Pending
                }
            },
        }
    }
}

impl<W> BridgeView<W> {
    /// After the client `body` asked for more: what it was handed is off the queue and
    /// counted, and where it has to wait, its waker is kept.
    pub open spec fn served(self, body: StreamBody, waker: W) -> Self {
        if body.closed(self) {
            self
        } else if self.mp3_buffer.len() > 0 {
            BridgeView {
                mp3_buffer: self.mp3_buffer.skip(1),
                bytes_delivered: (self.bytes_delivered + self.mp3_buffer[0].len()) as usize,
                total_bytes_served: (self.total_bytes_served + self.mp3_buffer[0].len()) as u64,
                ..self
            }
        } else if body.satisfied() {
            self
        } else {
            BridgeView { stream_waker: Some(waker), ..self }
        }
    }
}

/// The body of a response: the stream, or something that is all there.
pub enum ResponseBody {
    Stream(StreamBody),
    Static(Option<Bytes>),
}

/// The mathematical content of a `ResponseBody`.
#[verifier::ext_equal]
pub enum BodyView {
    Stream(StreamBody),
    Static(Option<Seq<u8>>),
}

impl View for ResponseBody {
    type V = BodyView;

    open spec fn view(&self) -> BodyView {
        match self {
            ResponseBody::Stream(body) => BodyView::Stream(*body),
            ResponseBody::Static(Some(data)) => BodyView::Static(
                Some(crate::chunk::bytes_content(*data)),
            ),
            ResponseBody::Static(None) => BodyView::Static(None),
        }
    }
}

impl BodyView {
    /// What a client is told when it asks for more of this body.
    pub open spec fn reply<W>(self, shared: BridgeView<W>) -> PollView {
        match self {
            BodyView::Stream(body) => body.reply(shared),
            BodyView::Static(Some(data)) => PollView::Frame(data),
            BodyView::Static(None) => PollView::End,
        }
    }

    /// The body after a client was told: what is all there is handed out once.
    pub open spec fn polled<W>(self, shared: BridgeView<W>) -> Self {
        match self {
            BodyView::Stream(body) => BodyView::Stream(body.polled(shared)),
            BodyView::Static(data) => BodyView::Static(None),
        }
    }
}

impl ResponseBody {
    /// Hands the client more of this body.
    pub fn poll_frame<W>(&mut self, shared: &mut BridgeShared<W>, waker: W) -> (r: StreamPoll)
        requires
            *old(self) matches ResponseBody::Stream(body) ==> !body.closed(old(shared)@)
                ==> body.servable(old(shared)@),
        ensures
            r@ == old(self)@.reply(old(shared)@),
            final(self)@ == old(self)@.polled(old(shared)@),
            final(shared)@ == (match *old(self) {
                ResponseBody::Stream(body) => old(shared)@.served(body, waker),
                ResponseBody::Static(_) => old(shared)@,
            }),
            old(shared)@.wf() ==> final(shared)@.wf(),
            *old(self) matches ResponseBody::Stream(body) ==> body.attached(old(shared)@) ==> (
            *final(self) matches ResponseBody::Stream(after) && after.attached(final(shared)@)),
    {
        match self {
            ResponseBody::Stream(body) => body.poll_frame(shared, waker),
            ResponseBody::Static(data) => match data.take() {
                Some(bytes) => StreamPoll::Frame(bytes),
                None => StreamPoll::End,
            },
        }
    }
}

/// A response, yet to be sent.
pub struct Response {
    pub status: u16,
    pub headers: Vec<(String, String)>,
    pub body: ResponseBody,
}

/// The mathematical content of a `Response`.
#[verifier::ext_equal]
pub struct ResponseView {
    pub status: u16,
    pub headers: Seq<(Seq<char>, Seq<char>)>,
    pub body: BodyView,
}

/// The name and the value of each header.
pub open spec fn header_texts(headers: Seq<(String, String)>) -> Seq<(Seq<char>, Seq<char>)> {
    headers.map_values(|h: (String, String)| (h.0@, h.1@))
}

impl View for Response {
    type V = ResponseView;

    open spec fn view(&self) -> ResponseView {
        ResponseView {
            status: self.status,
            headers: header_texts(self.headers@),
            body: self.body@,
        }
    }
}

/// Appends a header.
fn push_header(headers: &mut Vec<(String, String)>, name: &str, value: String)
    ensures
        header_texts(final(headers)@) == header_texts(old(headers)@).push((name@, value@)),
{
    headers.push((name.to_owned(), value));
    proof {
        assert(header_texts(headers@) =~= header_texts(old(headers)@).push((name@, value@)));
    }
}

/// A response that is a text, of the given content type.
pub open spec fn text_view(status: u16, content_type: Seq<char>, text: Seq<char>) -> ResponseView {
    ResponseView {
        status,
        headers: seq![("Content-Type"@, content_type)],
        body: BodyView::Static(Some(vstd::utf8::encode_utf8(text))),
    }
}

fn text_response(status: u16, content_type: &str, text: String) -> (r: Response)
    ensures
        r@ == text_view(status, content_type@, text@),
{
    let mut headers: Vec<(String, String)> = Vec::new();
    push_header(&mut headers, "Content-Type", content_type.to_owned());
    let r = Response {
        status,
        headers,
        body: ResponseBody::Static(Some(bytes_from_text(text))),
    };
    proof {
        assert(r@ =~= text_view(status, content_type@, text@));
    }
    r
}

/// The response to a request for something that is not there.
pub open spec fn not_found_view() -> ResponseView {
    ResponseView {
        status: 404,
        headers: Seq::empty(),
        body: BodyView::Static(Some(vstd::utf8::encode_utf8("Not Found"@))),
    }
}

fn not_found() -> (r: Response)
    ensures
        r@ == not_found_view(),
{
    let r = Response {
        status: 404,
        headers: Vec::new(),
        body: ResponseBody::Static(Some(bytes_from_text("Not Found".to_owned()))),
    };
    proof {
        assert(r@ =~= not_found_view());
    }
    r
}

/// The token that a query asks for: the number that follows `t=` in the first
/// parameter that begins so, and 0 where there is none or it is no number.
pub open spec fn token_of_query(query: Option<Seq<char>>) -> u64 {
    match query {
        Some(q) => match crate::text::first_after(crate::text::split(q, '&'), "t="@) {
            Some(value) => match crate::text::number_of(value) {
                Some(token) => token,
                None => 0,
            },
            None => 0,
        },
        None => 0,
    }
}

/// Reads the token that a query asks for.
pub fn token_from_query(query: Option<&str>) -> (r: u64)
    ensures
        r == token_of_query(
            match query {
                Some(q) => Some(q@),
                None => None,
            },
        ),
{
    let text = match query {
        Some(q) => q,
        None => return 0,
    };
    let pieces = split_text(text, '&');
    let ghost all = crate::text::split(text@, '&');
    let mut i: usize = 0;
    proof {
        reveal_strlit("t=");
        assert(all.skip(0) =~= all);
    }
    while i < pieces.len()
        invariant
            i <= pieces@.len(),
            pieces@.map_values(|piece: Vec<char>| piece@) == all,
            all == crate::text::split(text@, '&'),
            crate::text::first_after(all, "t="@) == crate::text::first_after(
                all.skip(i as int),
                "t="@,
            ),
            "t="@.len() == 2,
            "t="@ == seq!['t', '='],
            query == Some(text),
        decreases pieces@.len() - i,
    {
        let piece = &pieces[i];
        proof {
            assert(piece@ == all[i as int]);
            assert(all.skip(i as int)[0] == piece@);
            assert(all.skip(i as int).skip(1) =~= all.skip(i + 1));
        }
        if piece.len() >= 2 && piece[0] == 't' && piece[1] == '=' {
            proof {
                assert(piece@.take(2) =~= "t="@);
                assert(piece@.subrange(2, piece@.len() as int) =~= piece@.skip(2));
            }
            return match parse_number(piece, 2, piece.len()) {
                Some(token) => token,
                None => 0,
            };
        }
        proof {
            if crate::text::has_prefix(piece@, "t="@) {
                assert(piece@[0] == piece@.take(2)[0]);
                assert(piece@[1] == piece@.take(2)[1]);
            }
        }
        i += 1;
    }
    proof {
        assert(all.skip(all.len() as int).len() == 0);
    }
    0
}

/// How much of the stream the station holds back before it plays, in milliseconds.
pub const STATION_BUFFER_MS: u64 = 2500;

impl<W> BridgeView<W> {
    /// Whether a client with this token is let in to the stream.
    pub open spec fn admits(self, token: u64) -> bool {
        self.streaming && token == self.stream_token
    }

    /// After the station connected to the current stream. From now on it is the station
    /// that ends the connection, unless the bridge does so first. The first time, the
    /// lag is estimated: how long the station took to connect, and its own buffer.
    pub open spec fn joined(self, now_ms: u64) -> Self {
        let first = self.station_connected_wall is None;
        BridgeView {
            internal_disconnect: false,
            station_connected_wall: if first {
                Some(now_ms)
            } else {
                self.station_connected_wall
            },
            station_offset_ms: match self.track_start_wall {
                Some(start) if first => (crate::state::elapsed(start, now_ms)
                    + STATION_BUFFER_MS) as u64,
                _ => self.station_offset_ms,
            },
            ..self
        }
    }

    /// The response to a client that asks for the stream with `token`: the stream, or,
    /// where the token is stale, silence.
    pub open spec fn stream_view(self, token: u64) -> ResponseView {
        if self.admits(token) {
            ResponseView {
                status: 200,
                headers: seq![
                    ("Content-Type"@, "audio/mpeg"@),
                    ("Content-Length"@, crate::text::decimal(self.expected_bytes as nat)),
                    ("Accept-Ranges"@, "none"@),
                    ("Connection"@, "close"@),
                ],
                body: BodyView::Stream(StreamBody::initial(token, self.expected_bytes)),
            }
        } else {
            ResponseView {
                status: 200,
                headers: seq![
                    ("Content-Type"@, "audio/mpeg"@),
                    ("Content-Length"@, crate::text::decimal(self.silence.len())),
                    ("Connection"@, "close"@),
                ],
                body: BodyView::Static(Some(self.silence)),
            }
        }
    }
}

/// Answers a request for the stream.
pub fn handle_stream<W>(
    shared: &mut BridgeShared<W>,
    query: Option<&str>,
    now_ms: u64,
) -> (r: Response)
    requires
        now_ms <= u64::MAX - STATION_BUFFER_MS,
    ensures
        ({
            let token = token_of_query(
                match query {
                    Some(q) => Some(q@),
                    None => None,
                },
            );
            &&& r@ == old(shared)@.stream_view(token)
            &&& final(shared)@ == (if old(shared)@.admits(token) {
                old(shared)@.joined(now_ms)
            } else {
                old(shared)@
            })
        }),
        old(shared)@.wf() ==> final(shared)@.wf(),
{
    let token = token_from_query(query);
    let mut headers: Vec<(String, String)> = Vec::new();
    push_header(&mut headers, "Content-Type", "audio/mpeg".to_owned());
    if token == shared.stream_token && shared.streaming {
        if shared.station_connected_wall.is_none() {
            shared.station_connected_wall = Some(now_ms);
            if let Some(start) = shared.track_start_wall {
                shared.station_offset_ms = elapsed_ms(start, now_ms) + STATION_BUFFER_MS;
            }
        }
        shared.internal_disconnect = false;
        proof {
            assert(shared@ =~= old(shared)@.joined(now_ms));
        }
        push_header(&mut headers, "Content-Length", decimal_text(shared.expected_bytes as u64));
        push_header(&mut headers, "Accept-Ranges", "none".to_owned());
        push_header(&mut headers, "Connection", "close".to_owned());
        let body = ResponseBody::Stream(StreamBody::new(token, shared.expected_bytes));
        let r = Response { status: 200, headers, body };
        proof {
            assert(r@ =~= old(shared)@.stream_view(token));
        }
        r
    } else {
        let silence = bytes_clone(&shared.silence);
        push_header(&mut headers, "Content-Length", decimal_text(bytes_len(&silence) as u64));
        push_header(&mut headers, "Connection", "close".to_owned());
        let r = Response { status: 200, headers, body: ResponseBody::Static(Some(silence)) };
        proof {
            assert(r@ =~= old(shared)@.stream_view(token));
        }
        r
    }
}

/// What an answer takes from outside the shared state.
pub struct Surroundings {
    pub version: String,
    pub uptime_sec: u64,
    pub now_ms: u64,
    pub glagol_connected: bool,
    pub session_id_valid: bool,
    /// The position that the station last reported, in whole milliseconds.
    pub station_progress_ms: u64,
    /// The duration that the station last reported, in whole milliseconds.
    pub station_duration_ms: u64,
    /// When the station last reported.
    pub progress_updated: Option<u64>,
    /// How far the age of the stream is ahead of the station's position, in whole
    /// milliseconds.
    pub lead_ms: u64,
}

impl Surroundings {
    /// How old the station's last report is; 0 where there is none.
    pub open spec fn progress_age(self) -> u64 {
        match self.progress_updated {
            Some(updated) => crate::state::elapsed(updated, self.now_ms),
            None => 0,
        }
    }
}

/// How far the bridge is ahead of the station: by its position, or, before anything was
/// played, by estimate.
pub open spec fn position_offset<W>(shared: BridgeView<W>, around: Surroundings) -> u64 {
    if shared.track_start_wall is Some {
        around.lead_ms
    } else {
        shared.station_offset_ms
    }
}

/// Something about the current track; null without one.
pub open spec fn track_text(
    track: Option<TrackInfo>,
    of: spec_fn(TrackInfo) -> Seq<char>,
) -> JsonTree {
    crate::json::optional_text(
        match track {
            Some(t) => Some(of(t)),
            None => None,
        },
    )
}

/// The duration of the current track; null without one.
pub open spec fn track_duration(track: Option<TrackInfo>) -> JsonTree {
    match track {
        Some(t) => crate::json::whole(t.duration_ms as int),
        None => JsonTree::Null,
    }
}

fn duration_value(track: &Option<TrackInfo>) -> (r: Value)
    ensures
        crate::json::json_tree(r) == track_duration(*track),
{
    match track {
        Some(t) => json_whole(t.duration_ms as u64),
        None => json_null(),
    }
}

/// The fields of the status report.
pub open spec fn status_fields<W>(
    shared: BridgeView<W>,
    config: BridgeConfig,
    around: Surroundings,
) -> Seq<(Seq<char>, JsonTree)> {
    seq![
        ("service"@, JsonTree::Text("librespot-bridge"@)),
        ("version"@, JsonTree::Text(around.version@)),
        ("uptime_sec"@, crate::json::whole(around.uptime_sec as int)),
        ("streaming"@, JsonTree::Bool(shared.streaming)),
        ("paused"@, JsonTree::Bool(shared.paused)),
        ("track"@, track_text(shared.current_track, |t: TrackInfo| t.name@)),
        ("artist"@, track_text(shared.current_track, |t: TrackInfo| t.artist@)),
        ("album"@, track_text(shared.current_track, |t: TrackInfo| t.album@)),
        ("cover"@, track_text(shared.current_track, |t: TrackInfo| t.cover@)),
        ("duration_ms"@, track_duration(shared.current_track)),
        ("stream_token"@, crate::json::whole(shared.stream_token as int)),
        ("tracks_played"@, crate::json::whole(shared.tracks_played as int)),
        ("total_bytes_served"@, crate::json::whole(shared.total_bytes_served as int)),
        ("station_ip"@, JsonTree::Text(config.station_ip@)),
        ("session_id_valid"@, JsonTree::Bool(around.session_id_valid)),
    ]
}

/// The fields that the diagnostic report has besides those of the status report.
pub open spec fn debug_fields<W>(
    shared: BridgeView<W>,
    config: BridgeConfig,
    around: Surroundings,
) -> Seq<(Seq<char>, JsonTree)> {
    seq![
        ("spirc_alive"@, JsonTree::Bool(shared.spirc_alive)),
        ("uri"@, track_text(shared.current_track, |t: TrackInfo| t.uri@)),
        ("expected_bytes"@, crate::json::whole(shared.expected_bytes as int)),
        ("bytes_produced"@, crate::json::whole(shared.bytes_produced as int)),
        ("bytes_delivered"@, crate::json::whole(shared.bytes_delivered as int)),
        ("mp3_buffer_chunks"@, crate::json::whole(shared.mp3_buffer.len() as int)),
        ("track_ended"@, JsonTree::Bool(shared.track_ended)),
        ("glagol_commands_sent"@, crate::json::whole(shared.glagol_commands_sent as int)),
        ("last_transition_ms"@, crate::json::whole(shared.last_transition_ms as int)),
        ("station_progress_ms"@, crate::json::whole(around.station_progress_ms as int)),
        ("station_duration_ms"@, crate::json::whole(around.station_duration_ms as int)),
        ("progress_age_ms"@, crate::json::whole(around.progress_age() as int)),
        ("position_offset_ms"@, crate::json::whole(position_offset(shared, around) as int)),
        ("bridge_port"@, crate::json::whole(config.bridge_port as int)),
        ("mp3_bitrate"@, crate::json::whole(config.mp3_bitrate as int)),
    ]
}

/// A report as a response.
pub open spec fn report_view(status: u16, fields: Seq<(Seq<char>, JsonTree)>) -> ResponseView {
    text_view(
        status,
        "application/json"@,
        crate::json::json_pretty(JsonTree::Object(crate::json::object_of(fields))),
    )
}

fn report(status: u16, fields: JsonFields) -> (r: Response)
    requires
        fields.wf(),
    ensures
        r@ == report_view(status, fields@),
{
    text_response(status, "application/json", json_to_string_pretty(&fields.into_object()))
}

fn push_status_fields<W>(
    fields: &mut JsonFields,
    shared: &BridgeShared<W>,
    config: &BridgeConfig,
    around: &Surroundings,
)
    requires
        old(fields).wf(),
    ensures
        final(fields).wf(),
        final(fields)@ == old(fields)@
            + status_fields(shared@, *config, *around),
{
    let (name, artist, album, cover) = match &shared.current_track {
        Some(t) => (Some(&t.name), Some(&t.artist), Some(&t.album), Some(&t.cover)),
        None => (None, None, None, None),
    };
    fields.put("service", json_text("librespot-bridge"));
    fields.put("version", json_text(around.version.as_str()));
    fields.put("uptime_sec", json_whole(around.uptime_sec));
    fields.put("streaming", json_bool(shared.streaming));
    fields.put("paused", json_bool(shared.paused));
    fields.put("track", json_optional_text(name));
    fields.put("artist", json_optional_text(artist));
    fields.put("album", json_optional_text(album));
    fields.put("cover", json_optional_text(cover));
    fields.put("duration_ms", duration_value(&shared.current_track));
    fields.put("stream_token", json_whole(shared.stream_token));
    fields.put("tracks_played", json_whole(shared.tracks_played));
    fields.put("total_bytes_served", json_whole(shared.total_bytes_served));
    fields.put("station_ip", json_text(config.station_ip.as_str()));
    fields.put("session_id_valid", json_bool(around.session_id_valid));
    proof {
        assert(fields@ =~= old(fields)@
            + status_fields(shared@, *config, *around));
    }
}

/// Reports what is being played.
pub fn handle_status<W>(
    shared: &BridgeShared<W>,
    config: &BridgeConfig,
    around: &Surroundings,
) -> (r: Response)
    ensures
        r@ == report_view(200, status_fields(shared@, *config, *around)),
{
    let mut fields = JsonFields::new();
    push_status_fields(&mut fields, shared, config, around);
    proof {
        assert(fields@ =~= status_fields(shared@, *config, *around));
    }
    report(200, fields)
}

/// Reports what is being played and how the stream and the station stand.
pub fn handle_debug<W>(
    shared: &BridgeShared<W>,
    config: &BridgeConfig,
    around: &Surroundings,
) -> (r: Response)
    ensures
        r@ == report_view(
            200,
            debug_fields(shared@, *config, *around) + status_fields(shared@, *config, *around),
        ),
{
    let uri = match &shared.current_track {
        Some(t) => Some(&t.uri),
        None => None,
    };
    let progress_age_ms: u64 = match around.progress_updated {
        Some(updated) => elapsed_ms(updated, around.now_ms),
        None => 0,
    };
    let position_offset_ms: u64 = if shared.track_start_wall.is_some() {
        around.lead_ms
    } else {
        shared.station_offset_ms
    };
    let mut fields = JsonFields::new();
    fields.put("spirc_alive", json_bool(shared.spirc_alive));
    fields.put("uri", json_optional_text(uri));
    fields.put("expected_bytes", json_whole(shared.expected_bytes as u64));
    fields.put("bytes_produced", json_whole(shared.bytes_produced as u64));
    fields.put("bytes_delivered", json_whole(shared.bytes_delivered as u64));
    fields.put("mp3_buffer_chunks", json_whole(shared.mp3_buffer.len() as u64));
    fields.put("track_ended", json_bool(shared.track_ended));
    fields.put("glagol_commands_sent", json_whole(shared.glagol_commands_sent));
    fields.put("last_transition_ms", json_whole(shared.last_transition_ms));
    fields.put("station_progress_ms", json_whole(around.station_progress_ms));
    fields.put("station_duration_ms", json_whole(around.station_duration_ms));
    fields.put("progress_age_ms", json_whole(progress_age_ms));
    fields.put("position_offset_ms", json_whole(position_offset_ms));
    fields.put("bridge_port", json_whole(config.bridge_port as u64));
    fields.put("mp3_bitrate", json_whole(config.mp3_bitrate as u64));
    push_status_fields(&mut fields, shared, config, around);
    proof {
        assert(fields@ =~= debug_fields(shared@, *config, *around)
            + status_fields(shared@, *config, *around));
    }
    report(200, fields)
}

/// Whether the bridge is in working order: Spotify Connect, the connection to the
/// station and the station's session.
pub open spec fn healthy<W>(shared: BridgeView<W>, around: Surroundings) -> bool {
    shared.spirc_alive && around.glagol_connected && around.session_id_valid
}

/// The fields of the health report.
pub open spec fn health_fields<W>(shared: BridgeView<W>, around: Surroundings) -> Seq<
    (Seq<char>, JsonTree),
> {
    seq![
        ("healthy"@, JsonTree::Bool(healthy(shared, around))),
        ("spirc_alive"@, JsonTree::Bool(shared.spirc_alive)),
        ("glagol_connected"@, JsonTree::Bool(around.glagol_connected)),
        ("session_id_valid"@, JsonTree::Bool(around.session_id_valid)),
    ]
}

/// The status by which a watchdog tells a working bridge from another.
pub open spec fn health_status<W>(shared: BridgeView<W>, around: Surroundings) -> u16 {
    if healthy(shared, around) {
        200
    } else {
        503
    }
}

/// Reports whether the bridge is in working order.
pub fn handle_health<W>(shared: &BridgeShared<W>, around: &Surroundings) -> (r: Response)
    ensures
        r@ == report_view(health_status(shared@, *around), health_fields(shared@, *around)),
{
    let healthy = shared.spirc_alive && around.glagol_connected && around.session_id_valid;
    let mut fields = JsonFields::new();
    fields.put("healthy", json_bool(healthy));
    fields.put("spirc_alive", json_bool(shared.spirc_alive));
    fields.put("glagol_connected", json_bool(around.glagol_connected));
    fields.put("session_id_valid", json_bool(around.session_id_valid));
    proof {
        assert(fields@ =~= health_fields(shared@, *around));
    }
    let status: u16 = if healthy {
        200
    } else {
        503
    };
    report(status, fields)
}

/// One metric in the Prometheus text format.
pub open spec fn metric(
    name: Seq<char>,
    help: Seq<char>,
    kind: Seq<char>,
    value: nat,
) -> Seq<char> {
    "# HELP "@ + name + " "@ + help + "\n# TYPE "@ + name + " "@ + kind + "\n"@ + name + " "@
        + crate::text::decimal(value) + "\n"@
}

fn push_metric(out: &mut String, name: &str, help: &str, kind: &str, value: u64)
    ensures
        final(out)@ == old(out)@ + metric(name@, help@, kind@, value as nat),
{
    out.append("# HELP ");
    out.append(name);
    out.append(" ");
    out.append(help);
    out.append("\n# TYPE ");
    out.append(name);
    out.append(" ");
    out.append(kind);
    out.append("\n");
    out.append(name);
    out.append(" ");
    push_decimal(out, value);
    out.append("\n");
    proof {
        assert(out@ =~= old(out)@ + metric(name@, help@, kind@, value as nat));
    }
}

/// How a flag is written in a metric.
pub open spec fn flag(b: bool) -> nat {
    if b {
        1
    } else {
        0
    }
}

fn flag_number(b: bool) -> (r: u64)
    ensures
        r == flag(b),
{
    if b {
        1
    } else {
        0
    }
}

/// All metrics.
pub open spec fn metrics_text<W>(shared: BridgeView<W>, around: Surroundings) -> Seq<char> {
    metric(
        "librespot_bytes_delivered_total"@,
        "Total MP3 bytes sent over /stream.mp3 since process start"@,
        "counter"@,
        shared.total_bytes_served as nat,
    ) + metric(
        "librespot_tracks_played_total"@,
        "Total tracks started since process start"@,
        "counter"@,
        shared.tracks_played as nat,
    ) + metric(
        "librespot_glagol_commands_sent_total"@,
        "Total Glagol WSS commands sent to Station"@,
        "counter"@,
        shared.glagol_commands_sent as nat,
    ) + metric(
        "librespot_buffer_chunks"@,
        "Current MP3 buffer chunk count (queued, not yet sent)"@,
        "gauge"@,
        shared.mp3_buffer.len() as nat,
    ) + metric(
        "librespot_bytes_produced_current"@,
        "Bytes encoded by MP3 encoder for current track"@,
        "gauge"@,
        shared.bytes_produced as nat,
    ) + metric(
        "librespot_bytes_delivered_current"@,
        "Bytes delivered to HTTP client for current track"@,
        "gauge"@,
        shared.bytes_delivered as nat,
    ) + metric(
        "librespot_uptime_seconds"@,
        "Process uptime in seconds"@,
        "counter"@,
        around.uptime_sec as nat,
    ) + metric(
        "librespot_streaming"@,
        "Whether bridge is currently streaming a track (1) or idle (0)"@,
        "gauge"@,
        flag(shared.streaming) as nat,
    ) + metric(
        "librespot_paused"@,
        "Whether playback is paused (1) or playing (0)"@,
        "gauge"@,
        flag(shared.paused) as nat,
    ) + metric(
        "librespot_spirc_alive"@,
        "Whether Spotify Connect (Spirc) session is alive"@,
        "gauge"@,
        flag(shared.spirc_alive) as nat,
    ) + metric(
        "librespot_glagol_connected"@,
        "Whether Glagol WSS connection to Station is up"@,
        "gauge"@,
        flag(around.glagol_connected) as nat,
    ) + metric(
        "librespot_session_id_valid"@,
        "Whether Yandex session_id is valid for Glagol auth"@,
        "gauge"@,
        flag(around.session_id_valid) as nat,
    )
}

/// Reports the metrics.
pub fn handle_metrics<W>(shared: &BridgeShared<W>, around: &Surroundings) -> (r: Response)
    ensures
        r@ == text_view(
            200,
            "text/plain; version=0.0.4; charset=utf-8"@,
            metrics_text(shared@, *around),
        ),
{
    let mut out = String::new();
    push_metric(
        &mut out,
        "librespot_bytes_delivered_total",
        "Total MP3 bytes sent over /stream.mp3 since process start",
        "counter",
        shared.total_bytes_served,
    );
    push_metric(
        &mut out,
        "librespot_tracks_played_total",
        "Total tracks started since process start",
        "counter",
        shared.tracks_played,
    );
    push_metric(
        &mut out,
        "librespot_glagol_commands_sent_total",
        "Total Glagol WSS commands sent to Station",
        "counter",
        shared.glagol_commands_sent,
    );
    push_metric(
        &mut out,
        "librespot_buffer_chunks",
        "Current MP3 buffer chunk count (queued, not yet sent)",
        "gauge",
        shared.mp3_buffer.len() as u64,
    );
    push_metric(
        &mut out,
        "librespot_bytes_produced_current",
        "Bytes encoded by MP3 encoder for current track",
        "gauge",
        shared.bytes_produced as u64,
    );
    push_metric(
        &mut out,
        "librespot_bytes_delivered_current",
        "Bytes delivered to HTTP client for current track",
        "gauge",
        shared.bytes_delivered as u64,
    );
    push_metric(
        &mut out,
        "librespot_uptime_seconds",
        "Process uptime in seconds",
        "counter",
        around.uptime_sec,
    );
    push_metric(
        &mut out,
        "librespot_streaming",
        "Whether bridge is currently streaming a track (1) or idle (0)",
        "gauge",
        flag_number(shared.streaming),
    );
    push_metric(
        &mut out,
        "librespot_paused",
        "Whether playback is paused (1) or playing (0)",
        "gauge",
        flag_number(shared.paused),
    );
    push_metric(
        &mut out,
        "librespot_spirc_alive",
        "Whether Spotify Connect (Spirc) session is alive",
        "gauge",
        flag_number(shared.spirc_alive),
    );
    push_metric(
        &mut out,
        "librespot_glagol_connected",
        "Whether Glagol WSS connection to Station is up",
        "gauge",
        flag_number(around.glagol_connected),
    );
    push_metric(
        &mut out,
        "librespot_session_id_valid",
        "Whether Yandex session_id is valid for Glagol auth",
        "gauge",
        flag_number(around.session_id_valid),
    );
    proof {
        assert(out@ =~= metrics_text(shared@, *around));
    }
    text_response(200, "text/plain; version=0.0.4; charset=utf-8", out)
}

/// The response to a request to stop.
pub open spec fn stopped_view() -> ResponseView {
    text_view(200, "application/json"@, "{\"ok\":true}"@)
}

/// Stops playback by force, and hands out the waker of a client that waits.
pub fn handle_stop<W>(shared: &mut BridgeShared<W>) -> (r: (Response, Option<W>))
    ensures
        r.0@ == stopped_view(),
        r.1 == old(shared)@.stream_waker,
        final(shared)@ == old(shared)@.halted(),
        old(shared)@.wf() ==> final(shared)@.wf(),
{
    let wake = shared.force_stop();
    (text_response(200, "application/json", "{\"ok\":true}".to_owned()), wake)
}

/// What a path asks for.
#[derive(Debug, Clone, Copy, PartialEq, Eq, Structural)]
pub enum Endpoint {
    Stream,
    Status,
    Debug,
    Health,
    Metrics,
    Stop,
    Unknown,
}

/// What a path asks for: every path that begins like the stream's asks for the stream.
pub open spec fn endpoint_of(path: Seq<char>) -> Endpoint {
    if crate::text::has_prefix(path, "/stream.mp3"@) {
        Endpoint::Stream
    } else if path == "/status"@ {
        Endpoint::Status
    } else if path == "/debug"@ {
        Endpoint::Debug
    } else if path == "/health"@ {
        Endpoint::Health
    } else if path == "/metrics"@ {
        Endpoint::Metrics
    } else if path == "/stop"@ {
        Endpoint::Stop
    } else {
        Endpoint::Unknown
    }
}

/// Finds what a path asks for.
pub fn endpoint(path: &str) -> (r: Endpoint)
    ensures
        r == endpoint_of(path@),
{
    if starts_with(path, "/stream.mp3") {
        Endpoint::Stream
    } else if same_text(path, "/status") {
        Endpoint::Status
    } else if same_text(path, "/debug") {
        Endpoint::Debug
    } else if same_text(path, "/health") {
        Endpoint::Health
    } else if same_text(path, "/metrics") {
        Endpoint::Metrics
    } else if same_text(path, "/stop") {
        Endpoint::Stop
    } else {
        Endpoint::Unknown
    }
}

impl<W> BridgeView<W> {
    /// The state after a request.
    pub open spec fn after_request(
        self,
        path: Seq<char>,
        query: Option<Seq<char>>,
        now_ms: u64,
    ) -> Self {
        match endpoint_of(path) {
            Endpoint::Stream => if self.admits(token_of_query(query)) {
                self.joined(now_ms)
            } else {
                self
            },
            Endpoint::Stop => self.halted(),
            _ => self,
        }
    }

    /// Whose wait a request ends.
    pub open spec fn woken_by(self, path: Seq<char>) -> Option<W> {
        if endpoint_of(path) == Endpoint::Stop {
            self.stream_waker
        } else {
            None
        }
    }

    /// The response to a request.
    pub open spec fn answer(
        self,
        path: Seq<char>,
        query: Option<Seq<char>>,
        config: BridgeConfig,
        around: Surroundings,
    ) -> ResponseView {
        match endpoint_of(path) {
            Endpoint::Stream => self.stream_view(token_of_query(query)),
            Endpoint::Status => report_view(200, status_fields(self, config, around)),
            Endpoint::Debug => report_view(
                200,
                debug_fields(self, config, around) + status_fields(self, config, around),
            ),
            Endpoint::Health => report_view(
                health_status(self, around),
                health_fields(self, around),
            ),
            Endpoint::Metrics => text_view(
                200,
                "text/plain; version=0.0.4; charset=utf-8"@,
                metrics_text(self, around),
            ),
            Endpoint::Stop => stopped_view(),
            Endpoint::Unknown => not_found_view(),
        }
    }
}

/// Answers a request, and hands out the waker of a client whose wait it ends.
pub fn handle_request<W>(
    path: &str,
    query: Option<&str>,
    shared: &mut BridgeShared<W>,
    config: &BridgeConfig,
    around: &Surroundings,
) -> (r: (Response, Option<W>))
    requires
        around.now_ms <= u64::MAX - STATION_BUFFER_MS,
    ensures
        ({
            let asked = match query {
                Some(q) => Some(q@),
                None => None,
            };
            &&& r.0@ == old(shared)@.answer(path@, asked, *config, *around)
            &&& final(shared)@ == old(shared)@.after_request(path@, asked, around.now_ms)
        }),
        r.1 == old(shared)@.woken_by(path@),
        old(shared)@.wf() ==> final(shared)@.wf(),
{
    match endpoint(path) {
        Endpoint::Stream => (handle_stream(shared, query, around.now_ms), None),
        Endpoint::Status => (handle_status(shared, config, around), None),
        Endpoint::Debug => (handle_debug(shared, config, around), None),
        Endpoint::Health => (handle_health(shared, around), None),
        Endpoint::Metrics => (handle_metrics(shared, around), None),
        Endpoint::Stop => handle_stop(shared),
        Endpoint::Unknown => (not_found(), None),
    }
}

/// What a connection remembers of its requests.
pub struct Connection {
    /// The stream that this connection last asked for.
    pub served: Option<u64>,
}

impl Connection {
    /// A connection without requests.
    pub open spec fn initial() -> Self {
        Connection { served: None }
    }

    /// A connection without requests.
    pub fn new() -> (r: Self)
        ensures
            r == Self::initial(),
    {
        Self { served: None }
    }

    /// The connection after a request: a request for a stream is remembered by the
    /// token that it asks for.
    pub open spec fn noted(self, path: Seq<char>, query: Option<Seq<char>>) -> Self {
        if endpoint_of(path) == Endpoint::Stream {
            Connection { served: Some(token_of_query(query)) }
        } else {
            self
        }
    }

    /// Takes down a request.
    pub fn note(&mut self, path: &str, query: Option<&str>)
        ensures
            *final(self) == old(self).noted(
                path@,
                match query {
                    Some(q) => Some(q@),
                    None => None,
                },
            ),
    {
        if endpoint(path) == Endpoint::Stream {
            self.served = Some(token_from_query(query));
        }
    }

    /// What is to be done now that this connection has ended.
    pub open spec fn farewell<W>(self, shared: BridgeView<W>, bt_playing: bool) -> Option<
        BridgeCommand,
    > {
        match self.served {
            Some(token) if shared.abandoned(token) && !bt_playing => Some(
                BridgeCommand::AutoPause(token),
            ),
            _ => None,
        }
    }

    /// Decides what is to be done now that this connection has ended: where it was the
    /// station that left the current stream, Spotify is to be paused.
    pub fn closed<W>(&self, shared: &BridgeShared<W>, bt_playing: bool) -> (r: Option<
        BridgeCommand,
    >)
        ensures
            r == self.farewell(shared@, bt_playing),
    {
        match self.served {
            Some(token) => {
                if shared.streaming && !shared.paused && !shared.internal_disconnect && token
                    == shared.stream_token && !bt_playing {
                    Some(BridgeCommand::AutoPause(token))
                } else {
                    None
                }
            },
            None => None,
        }
    }
}

} // verus!
