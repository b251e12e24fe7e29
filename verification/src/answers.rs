//! What the bridge answers, member by member and line by line.
use vstd::prelude::*;

use crate::http::{
    BodyView, Connection, Endpoint, PollView, Response, ResponseBody, ResponseView, StreamBody,
    StreamPoll, Surroundings,
};
use crate::json::{JsonNumber, JsonTree};
use crate::state::{BridgeCommand, BridgeConfig, BridgeView, TrackInfo};

verus! {

/// No two fields have one key.
pub open spec fn distinct_keys(fields: Seq<(Seq<char>, JsonTree)>) -> bool {
    forall|i: int, j: int|
        0 <= i < j < fields.len() ==> (#[trigger] fields[i]).0 != (#[trigger] fields[j]).0
}

/// A field whose key comes but once is a member of the object.
pub proof fn lemma_field_is_member(fields: Seq<(Seq<char>, JsonTree)>, i: int)
    requires
        0 <= i < fields.len(),
        distinct_keys(fields),
    ensures
        crate::json::tree_member(
            JsonTree::Object(crate::json::object_of(fields)),
            fields[i].0,
        ) == Some(fields[i].1),
    decreases fields.len(),
{
    let rest = fields.drop_last();
    if i < fields.len() - 1 {
        assert forall|a: int, b: int| 0 <= a < b < rest.len() implies (#[trigger] rest[a]).0 != (
        #[trigger] rest[b]).0 by {
            assert(rest[a] == fields[a] && rest[b] == fields[b]);
        }
        lemma_field_is_member(rest, i);
        assert(rest[i] == fields[i]);
        assert(fields[i].0 != fields[fields.len() - 1].0);
    }
}

/// The keys of the status report are distinct.
proof fn lemma_status_keys<W>(s: BridgeView<W>, config: BridgeConfig, around: Surroundings)
    ensures
        distinct_keys(crate::http::status_fields(s, config, around)),
{
    let fields = crate::http::status_fields(s, config, around);
    reveal_strlit("service");
    reveal_strlit("version");
    reveal_strlit("uptime_sec");
    reveal_strlit("streaming");
    reveal_strlit("paused");
    reveal_strlit("track");
    reveal_strlit("artist");
    reveal_strlit("album");
    reveal_strlit("cover");
    reveal_strlit("duration_ms");
    reveal_strlit("stream_token");
    reveal_strlit("tracks_played");
    reveal_strlit("total_bytes_served");
    reveal_strlit("station_ip");
    reveal_strlit("session_id_valid");
    assert("service"@[0] != "version"@[0]);
    assert("uptime_sec"@[0] != "station_ip"@[0]);
    assert("paused"@[0] != "artist"@[0]);
    assert("track"@[0] != "album"@[0]);
    assert("track"@[0] != "cover"@[0]);
    assert("album"@[0] != "cover"@[0]);
    assert(fields.len() == 15);
    assert(fields[0].0 == "service"@);
    assert(fields[1].0 == "version"@);
    assert(fields[2].0 == "uptime_sec"@);
    assert(fields[3].0 == "streaming"@);
    assert(fields[4].0 == "paused"@);
    assert(fields[5].0 == "track"@);
    assert(fields[6].0 == "artist"@);
    assert(fields[7].0 == "album"@);
    assert(fields[8].0 == "cover"@);
    assert(fields[9].0 == "duration_ms"@);
    assert(fields[10].0 == "stream_token"@);
    assert(fields[11].0 == "tracks_played"@);
    assert(fields[12].0 == "total_bytes_served"@);
    assert(fields[13].0 == "station_ip"@);
    assert(fields[14].0 == "session_id_valid"@);
    assert forall|i: int, j: int| 0 <= i < j < fields.len() implies (#[trigger] fields[i]).0 != (
    #[trigger] fields[j]).0 by {
        assert(i == 0 || i == 1 || i == 2 || i == 3 || i == 4 || i == 5 || i == 6 || i == 7
            || i == 8 || i == 9 || i == 10 || i == 11 || i == 12 || i == 13 || i == 14);
        assert(j == 0 || j == 1 || j == 2 || j == 3 || j == 4 || j == 5 || j == 6 || j == 7
            || j == 8 || j == 9 || j == 10 || j == 11 || j == 12 || j == 13 || j == 14);
    }
}

/// The keys of the diagnostic report are distinct.
#[verifier::rlimit(50)]
proof fn lemma_debug_keys<W>(s: BridgeView<W>, config: BridgeConfig, around: Surroundings)
    ensures
        distinct_keys(
            crate::http::debug_fields(s, config, around) + crate::http::status_fields(
                s,
                config,
                around,
            ),
        ),
{
    let fields = crate::http::debug_fields(s, config, around) + crate::http::status_fields(
        s,
        config,
        around,
    );
    reveal_strlit("spirc_alive");
    reveal_strlit("uri");
    reveal_strlit("expected_bytes");
    reveal_strlit("bytes_produced");
    reveal_strlit("bytes_delivered");
    reveal_strlit("mp3_buffer_chunks");
    reveal_strlit("track_ended");
    reveal_strlit("glagol_commands_sent");
    reveal_strlit("last_transition_ms");
    reveal_strlit("station_progress_ms");
    reveal_strlit("station_duration_ms");
    reveal_strlit("progress_age_ms");
    reveal_strlit("position_offset_ms");
    reveal_strlit("bridge_port");
    reveal_strlit("mp3_bitrate");
    reveal_strlit("service");
    reveal_strlit("version");
    reveal_strlit("uptime_sec");
    reveal_strlit("streaming");
    reveal_strlit("paused");
    reveal_strlit("track");
    reveal_strlit("artist");
    reveal_strlit("album");
    reveal_strlit("cover");
    reveal_strlit("duration_ms");
    reveal_strlit("stream_token");
    reveal_strlit("tracks_played");
    reveal_strlit("total_bytes_served");
    reveal_strlit("station_ip");
    reveal_strlit("session_id_valid");
    assert("spirc_alive"@[0] != "track_ended"@[0]);
    assert("spirc_alive"@[0] != "bridge_port"@[0]);
    assert("spirc_alive"@[0] != "mp3_bitrate"@[0]);
    assert("spirc_alive"@[0] != "duration_ms"@[0]);
    assert("expected_bytes"@[0] != "bytes_produced"@[0]);
    assert("bytes_delivered"@[0] != "progress_age_ms"@[0]);
    assert("track_ended"@[0] != "bridge_port"@[0]);
    assert("track_ended"@[0] != "mp3_bitrate"@[0]);
    assert("track_ended"@[0] != "duration_ms"@[0]);
    assert("last_transition_ms"@[0] != "position_offset_ms"@[0]);
    assert("last_transition_ms"@[0] != "total_bytes_served"@[0]);
    assert("station_progress_ms"@[8] != "station_duration_ms"@[8]);
    assert("position_offset_ms"@[0] != "total_bytes_served"@[0]);
    assert("bridge_port"@[0] != "mp3_bitrate"@[0]);
    assert("bridge_port"@[0] != "duration_ms"@[0]);
    assert("mp3_bitrate"@[0] != "duration_ms"@[0]);
    assert("service"@[0] != "version"@[0]);
    assert("uptime_sec"@[0] != "station_ip"@[0]);
    assert("paused"@[0] != "artist"@[0]);
    assert("track"@[0] != "album"@[0]);
    assert("track"@[0] != "cover"@[0]);
    assert("album"@[0] != "cover"@[0]);
    assert(fields.len() == 30);
    assert(fields[0].0 == "spirc_alive"@);
    assert(fields[1].0 == "uri"@);
    assert(fields[2].0 == "expected_bytes"@);
    assert(fields[3].0 == "bytes_produced"@);
    assert(fields[4].0 == "bytes_delivered"@);
    assert(fields[5].0 == "mp3_buffer_chunks"@);
    assert(fields[6].0 == "track_ended"@);
    assert(fields[7].0 == "glagol_commands_sent"@);
    assert(fields[8].0 == "last_transition_ms"@);
    assert(fields[9].0 == "station_progress_ms"@);
    assert(fields[10].0 == "station_duration_ms"@);
    assert(fields[11].0 == "progress_age_ms"@);
    assert(fields[12].0 == "position_offset_ms"@);
    assert(fields[13].0 == "bridge_port"@);
    assert(fields[14].0 == "mp3_bitrate"@);
    assert(fields[15].0 == "service"@);
    assert(fields[16].0 == "version"@);
    assert(fields[17].0 == "uptime_sec"@);
    assert(fields[18].0 == "streaming"@);
    assert(fields[19].0 == "paused"@);
    assert(fields[20].0 == "track"@);
    assert(fields[21].0 == "artist"@);
    assert(fields[22].0 == "album"@);
    assert(fields[23].0 == "cover"@);
    assert(fields[24].0 == "duration_ms"@);
    assert(fields[25].0 == "stream_token"@);
    assert(fields[26].0 == "tracks_played"@);
    assert(fields[27].0 == "total_bytes_served"@);
    assert(fields[28].0 == "station_ip"@);
    assert(fields[29].0 == "session_id_valid"@);
    assert forall|i: int, j: int| 0 <= i < j < fields.len() implies (#[trigger] fields[i]).0 != (
    #[trigger] fields[j]).0 by {
        assert(i == 0 || i == 1 || i == 2 || i == 3 || i == 4 || i == 5 || i == 6 || i == 7
            || i == 8 || i == 9 || i == 10 || i == 11 || i == 12 || i == 13 || i == 14 || i == 15
            || i == 16 || i == 17 || i == 18 || i == 19 || i == 20 || i == 21 || i == 22 || i == 23
            || i == 24 || i == 25 || i == 26 || i == 27 || i == 28 || i == 29);
        assert(j == 0 || j == 1 || j == 2 || j == 3 || j == 4 || j == 5 || j == 6 || j == 7
            || j == 8 || j == 9 || j == 10 || j == 11 || j == 12 || j == 13 || j == 14 || j == 15
            || j == 16 || j == 17 || j == 18 || j == 19 || j == 20 || j == 21 || j == 22 || j == 23
            || j == 24 || j == 25 || j == 26 || j == 27 || j == 28 || j == 29);
    }
}

/// A whole number in a report.
pub open spec fn number(n: int) -> JsonTree {
    JsonTree::Number(JsonNumber::Whole(n as u64))
}

/// The member `key` of a document is `value`.
pub open spec fn tells(tree: JsonTree, key: Seq<char>, value: JsonTree) -> bool {
    crate::json::tree_member(tree, key) == Some(value)
}

/// A text of the current track, or null where there is none.
pub open spec fn of_track(
    track: Option<TrackInfo>,
    text: spec_fn(TrackInfo) -> Seq<char>,
) -> JsonTree {
    match track {
        Some(t) => JsonTree::Text(text(t)),
        None => JsonTree::Null,
    }
}

/// A document tells what plays: the track by its name, artist, album, cover and length,
/// whether it is streamed or paused, and the counts and settings around it.
pub open spec fn tells_what_plays<W>(
    tree: JsonTree,
    s: BridgeView<W>,
    config: BridgeConfig,
    around: Surroundings,
) -> bool {
    &&& tells(tree, "service"@, JsonTree::Text("librespot-bridge"@))
    &&& tells(tree, "version"@, JsonTree::Text(around.version@))
    &&& tells(tree, "uptime_sec"@, number(around.uptime_sec as int))
    &&& tells(tree, "streaming"@, JsonTree::Bool(s.streaming))
    &&& tells(tree, "paused"@, JsonTree::Bool(s.paused))
    &&& tells(tree, "track"@, of_track(s.current_track, |t: TrackInfo| t.name@))
    &&& tells(tree, "artist"@, of_track(s.current_track, |t: TrackInfo| t.artist@))
    &&& tells(tree, "album"@, of_track(s.current_track, |t: TrackInfo| t.album@))
    &&& tells(tree, "cover"@, of_track(s.current_track, |t: TrackInfo| t.cover@))
    &&& tells(tree, "duration_ms"@, match s.current_track {
        Some(t) => number(t.duration_ms as int),
        None => JsonTree::Null,
    })
    &&& tells(tree, "stream_token"@, number(s.stream_token as int))
    &&& tells(tree, "tracks_played"@, number(s.tracks_played as int))
    &&& tells(tree, "total_bytes_served"@, number(s.total_bytes_served as int))
    &&& tells(tree, "station_ip"@, JsonTree::Text(config.station_ip@))
    &&& tells(tree, "session_id_valid"@, JsonTree::Bool(around.session_id_valid))
}

/// A document tells how the stream and the station stand.
pub open spec fn tells_how_it_stands<W>(
    tree: JsonTree,
    s: BridgeView<W>,
    config: BridgeConfig,
    around: Surroundings,
) -> bool {
    &&& tells(tree, "spirc_alive"@, JsonTree::Bool(s.spirc_alive))
    &&& tells(tree, "uri"@, of_track(s.current_track, |t: TrackInfo| t.uri@))
    &&& tells(tree, "expected_bytes"@, number(s.expected_bytes as int))
    &&& tells(tree, "bytes_produced"@, number(s.bytes_produced as int))
    &&& tells(tree, "bytes_delivered"@, number(s.bytes_delivered as int))
    &&& tells(tree, "mp3_buffer_chunks"@, number(s.mp3_buffer.len() as int))
    &&& tells(tree, "track_ended"@, JsonTree::Bool(s.track_ended))
    &&& tells(tree, "glagol_commands_sent"@, number(s.glagol_commands_sent as int))
    &&& tells(tree, "last_transition_ms"@, number(s.last_transition_ms as int))
    &&& tells(tree, "station_progress_ms"@, number(around.station_progress_ms as int))
    &&& tells(tree, "station_duration_ms"@, number(around.station_duration_ms as int))
    &&& tells(tree, "progress_age_ms"@, number(match around.progress_updated {
        Some(updated) if updated <= around.now_ms => around.now_ms - updated,
        _ => 0,
    }))
    &&& tells(tree, "position_offset_ms"@, number(if s.track_start_wall is Some {
        around.lead_ms as int
    } else {
        s.station_offset_ms as int
    }))
    &&& tells(tree, "bridge_port"@, number(config.bridge_port as int))
    &&& tells(tree, "mp3_bitrate"@, number(config.mp3_bitrate as int))
}

/// An answer is a document, printed for people.
pub open spec fn prints(answer: ResponseView, status: u16, tree: JsonTree) -> bool {
    &&& answer.status == status
    &&& answer.headers == seq![("Content-Type"@, "application/json"@)]
    &&& answer.body == BodyView::Static(
        Some(vstd::utf8::encode_utf8(crate::json::json_pretty(tree))),
    )
}

/// The paths and what they ask for: the stream's begin with its name, the others are their
/// names to the letter.
pub proof fn law_paths(path: Seq<char>, rest: Seq<char>)
    ensures
        crate::http::endpoint_of("/stream.mp3"@ + rest) == Endpoint::Stream,
        crate::http::endpoint_of(path) == Endpoint::Stream ==> exists|tail: Seq<char>|
            path == "/stream.mp3"@ + tail,
        crate::http::endpoint_of(path) == Endpoint::Status <==> path == "/status"@,
        crate::http::endpoint_of(path) == Endpoint::Debug <==> path == "/debug"@,
        crate::http::endpoint_of(path) == Endpoint::Health <==> path == "/health"@,
        crate::http::endpoint_of(path) == Endpoint::Metrics <==> path == "/metrics"@,
        crate::http::endpoint_of(path) == Endpoint::Stop <==> path == "/stop"@,
{
    reveal_strlit("/stream.mp3");
    reveal_strlit("/status");
    reveal_strlit("/debug");
    reveal_strlit("/health");
    reveal_strlit("/metrics");
    reveal_strlit("/stop");
    let whole = "/stream.mp3"@ + rest;
    assert(whole.take(11) =~= "/stream.mp3"@);
    if crate::http::endpoint_of(path) == Endpoint::Stream {
        assert(path =~= "/stream.mp3"@ + path.skip(11));
    }
    assert("/status"@[1] == 's');
    assert("/health"@[1] == 'h');
    assert("/debug"@.len() == 6 && "/stop"@.len() == 5 && "/metrics"@.len() == 8);
}

/// The status report tells what plays.
#[verifier::rlimit(50)]
pub proof fn law_status_report<W>(
    s: BridgeView<W>,
    query: Option<Seq<char>>,
    config: BridgeConfig,
    around: Surroundings,
)
    ensures
        exists|tree: JsonTree| #[trigger]
            prints(s.answer("/status"@, query, config, around), 200, tree) && tells_what_plays(
                tree,
                s,
                config,
                around,
            ),
{
    law_paths("/status"@, Seq::empty());
    let fields = crate::http::status_fields(s, config, around);
    let tree = JsonTree::Object(crate::json::object_of(fields));
    lemma_status_keys(s, config, around);
    lemma_field_is_member(fields, 0);
    lemma_field_is_member(fields, 1);
    lemma_field_is_member(fields, 2);
    lemma_field_is_member(fields, 3);
    lemma_field_is_member(fields, 4);
    lemma_field_is_member(fields, 5);
    lemma_field_is_member(fields, 6);
    lemma_field_is_member(fields, 7);
    lemma_field_is_member(fields, 8);
    lemma_field_is_member(fields, 9);
    lemma_field_is_member(fields, 10);
    lemma_field_is_member(fields, 11);
    lemma_field_is_member(fields, 12);
    lemma_field_is_member(fields, 13);
    lemma_field_is_member(fields, 14);
    assert(prints(s.answer("/status"@, query, config, around), 200, tree));
}

/// The diagnostic report tells what plays and how it stands.
#[verifier::rlimit(100)]
pub proof fn law_debug_report<W>(
    s: BridgeView<W>,
    query: Option<Seq<char>>,
    config: BridgeConfig,
    around: Surroundings,
)
    ensures
        exists|tree: JsonTree| #[trigger]
            prints(s.answer("/debug"@, query, config, around), 200, tree) && tells_what_plays(
                tree,
                s,
                config,
                around,
            ) && tells_how_it_stands(tree, s, config, around),
{
    law_paths("/debug"@, Seq::empty());
    let fields = crate::http::debug_fields(s, config, around) + crate::http::status_fields(
        s,
        config,
        around,
    );
    let tree = JsonTree::Object(crate::json::object_of(fields));
    lemma_debug_keys(s, config, around);
    lemma_field_is_member(fields, 0);
    lemma_field_is_member(fields, 1);
    lemma_field_is_member(fields, 2);
    lemma_field_is_member(fields, 3);
    lemma_field_is_member(fields, 4);
    lemma_field_is_member(fields, 5);
    lemma_field_is_member(fields, 6);
    lemma_field_is_member(fields, 7);
    lemma_field_is_member(fields, 8);
    lemma_field_is_member(fields, 9);
    lemma_field_is_member(fields, 10);
    lemma_field_is_member(fields, 11);
    lemma_field_is_member(fields, 12);
    lemma_field_is_member(fields, 13);
    lemma_field_is_member(fields, 14);
    lemma_field_is_member(fields, 15);
    lemma_field_is_member(fields, 16);
    lemma_field_is_member(fields, 17);
    lemma_field_is_member(fields, 18);
    lemma_field_is_member(fields, 19);
    lemma_field_is_member(fields, 20);
    lemma_field_is_member(fields, 21);
    lemma_field_is_member(fields, 22);
    lemma_field_is_member(fields, 23);
    lemma_field_is_member(fields, 24);
    lemma_field_is_member(fields, 25);
    lemma_field_is_member(fields, 26);
    lemma_field_is_member(fields, 27);
    lemma_field_is_member(fields, 28);
    lemma_field_is_member(fields, 29);
    assert(prints(s.answer("/debug"@, query, config, around), 200, tree));
}

/// The keys of the status report.
pub open spec fn status_keys() -> Seq<Seq<char>> {
    seq![
        "service"@,
        "version"@,
        "uptime_sec"@,
        "streaming"@,
        "paused"@,
        "track"@,
        "artist"@,
        "album"@,
        "cover"@,
        "duration_ms"@,
        "stream_token"@,
        "tracks_played"@,
        "total_bytes_served"@,
        "station_ip"@,
        "session_id_valid"@,
    ]
}

/// The keys that the diagnostic report has besides.
pub open spec fn debug_keys() -> Seq<Seq<char>> {
    seq![
        "spirc_alive"@,
        "uri"@,
        "expected_bytes"@,
        "bytes_produced"@,
        "bytes_delivered"@,
        "mp3_buffer_chunks"@,
        "track_ended"@,
        "glagol_commands_sent"@,
        "last_transition_ms"@,
        "station_progress_ms"@,
        "station_duration_ms"@,
        "progress_age_ms"@,
        "position_offset_ms"@,
        "bridge_port"@,
        "mp3_bitrate"@,
    ]
}

/// A member of an object comes of a field.
proof fn lemma_member_is_field(fields: Seq<(Seq<char>, JsonTree)>, key: Seq<char>) -> (i: int)
    requires
        crate::json::object_of(fields).dom().contains(key),
    ensures
        0 <= i < fields.len(),
        fields[i].0 == key,
    decreases fields.len(),
{
    if fields.last().0 == key {
        fields.len() - 1
    } else {
        lemma_member_is_field(fields.drop_last(), key)
    }
}

proof fn lemma_status_tells<W>(
    s: BridgeView<W>,
    config: BridgeConfig,
    around: Surroundings,
    key: Seq<char>,
)
    requires
        crate::json::object_of(crate::http::status_fields(s, config, around)).dom().contains(key),
    ensures
        status_keys().contains(key),
{
    let i = lemma_member_is_field(crate::http::status_fields(s, config, around), key);
    assert(status_keys()[i] == key);
}

proof fn lemma_debug_tells<W>(
    s: BridgeView<W>,
    config: BridgeConfig,
    around: Surroundings,
    key: Seq<char>,
)
    requires
        crate::json::object_of(
            crate::http::debug_fields(s, config, around) + crate::http::status_fields(
                s,
                config,
                around,
            ),
        ).dom().contains(key),
    ensures
        status_keys().contains(key) || debug_keys().contains(key),
{
    let debug = crate::http::debug_fields(s, config, around);
    let i = lemma_member_is_field(debug + crate::http::status_fields(s, config, around), key);
    if i < 15 {
        assert(debug_keys()[i] == key);
    } else {
        assert(status_keys()[i - 15] == key);
    }
}

/// The status report tells nothing else.
pub proof fn law_status_tells_nothing_else<W>(
    s: BridgeView<W>,
    query: Option<Seq<char>>,
    config: BridgeConfig,
    around: Surroundings,
    key: Seq<char>,
)
    ensures
        exists|tree: JsonTree| #[trigger]
            prints(s.answer("/status"@, query, config, around), 200, tree) && (
            crate::json::tree_member(tree, key) is Some ==> status_keys().contains(key)),
{
    law_paths("/status"@, Seq::empty());
    let fields = crate::http::status_fields(s, config, around);
    let tree = JsonTree::Object(crate::json::object_of(fields));
    if crate::json::tree_member(tree, key) is Some {
        lemma_status_tells(s, config, around, key);
    }
    assert(prints(s.answer("/status"@, query, config, around), 200, tree));
}

/// The diagnostic report tells nothing else.
pub proof fn law_debug_tells_nothing_else<W>(
    s: BridgeView<W>,
    query: Option<Seq<char>>,
    config: BridgeConfig,
    around: Surroundings,
    key: Seq<char>,
)
    ensures
        exists|tree: JsonTree| #[trigger]
            prints(s.answer("/debug"@, query, config, around), 200, tree) && (
            crate::json::tree_member(tree, key) is Some ==> status_keys().contains(key)
                || debug_keys().contains(key)),
{
    law_paths("/debug"@, Seq::empty());
    let fields = crate::http::debug_fields(s, config, around) + crate::http::status_fields(
        s,
        config,
        around,
    );
    let tree = JsonTree::Object(crate::json::object_of(fields));
    if crate::json::tree_member(tree, key) is Some {
        lemma_debug_tells(s, config, around, key);
    }
    assert(prints(s.answer("/debug"@, query, config, around), 200, tree));
}

/// Every part of the bridge works.
pub open spec fn well<W>(s: BridgeView<W>, around: Surroundings) -> bool {
    s.spirc_alive && around.glagol_connected && around.session_id_valid
}

/// What the health report says of the parts.
pub open spec fn tells_health<W>(
    tree: JsonTree,
    s: BridgeView<W>,
    around: Surroundings,
) -> bool {
    &&& tells(tree, "healthy"@, JsonTree::Bool(well(s, around)))
    &&& tells(tree, "spirc_alive"@, JsonTree::Bool(s.spirc_alive))
    &&& tells(tree, "glagol_connected"@, JsonTree::Bool(around.glagol_connected))
    &&& tells(tree, "session_id_valid"@, JsonTree::Bool(around.session_id_valid))
}

/// The health report tells of the three parts and whether all of them work, and its status
/// says the same to whoever does not read it.
#[verifier::rlimit(50)]
pub proof fn law_health_report<W>(
    s: BridgeView<W>,
    query: Option<Seq<char>>,
    config: BridgeConfig,
    around: Surroundings,
)
    ensures
        well(s, around) ==> exists|tree: JsonTree| #[trigger]
            prints(s.answer("/health"@, query, config, around), 200, tree) && tells_health(
                tree,
                s,
                around,
            ),
        !well(s, around) ==> exists|tree: JsonTree| #[trigger]
            prints(s.answer("/health"@, query, config, around), 503, tree) && tells_health(
                tree,
                s,
                around,
            ),
{
    assert(crate::http::endpoint_of("/health"@) == Endpoint::Health) by {
        law_paths("/health"@, Seq::empty());
    }
    reveal_strlit("healthy");
    reveal_strlit("spirc_alive");
    reveal_strlit("glagol_connected");
    reveal_strlit("session_id_valid");
    assert("glagol_connected"@[0] != "session_id_valid"@[0]);
    assert("healthy"@.len() == 7 && "spirc_alive"@.len() == 11);
    let fields = crate::http::health_fields(s, around);
    let tree = JsonTree::Object(crate::json::object_of(fields));
    assert(fields[0].0 == "healthy"@ && fields[1].0 == "spirc_alive"@ && fields[2].0
        == "glagol_connected"@ && fields[3].0 == "session_id_valid"@);
    assert forall|i: int, j: int| 0 <= i < j < fields.len() implies (#[trigger] fields[i]).0 != (
    #[trigger] fields[j]).0 by {
        assert(i == 0 || i == 1 || i == 2 || i == 3);
        assert(j == 0 || j == 1 || j == 2 || j == 3);
    }
    lemma_field_is_member(fields, 0);
    lemma_field_is_member(fields, 1);
    lemma_field_is_member(fields, 2);
    lemma_field_is_member(fields, 3);
    let status: u16 = if well(s, around) {
        200
    } else {
        503
    };
    assert(prints(s.answer("/health"@, query, config, around), status, tree));
}

/// A path that is not known is answered so, and a forced stop is confirmed.
pub proof fn law_short_answers<W>(
    s: BridgeView<W>,
    path: Seq<char>,
    query: Option<Seq<char>>,
    config: BridgeConfig,
    around: Surroundings,
)
    requires
        crate::http::endpoint_of(path) == Endpoint::Unknown,
    ensures
        ({
            let answer = s.answer(path, query, config, around);
            &&& answer.status == 404
            &&& answer.headers.len() == 0
            &&& answer.body == BodyView::Static(Some(vstd::utf8::encode_utf8("Not Found"@)))
        }),
        ({
            let answer = s.answer("/stop"@, query, config, around);
            &&& answer.status == 200
            &&& answer.headers == seq![("Content-Type"@, "application/json"@)]
            &&& answer.body == BodyView::Static(
                Some(vstd::utf8::encode_utf8("{\"ok\":true}"@)),
            )
        }),
        s.woken_by("/stop"@) == s.stream_waker,
        s.woken_by(path) is None,
{
    assert(crate::http::endpoint_of("/stop"@) == Endpoint::Stop) by {
        law_paths("/stop"@, Seq::empty());
    }
}

/// Whatever path begins with the stream's is answered with the stream, by the token that
/// the query asks for, and wakes nobody.
pub proof fn law_stream_is_answered<W>(
    s: BridgeView<W>,
    rest: Seq<char>,
    query: Option<Seq<char>>,
    config: BridgeConfig,
    around: Surroundings,
)
    ensures
        s.answer("/stream.mp3"@ + rest, query, config, around) == s.stream_view(
            crate::http::token_of_query(query),
        ),
        s.woken_by("/stream.mp3"@ + rest) is None,
{
    assert(crate::http::endpoint_of("/stream.mp3"@ + rest) == Endpoint::Stream) by {
        law_paths(Seq::empty(), rest);
    }
}

/// The answer to a request for the stream: a client that is let in is told the length that
/// was promised and gets the stream from its beginning; any other gets the silence, all of
/// it.
pub proof fn law_stream_answer<W>(s: BridgeView<W>, token: u64)
    ensures
        ({
            let answer = s.stream_view(token);
            let current = s.streaming && token == s.stream_token;
            &&& answer.status == 200
            &&& current ==> {
                &&& answer.headers.len() == 4
                &&& answer.headers[0] == ("Content-Type"@, "audio/mpeg"@)
                &&& answer.headers[1] == (
                    "Content-Length"@,
                    crate::text::decimal(s.expected_bytes as nat),
                )
                &&& answer.headers[2] == ("Accept-Ranges"@, "none"@)
                &&& answer.headers[3] == ("Connection"@, "close"@)
                &&& answer.body matches BodyView::Stream(body)
                &&& body.token == s.stream_token
                &&& body.expected_bytes == s.expected_bytes
                &&& body.bytes_delivered == 0
                &&& !body.done
            }
            &&& !current ==> {
                &&& answer.headers.len() == 3
                &&& answer.headers[0] == ("Content-Type"@, "audio/mpeg"@)
                &&& answer.headers[1] == (
                    "Content-Length"@,
                    crate::text::decimal(s.silence.len()),
                )
                &&& answer.headers[2] == ("Connection"@, "close"@)
                &&& answer.body == BodyView::Static(Some(s.silence))
            }
        }),
{
}

/// What a client that asks for more is told: the oldest data of its stream, or that there
/// is nothing more once its stream is over or it has all that it was promised, or to wait.
pub proof fn law_what_clients_are_told<W>(s: BridgeView<W>, body: StreamBody)
    requires
        body.bytes_delivered + (if s.mp3_buffer.len() > 0 {
            s.mp3_buffer[0].len() as int
        } else {
            0
        }) <= usize::MAX,
    ensures
        ({
            let current = !body.done && body.token == s.stream_token;
            let queued = s.mp3_buffer.len() > 0;
            let told = body.reply(s);
            let next = body.polled(s);
            &&& told is Frame <==> current && queued
            &&& told matches PollView::Frame(data) ==> data == s.mp3_buffer[0]
            &&& told is Pending <==> current && !queued && body.bytes_delivered
                < body.expected_bytes
            &&& next.token == body.token
            &&& next.expected_bytes == body.expected_bytes
            &&& next.bytes_delivered == body.bytes_delivered + (if told is Frame {
                s.mp3_buffer[0].len() as int
            } else {
                0
            })
            &&& next.done <==> !current || next.bytes_delivered >= body.expected_bytes
        }),
{
}

/// A new client is owed all that it was promised of its stream.
pub proof fn law_new_client(token: u64, expected_bytes: usize)
    ensures
        ({
            let body = StreamBody::initial(token, expected_bytes);
            &&& body.token == token
            &&& body.expected_bytes == expected_bytes
            &&& body.bytes_delivered == 0
            &&& !body.done
        }),
{
}

/// What is all there is handed out whole, once.
pub proof fn law_whole_bodies<W>(s: BridgeView<W>, later: BridgeView<W>, data: Seq<u8>)
    ensures
        BodyView::Static(Some(data)).reply(s) == PollView::Frame(data),
        BodyView::Static(Some(data)).polled(s).reply(later) == PollView::End,
        BodyView::Static(None).reply(s) == PollView::End,
        BodyView::Static(None).polled(s) == BodyView::Static(None),
{
}

/// A connection remembers the token that it last asked a stream for. When it ends, Spotify
/// is to be paused exactly where that stream is current and plays, it was not the bridge
/// that ended it, and the station does not play Bluetooth.
pub proof fn law_farewell<W>(
    s: BridgeView<W>,
    connection: Connection,
    path: Seq<char>,
    query: Option<Seq<char>>,
    bt_playing: bool,
)
    ensures
        Connection::initial().served is None,
        connection.noted(path, query).served == (if crate::http::endpoint_of(path)
            == Endpoint::Stream {
            Some(crate::http::token_of_query(query))
        } else {
            connection.served
        }),
        connection.farewell(s, bt_playing) == (if connection.served == Some(s.stream_token)
            && s.streaming && !s.paused && !s.internal_disconnect && !bt_playing {
            Some(BridgeCommand::AutoPause(s.stream_token))
        } else {
            None
        }),
{
}

/// A flag in a metric.
pub open spec fn bit(b: bool) -> nat {
    if b {
        1
    } else {
        0
    }
}

/// The three lines of a metric: what it is for, what it is, and its value.
#[verifier::opaque]
pub open spec fn block(name: Seq<char>, help: Seq<char>, kind: Seq<char>, value: nat) -> Seq<char> {
    ("# HELP "@ + name + " "@ + help + "\n"@) + ("# TYPE "@ + name + " "@ + kind + "\n"@) + (name
        + " "@ + crate::text::decimal(value) + "\n"@)
}

/// `piece` stands somewhere in `text`.
pub open spec fn holds(text: Seq<char>, piece: Seq<char>) -> bool {
    exists|i: int|
        0 <= i && i + piece.len() <= text.len() && #[trigger] text.subrange(
            i,
            i + piece.len(),
        ) == piece
}

/// The pieces, one after the other.
pub open spec fn run_together(pieces: Seq<Seq<char>>) -> Seq<char>
    decreases pieces.len(),
{
    if pieces.len() == 0 {
        Seq::empty()
    } else {
        run_together(pieces.drop_last()) + pieces.last()
    }
}

proof fn lemma_holds_piece(pieces: Seq<Seq<char>>, k: int)
    requires
        0 <= k < pieces.len(),
    ensures
        holds(run_together(pieces), pieces[k]),
    decreases pieces.len(),
{
    let front = run_together(pieces.drop_last());
    let text = run_together(pieces);
    let piece = pieces[k];
    if k == pieces.len() - 1 {
        let i = front.len() as int;
        assert(text.subrange(i, i + piece.len()) =~= piece);
    } else {
        lemma_holds_piece(pieces.drop_last(), k);
        let i = choose|i: int|
            0 <= i && i + piece.len() <= front.len() && #[trigger] front.subrange(
                i,
                i + piece.len(),
            ) == piece;
        assert(text.subrange(i, i + piece.len()) =~= front.subrange(i, i + piece.len()));
    }
}

proof fn lemma_run_longer(pieces: Seq<Seq<char>>, k: int)
    requires
        0 <= k < pieces.len(),
    ensures
        run_together(pieces.take(k + 1)) == run_together(pieces.take(k)) + pieces[k],
{
    assert(pieces.take(k + 1).drop_last() =~= pieces.take(k));
}

/// A metric is three lines.
proof fn lemma_metric(name: Seq<char>, help: Seq<char>, kind: Seq<char>, value: nat)
    ensures
        crate::http::metric(name, help, kind, value) == block(name, help, kind, value),
{
    reveal(block);
    reveal_strlit("\n# TYPE ");
    reveal_strlit("\n");
    reveal_strlit("# TYPE ");
    assert("\n# TYPE "@ =~= "\n"@ + "# TYPE "@);
    assert(crate::http::metric(name, help, kind, value) =~= block(name, help, kind, value));
}

/// The metrics, as blocks.
#[verifier::opaque]
pub open spec fn metric_blocks<W>(s: BridgeView<W>, around: Surroundings) -> Seq<Seq<char>> {
    seq![
        block(
            "librespot_bytes_delivered_total"@,
            "Total MP3 bytes sent over /stream.mp3 since process start"@,
            "counter"@,
            s.total_bytes_served as nat,
        ),
        block(
            "librespot_tracks_played_total"@,
            "Total tracks started since process start"@,
            "counter"@,
            s.tracks_played as nat,
        ),
        block(
            "librespot_glagol_commands_sent_total"@,
            "Total Glagol WSS commands sent to Station"@,
            "counter"@,
            s.glagol_commands_sent as nat,
        ),
        block(
            "librespot_buffer_chunks"@,
            "Current MP3 buffer chunk count (queued, not yet sent)"@,
            "gauge"@,
            s.mp3_buffer.len(),
        ),
        block(
            "librespot_bytes_produced_current"@,
            "Bytes encoded by MP3 encoder for current track"@,
            "gauge"@,
            s.bytes_produced as nat,
        ),
        block(
            "librespot_bytes_delivered_current"@,
            "Bytes delivered to HTTP client for current track"@,
            "gauge"@,
            s.bytes_delivered as nat,
        ),
        block(
            "librespot_uptime_seconds"@,
            "Process uptime in seconds"@,
            "counter"@,
            around.uptime_sec as nat,
        ),
        block(
            "librespot_streaming"@,
            "Whether bridge is currently streaming a track (1) or idle (0)"@,
            "gauge"@,
            bit(s.streaming),
        ),
        block(
            "librespot_paused"@,
            "Whether playback is paused (1) or playing (0)"@,
            "gauge"@,
            bit(s.paused),
        ),
        block(
            "librespot_spirc_alive"@,
            "Whether Spotify Connect (Spirc) session is alive"@,
            "gauge"@,
            bit(s.spirc_alive),
        ),
        block(
            "librespot_glagol_connected"@,
            "Whether Glagol WSS connection to Station is up"@,
            "gauge"@,
            bit(around.glagol_connected),
        ),
        block(
            "librespot_session_id_valid"@,
            "Whether Yandex session_id is valid for Glagol auth"@,
            "gauge"@,
            bit(around.session_id_valid),
        ),
    ]
}

proof fn lemma_run_of_twelve(pieces: Seq<Seq<char>>)
    requires
        pieces.len() == 12,
    ensures
        Some(run_together(pieces)) == Some(
            pieces[0] + pieces[1] + pieces[2] + pieces[3] + pieces[4] + pieces[5] + pieces[6]
                + pieces[7] + pieces[8] + pieces[9] + pieces[10] + pieces[11],
        ),
{
    lemma_run_longer(pieces, 0);
    lemma_run_longer(pieces, 1);
    lemma_run_longer(pieces, 2);
    lemma_run_longer(pieces, 3);
    lemma_run_longer(pieces, 4);
    lemma_run_longer(pieces, 5);
    lemma_run_longer(pieces, 6);
    lemma_run_longer(pieces, 7);
    lemma_run_longer(pieces, 8);
    lemma_run_longer(pieces, 9);
    lemma_run_longer(pieces, 10);
    lemma_run_longer(pieces, 11);
    assert(pieces.take(0) =~= Seq::empty());
    assert(pieces.take(12) =~= pieces);
    assert(Seq::<char>::empty() + pieces[0] =~= pieces[0]);
}

/// An answer is a plain text for a collector of metrics.
pub open spec fn exposes(answer: ResponseView, text: Seq<char>) -> bool {
    &&& answer.status == 200
    &&& answer.headers == seq![("Content-Type"@, "text/plain; version=0.0.4; charset=utf-8"@)]
    &&& answer.body == BodyView::Static(Some(vstd::utf8::encode_utf8(text)))
}

#[verifier::rlimit(60)]
proof fn lemma_metrics_text<W>(s: BridgeView<W>, around: Surroundings)
    ensures
        metric_blocks(s, around).len() == 12,
        Some(run_together(metric_blocks(s, around))) == Some(crate::http::metrics_text(s, around)),
{
    reveal(metric_blocks);
    let blocks = metric_blocks(s, around);
    lemma_run_of_twelve(blocks);
    lemma_metric(
        "librespot_bytes_delivered_total"@,
        "Total MP3 bytes sent over /stream.mp3 since process start"@,
        "counter"@,
        s.total_bytes_served as nat,
    );
    lemma_metric(
        "librespot_tracks_played_total"@,
        "Total tracks started since process start"@,
        "counter"@,
        s.tracks_played as nat,
    );
    lemma_metric(
        "librespot_glagol_commands_sent_total"@,
        "Total Glagol WSS commands sent to Station"@,
        "counter"@,
        s.glagol_commands_sent as nat,
    );
    lemma_metric(
        "librespot_buffer_chunks"@,
        "Current MP3 buffer chunk count (queued, not yet sent)"@,
        "gauge"@,
        s.mp3_buffer.len(),
    );
    lemma_metric(
        "librespot_bytes_produced_current"@,
        "Bytes encoded by MP3 encoder for current track"@,
        "gauge"@,
        s.bytes_produced as nat,
    );
    lemma_metric(
        "librespot_bytes_delivered_current"@,
        "Bytes delivered to HTTP client for current track"@,
        "gauge"@,
        s.bytes_delivered as nat,
    );
    lemma_metric(
        "librespot_uptime_seconds"@,
        "Process uptime in seconds"@,
        "counter"@,
        around.uptime_sec as nat,
    );
    lemma_metric(
        "librespot_streaming"@,
        "Whether bridge is currently streaming a track (1) or idle (0)"@,
        "gauge"@,
        bit(s.streaming),
    );
    lemma_metric(
        "librespot_paused"@,
        "Whether playback is paused (1) or playing (0)"@,
        "gauge"@,
        bit(s.paused),
    );
    lemma_metric(
        "librespot_spirc_alive"@,
        "Whether Spotify Connect (Spirc) session is alive"@,
        "gauge"@,
        bit(s.spirc_alive),
    );
    lemma_metric(
        "librespot_glagol_connected"@,
        "Whether Glagol WSS connection to Station is up"@,
        "gauge"@,
        bit(around.glagol_connected),
    );
    lemma_metric(
        "librespot_session_id_valid"@,
        "Whether Yandex session_id is valid for Glagol auth"@,
        "gauge"@,
        bit(around.session_id_valid),
    );
}

/// The metrics report holds every metric with its value, and nothing else.
#[verifier::rlimit(60)]
pub proof fn law_metrics_report<W>(
    s: BridgeView<W>,
    query: Option<Seq<char>>,
    config: BridgeConfig,
    around: Surroundings,
    k: int,
)
    requires
        0 <= k < 12,
    ensures
        exposes(
            s.answer("/metrics"@, query, config, around),
            run_together(metric_blocks(s, around)),
        ),
        holds(run_together(metric_blocks(s, around)), metric_blocks(s, around)[k]),
{
    assert(crate::http::endpoint_of("/metrics"@) == Endpoint::Metrics) by {
        law_paths("/metrics"@, Seq::empty());
    }
    lemma_metrics_text(s, around);
    lemma_holds_piece(metric_blocks(s, around), k);
}

/// The number that a text spells, or zero.
pub open spec fn number_or_zero(text: Seq<char>) -> u64 {
    match crate::text::number_of(text) {
        Some(n) => n,
        None => 0,
    }
}

/// The token that a query asks for is the number behind the first `t=` that begins a
/// parameter, and zero where that is no number or there is none.
pub proof fn law_token_of_query(value: Seq<char>, other: Seq<char>, rest: Seq<char>)
    requires
        !value.contains('&'),
        !other.contains('&'),
        !crate::text::has_prefix(other, "t="@),
    ensures
        crate::http::token_of_query(None) == 0,
        crate::http::token_of_query(Some("t="@ + value)) == number_or_zero(value),
        crate::http::token_of_query(Some(("t="@ + value).push('&') + rest)) == number_or_zero(
            value,
        ),
        crate::http::token_of_query(Some(other)) == 0,
        crate::http::token_of_query(Some(other.push('&') + rest)) == crate::http::token_of_query(
            Some(rest),
        ),
{
    reveal_strlit("t=");
    let asked = "t="@ + value;
    assert forall|i: int| 0 <= i < asked.len() implies asked[i] != '&' by {
        if i >= 2 {
            assert(value.contains(value[i - 2]));
        }
    }
    crate::text::law_split_of_one(asked, '&');
    crate::text::law_split_of_one(other, '&');
    crate::text::law_split(asked, '&', rest);
    crate::text::law_split(other, '&', rest);
    crate::text::law_first_after(other, crate::text::split(rest, '&'), "t="@, value);
    crate::text::law_first_after(other, Seq::empty(), "t="@, value);
    assert(seq![asked] + Seq::<Seq<char>>::empty() =~= seq![asked]);
    assert(seq![other] + Seq::<Seq<char>>::empty() =~= seq![other]);
}

/// What is said of a response is said of its status, its headers in their order, each by
/// its name and its value, and its body.
pub proof fn law_response_views(response: Response, poll: StreamPoll, i: int)
    ensures
        response@.status == response.status,
        response@.headers.len() == response.headers@.len(),
        0 <= i < response.headers@.len() ==> response@.headers[i] == (
            response.headers@[i].0@,
            response.headers@[i].1@,
        ),
        response.body matches ResponseBody::Stream(body) ==> response@.body == BodyView::Stream(
            body,
        ),
        response.body matches ResponseBody::Static(Some(data)) ==> response@.body
            == BodyView::Static(Some(crate::chunk::bytes_content(data))),
        response.body == ResponseBody::Static(None) ==> response@.body == BodyView::Static(None),
        poll matches StreamPoll::Frame(chunk) ==> poll@ == PollView::Frame(
            crate::chunk::bytes_content(chunk),
        ),
        poll is End ==> poll@ == PollView::End,
        poll is Pending ==> poll@ == PollView::Pending,
{
}

} // verus!
