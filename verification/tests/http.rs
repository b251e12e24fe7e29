use bytes::Bytes;
use librespot_bridge::http::{
    endpoint, handle_request, token_from_query, Connection, Endpoint, Response, ResponseBody,
    Surroundings,
};
use librespot_bridge::session::clear_session;
use librespot_bridge::state::{BridgeCommand, BridgeConfig, BridgeShared, TrackInfo};
use serde_json::Value;

fn config() -> BridgeConfig {
    BridgeConfig {
        station_ip: String::from("192.168.1.21"),
        sbc_ip: String::from("192.168.1.19"),
        bridge_port: 8888,
        session_id: String::from("sid"),
        device_id: String::from("dev"),
        platform: String::from("cucumber"),
        socks_proxy: String::new(),
        mp3_bitrate: 192,
    }
}

fn around() -> Surroundings {
    Surroundings {
        version: String::from("0.1.0"),
        uptime_sec: 61,
        now_ms: 5000,
        glagol_connected: true,
        session_id_valid: true,
        station_progress_ms: 1500,
        station_duration_ms: 90_000,
        progress_updated: Some(4200),
        lead_ms: 2750,
    }
}

fn idle() -> BridgeShared<u32> {
    BridgeShared::new(Bytes::from(vec![1u8, 2, 3]))
}

fn playing() -> BridgeShared<u32> {
    let mut b = idle();
    let _ = b.start_new_track(
        TrackInfo {
            name: String::from("Song \"A\""),
            artist: String::from("Artist"),
            album: String::from("Album"),
            cover: String::from("http://cover"),
            uri: String::from("spotify:track:1"),
            duration_ms: 1500,
        },
        0,
        1000,
    );
    b
}

fn ask(b: &mut BridgeShared<u32>, path: &str, query: Option<&str>) -> Response {
    handle_request(path, query, b, &config(), &around()).0
}

fn bytes_of(r: &Response) -> Vec<u8> {
    match &r.body {
        ResponseBody::Static(Some(data)) => data.to_vec(),
        _ => panic!("no static body"),
    }
}

fn json_of(r: &Response) -> Value {
    serde_json::from_slice(&bytes_of(r)).unwrap()
}

fn header(r: &Response, name: &str) -> Option<String> {
    r.headers.iter().find(|h| h.0 == name).map(|h| h.1.clone())
}

#[test]
fn token_is_read_from_the_query() {
    assert_eq!(token_from_query(Some("t=7")), 7);
    assert_eq!(token_from_query(Some("a=1&t=18446744073709551615")), u64::MAX);
    assert_eq!(token_from_query(Some("t=+5&t=6")), 5);
    assert_eq!(token_from_query(Some("t=007")), 7);
}

#[test]
fn token_is_zero_without_a_number() {
    assert_eq!(token_from_query(None), 0);
    assert_eq!(token_from_query(Some("")), 0);
    assert_eq!(token_from_query(Some("t=")), 0);
    assert_eq!(token_from_query(Some("t=x&t=5")), 0);
    assert_eq!(token_from_query(Some("t=-1")), 0);
    assert_eq!(token_from_query(Some("t=18446744073709551616")), 0);
    assert_eq!(token_from_query(Some("xt=3")), 0);
    assert_eq!(token_from_query(Some("t=1 ")), 0);
    assert_eq!(token_from_query(Some("&&T=4")), 0);
}

#[test]
fn paths_find_their_endpoints() {
    assert_eq!(endpoint("/stream.mp3"), Endpoint::Stream);
    assert_eq!(endpoint("/stream.mp3/more"), Endpoint::Stream);
    assert_eq!(endpoint("/stream.mp"), Endpoint::Unknown);
    assert_eq!(endpoint("/status"), Endpoint::Status);
    assert_eq!(endpoint("/status/"), Endpoint::Unknown);
    assert_eq!(endpoint("/debug"), Endpoint::Debug);
    assert_eq!(endpoint("/health"), Endpoint::Health);
    assert_eq!(endpoint("/metrics"), Endpoint::Metrics);
    assert_eq!(endpoint("/stop"), Endpoint::Stop);
    assert_eq!(endpoint("/"), Endpoint::Unknown);
}

#[test]
fn unknown_path_is_not_found() {
    let r = ask(&mut idle(), "/nothing", None);
    assert_eq!(r.status, 404);
    assert_eq!(r.headers.len(), 0);
    assert_eq!(bytes_of(&r), b"Not Found".to_vec());
}

#[test]
fn current_stream_is_served() {
    let mut b = playing();
    let r = ask(&mut b, "/stream.mp3", Some("t=1"));
    assert_eq!(r.status, 200);
    assert_eq!(
        r.headers,
        vec![
            (String::from("Content-Type"), String::from("audio/mpeg")),
            (String::from("Content-Length"), String::from("72000")),
            (String::from("Accept-Ranges"), String::from("none")),
            (String::from("Connection"), String::from("close")),
        ]
    );
    match r.body {
        ResponseBody::Stream(body) => {
            assert_eq!((body.token, body.bytes_delivered, body.expected_bytes), (1, 0, 72000))
        }
        _ => panic!("no stream"),
    }
    assert!(!b.internal_disconnect);
    assert_eq!(b.station_connected_wall, Some(5000));
    assert_eq!(b.station_offset_ms, 4000 + 2500);
}

#[test]
fn second_connection_keeps_the_first_estimate() {
    let mut b = playing();
    b.station_connected_wall = Some(1200);
    b.station_offset_ms = 2700;
    let _ = ask(&mut b, "/stream.mp3", Some("t=1"));
    assert_eq!(b.station_connected_wall, Some(1200));
    assert_eq!(b.station_offset_ms, 2700);
    assert!(!b.internal_disconnect);
}

#[test]
fn stale_token_gets_silence() {
    let mut b = playing();
    let r = ask(&mut b, "/stream.mp3", Some("t=2"));
    assert_eq!(r.status, 200);
    assert_eq!(header(&r, "Content-Type"), Some(String::from("audio/mpeg")));
    assert_eq!(header(&r, "Content-Length"), Some(String::from("3")));
    assert_eq!(header(&r, "Connection"), Some(String::from("close")));
    assert_eq!(header(&r, "Accept-Ranges"), None);
    assert_eq!(bytes_of(&r), vec![1, 2, 3]);
    assert!(b.internal_disconnect);
    assert_eq!(b.station_connected_wall, None);
}

#[test]
fn current_token_gets_silence_while_nothing_streams() {
    let mut b = idle();
    let r = ask(&mut b, "/stream.mp3", None);
    assert_eq!(bytes_of(&r), vec![1, 2, 3]);
}

#[test]
fn status_tells_of_the_track() {
    let mut b = playing();
    let r = ask(&mut b, "/status", None);
    assert_eq!(r.status, 200);
    assert_eq!(header(&r, "Content-Type"), Some(String::from("application/json")));
    let v = json_of(&r);
    assert_eq!(v["service"], Value::from("librespot-bridge"));
    assert_eq!(v["version"], Value::from("0.1.0"));
    assert_eq!(v["uptime_sec"], Value::from(61));
    assert_eq!(v["streaming"], Value::from(true));
    assert_eq!(v["paused"], Value::from(false));
    assert_eq!(v["track"], Value::from("Song \"A\""));
    assert_eq!(v["artist"], Value::from("Artist"));
    assert_eq!(v["album"], Value::from("Album"));
    assert_eq!(v["cover"], Value::from("http://cover"));
    assert_eq!(v["duration_ms"], Value::from(1500));
    assert_eq!(v["stream_token"], Value::from(1));
    assert_eq!(v["tracks_played"], Value::from(1));
    assert_eq!(v["total_bytes_served"], Value::from(0));
    assert_eq!(v["station_ip"], Value::from("192.168.1.21"));
    assert_eq!(v["session_id_valid"], Value::from(true));
    assert_eq!(v.as_object().unwrap().len(), 15);
}

#[test]
fn status_without_a_track_has_nulls() {
    let v = json_of(&ask(&mut idle(), "/status", None));
    assert_eq!(v["track"], Value::Null);
    assert_eq!(v["duration_ms"], Value::Null);
    assert!(v.as_object().unwrap().contains_key("cover"));
}

#[test]
fn status_is_printed_for_people() {
    let text = String::from_utf8(bytes_of(&ask(&mut idle(), "/status", None))).unwrap();
    assert!(text.starts_with("{\n  \"album\": null,\n"));
}

#[test]
fn debug_tells_everything_that_status_tells() {
    let mut b = playing();
    let status = json_of(&ask(&mut b, "/status", None));
    let debug = json_of(&ask(&mut b, "/debug", None));
    for (key, value) in status.as_object().unwrap() {
        assert_eq!(&debug[key], value);
    }
    assert_eq!(debug.as_object().unwrap().len(), 30);
}

#[test]
fn debug_tells_of_stream_and_station() {
    let mut b = playing();
    let _ = b.push_mp3(vec![1, 2, 3, 4]);
    b.bytes_delivered = 1;
    b.last_transition_ms = 6;
    b.glagol_commands_sent = 8;
    b.spirc_alive = true;
    b.track_ended = true;
    let v = json_of(&ask(&mut b, "/debug", None));
    assert_eq!(v["spirc_alive"], Value::from(true));
    assert_eq!(v["uri"], Value::from("spotify:track:1"));
    assert_eq!(v["expected_bytes"], Value::from(72000));
    assert_eq!(v["bytes_produced"], Value::from(4));
    assert_eq!(v["bytes_delivered"], Value::from(1));
    assert_eq!(v["mp3_buffer_chunks"], Value::from(1));
    assert_eq!(v["track_ended"], Value::from(true));
    assert_eq!(v["glagol_commands_sent"], Value::from(8));
    assert_eq!(v["last_transition_ms"], Value::from(6));
    assert_eq!(v["station_progress_ms"], Value::from(1500));
    assert_eq!(v["station_duration_ms"], Value::from(90_000));
    assert_eq!(v["progress_age_ms"], Value::from(800));
    assert_eq!(v["position_offset_ms"], Value::from(2750));
    assert_eq!(v["bridge_port"], Value::from(8888));
    assert_eq!(v["mp3_bitrate"], Value::from(192));
}

#[test]
fn debug_falls_back_to_the_estimate() {
    let mut b = idle();
    b.station_offset_ms = 4321;
    let mut a = around();
    a.progress_updated = None;
    let r = handle_request("/debug", None, &mut b, &config(), &a).0;
    let v = json_of(&r);
    assert_eq!(v["position_offset_ms"], Value::from(4321));
    assert_eq!(v["progress_age_ms"], Value::from(0));
}

#[test]
fn health_needs_all_three() {
    for bits in 0u8..8 {
        let mut b = idle();
        b.spirc_alive = bits & 1 != 0;
        let mut a = around();
        a.glagol_connected = bits & 2 != 0;
        a.session_id_valid = bits & 4 != 0;
        let r = handle_request("/health", None, &mut b, &config(), &a).0;
        assert_eq!(r.status, if bits == 7 { 200 } else { 503 });
        let v = json_of(&r);
        assert_eq!(v["healthy"], Value::from(bits == 7));
        assert_eq!(v["spirc_alive"], Value::from(bits & 1 != 0));
        assert_eq!(v["glagol_connected"], Value::from(bits & 2 != 0));
        assert_eq!(v["session_id_valid"], Value::from(bits & 4 != 0));
    }
}

#[test]
fn metrics_are_in_the_text_format() {
    let mut b = playing();
    let _ = b.push_mp3(vec![1, 2, 3]);
    b.total_bytes_served = 1_234_567;
    b.bytes_delivered = 2;
    b.glagol_commands_sent = 10;
    b.spirc_alive = true;
    let mut a = around();
    a.session_id_valid = false;
    let r = handle_request("/metrics", None, &mut b, &config(), &a).0;
    assert_eq!(
        header(&r, "Content-Type"),
        Some(String::from("text/plain; version=0.0.4; charset=utf-8"))
    );
    let expected = "# HELP librespot_bytes_delivered_total Total MP3 bytes sent over /stream.mp3 since process start\n\
# TYPE librespot_bytes_delivered_total counter\n\
librespot_bytes_delivered_total 1234567\n\
# HELP librespot_tracks_played_total Total tracks started since process start\n\
# TYPE librespot_tracks_played_total counter\n\
librespot_tracks_played_total 1\n\
# HELP librespot_glagol_commands_sent_total Total Glagol WSS commands sent to Station\n\
# TYPE librespot_glagol_commands_sent_total counter\n\
librespot_glagol_commands_sent_total 10\n\
# HELP librespot_buffer_chunks Current MP3 buffer chunk count (queued, not yet sent)\n\
# TYPE librespot_buffer_chunks gauge\n\
librespot_buffer_chunks 1\n\
# HELP librespot_bytes_produced_current Bytes encoded by MP3 encoder for current track\n\
# TYPE librespot_bytes_produced_current gauge\n\
librespot_bytes_produced_current 3\n\
# HELP librespot_bytes_delivered_current Bytes delivered to HTTP client for current track\n\
# TYPE librespot_bytes_delivered_current gauge\n\
librespot_bytes_delivered_current 2\n\
# HELP librespot_uptime_seconds Process uptime in seconds\n\
# TYPE librespot_uptime_seconds counter\n\
librespot_uptime_seconds 61\n\
# HELP librespot_streaming Whether bridge is currently streaming a track (1) or idle (0)\n\
# TYPE librespot_streaming gauge\n\
librespot_streaming 1\n\
# HELP librespot_paused Whether playback is paused (1) or playing (0)\n\
# TYPE librespot_paused gauge\n\
librespot_paused 0\n\
# HELP librespot_spirc_alive Whether Spotify Connect (Spirc) session is alive\n\
# TYPE librespot_spirc_alive gauge\n\
librespot_spirc_alive 1\n\
# HELP librespot_glagol_connected Whether Glagol WSS connection to Station is up\n\
# TYPE librespot_glagol_connected gauge\n\
librespot_glagol_connected 1\n\
# HELP librespot_session_id_valid Whether Yandex session_id is valid for Glagol auth\n\
# TYPE librespot_session_id_valid gauge\n\
librespot_session_id_valid 0\n";
    assert_eq!(String::from_utf8(bytes_of(&r)).unwrap(), expected);
}

#[test]
fn stop_halts_and_wakes() {
    let mut b = playing();
    let _ = b.push_mp3(vec![1]);
    b.stream_waker = Some(12);
    let (r, wake) = handle_request("/stop", None, &mut b, &config(), &around());
    assert_eq!(bytes_of(&r), b"{\"ok\":true}".to_vec());
    assert_eq!(header(&r, "Content-Type"), Some(String::from("application/json")));
    assert_eq!(wake, Some(12));
    assert!(!b.streaming);
    assert_eq!(b.mp3_buffer.len(), 0);
}

#[test]
fn station_that_leaves_asks_for_a_pause() {
    let mut b = playing();
    let mut c = Connection::new();
    c.note("/stream.mp3", Some("t=1"));
    let _ = ask(&mut b, "/stream.mp3", Some("t=1"));
    assert_eq!(c.closed(&b, false), Some(BridgeCommand::AutoPause(1)));
    assert_eq!(c.closed(&b, true), None);
}

#[test]
fn station_that_is_sent_away_asks_for_nothing() {
    let mut b = playing();
    let mut c = Connection::new();
    c.note("/stream.mp3", Some("t=1"));
    let _ = ask(&mut b, "/stream.mp3", Some("t=1"));
    let _ = b.reset_stream(0, 0);
    assert_eq!(c.closed(&b, false), None);
    let mut d = Connection::new();
    d.note("/stream.mp3", Some("t=2"));
    assert_eq!(d.closed(&b, false), None);
    let _ = ask(&mut b, "/stream.mp3", Some("t=2"));
    assert_eq!(d.closed(&b, false), Some(BridgeCommand::AutoPause(2)));
    b.paused = true;
    assert_eq!(d.closed(&b, false), None);
}

#[test]
fn connection_without_a_stream_asks_for_nothing() {
    let mut b = playing();
    b.internal_disconnect = false;
    let mut c = Connection::new();
    c.note("/status", Some("t=1"));
    assert_eq!(c.closed(&b, false), None);
}

#[test]
fn reports_change_nothing() {
    let mut b = playing();
    let _ = b.push_mp3(vec![1, 2]);
    b.stream_waker = Some(3);
    for path in ["/status", "/debug", "/health", "/metrics", "/other"] {
        let (_, wake) = handle_request(path, Some("t=1"), &mut b, &config(), &around());
        assert_eq!(wake, None);
    }
    assert!(b.streaming && b.internal_disconnect);
    assert_eq!((b.stream_token, b.bytes_produced, b.mp3_buffer.len()), (1, 2, 1));
    assert_eq!(b.stream_waker, Some(3));
    assert_eq!(b.station_connected_wall, None);
}

#[test]
fn closed_session_is_silent() {
    let mut b = playing();
    let mut c = Connection::new();
    c.note("/stream.mp3", Some("t=1"));
    let _ = ask(&mut b, "/stream.mp3", Some("t=1"));
    let _ = clear_session(&mut b);
    assert_eq!(c.closed(&b, false), None);
    assert_eq!(bytes_of(&ask(&mut b, "/stream.mp3", Some("t=1"))), vec![1, 2, 3]);
}

#[test]
fn resumed_stream_counts_again_once_the_station_connects() {
    let mut b = playing();
    let _ = ask(&mut b, "/stream.mp3", Some("t=1"));
    let _ = b.hold();
    b.resume(500);
    let mut c = Connection::new();
    c.note("/stream.mp3", Some("t=3"));
    assert_eq!(c.closed(&b, false), None);
    let _ = ask(&mut b, "/stream.mp3", Some("t=3"));
    assert_eq!(c.closed(&b, false), Some(BridgeCommand::AutoPause(3)));
}

#[test]
fn client_with_a_stale_token_asks_for_nothing_when_it_leaves() {
    let mut b = playing();
    let _ = ask(&mut b, "/stream.mp3", Some("t=1"));
    assert!(!b.internal_disconnect);
    let mut c = Connection::new();
    c.note("/stream.mp3", Some("t=7"));
    let r = ask(&mut b, "/stream.mp3", Some("t=7"));
    assert_eq!(bytes_of(&r), vec![1, 2, 3]);
    assert_eq!(c.closed(&b, false), None);
    c.note("/status", None);
    assert_eq!(c.closed(&b, false), None);
    c.note("/stream.mp3", Some("t=1"));
    assert_eq!(c.closed(&b, false), Some(BridgeCommand::AutoPause(1)));
}
