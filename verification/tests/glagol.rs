use base64::engine::general_purpose::STANDARD;
use base64::Engine;
use librespot_bridge::glagol::{
    after_ping, begin_send, command_text, epoch_ms, parse_station_state, ping_tick,
    radio_play_payload, read_message, set_volume_payload, station_report, stop_payload,
    uuid_simple, GlagolClient, Incoming, PingStep, SendEvent, SendPhase, TokenStep,
};
use librespot_bridge::protobuf::protobuf_dumps;
use librespot_bridge::state::{BridgeConfig, GlagolState};
use serde_json::Value;

fn client() -> GlagolClient {
    GlagolClient::new(BridgeConfig {
        station_ip: String::from("192.168.1.21"),
        sbc_ip: String::from("192.168.1.19"),
        bridge_port: 8888,
        session_id: String::from("sid"),
        device_id: String::from("dev"),
        platform: String::from("cucumber"),
        socks_proxy: String::new(),
        mp3_bitrate: 192,
    })
}

fn json(text: &str) -> Value {
    serde_json::from_str(text).unwrap()
}

#[test]
fn addresses_name_the_device() {
    let c = client();
    assert_eq!(
        c.token_url(),
        "https://quasar.yandex.ru/glagol/token?device_id=dev&platform=cucumber"
    );
    assert_eq!(c.session_cookie(), "Session_id=sid");
    assert_eq!(c.station_url(), "wss://192.168.1.21:1961");
}

#[test]
fn token_is_used_for_25_seconds() {
    let mut c = client();
    assert_eq!(c.fresh_token(0), None);
    assert_eq!(c.accept_token(&json("{\"token\":\"abc\"}"), 1000), Ok(String::from("abc")));
    assert_eq!(c.fresh_token(1000), Some(String::from("abc")));
    assert_eq!(c.fresh_token(25_999), Some(String::from("abc")));
    assert_eq!(c.fresh_token(26_000), None);
}

#[test]
fn reply_without_a_token_is_an_error() {
    let mut c = client();
    let none = Err(String::from("no token in response"));
    assert_eq!(c.accept_token(&json("{}"), 0), none);
    assert_eq!(c.accept_token(&json("{\"token\":5}"), 0), none);
    assert_eq!(c.accept_token(&json("[1]"), 0), none);
    assert_eq!(c.fresh_token(0), None);
}

#[test]
fn expired_session_is_taken_down() {
    let mut c = client();
    assert_eq!(
        c.check_token_status(401, "401 Unauthorized"),
        Err(String::from("session_id expired (401)"))
    );
    assert!(!c.session_id_valid);
    assert_eq!(
        c.check_token_status(500, "500 Internal Server Error"),
        Err(String::from("token request failed: HTTP 500 Internal Server Error"))
    );
    assert!(!c.session_id_valid);
    assert_eq!(c.check_token_status(200, "200 OK"), Ok(()));
    assert!(c.session_id_valid);
    assert!(c.check_token_status(199, "199").is_err());
    assert_eq!(c.check_token_status(299, "299"), Ok(()));
    assert!(c.check_token_status(300, "300").is_err());
    assert!(c.session_id_valid);
}

#[test]
fn stop_payload_says_stop() {
    assert_eq!(stop_payload(), json("{\"command\":\"stop\"}"));
}

#[test]
fn volume_payload_carries_the_volume() {
    assert_eq!(
        set_volume_payload(Value::from(0.5)),
        json("{\"command\":\"setVolume\",\"volume\":0.5}")
    );
}

#[test]
fn radio_play_payload_wraps_the_description() {
    let p = radio_play_payload("http://h:1/stream.mp3?t=1", "T\"ü", "S");
    assert_eq!(p["command"], Value::from("externalCommandBypass"));
    assert!(p["data"].as_str().unwrap().starts_with("CgpyYWRpb19wbGF5"));
    let data = STANDARD.decode(p["data"].as_str().unwrap()).unwrap();
    let text = "{\"force_restart_player\":true,\"streamUrl\":\"http://h:1/stream.mp3?t=1\",\
\"subtitle\":\"S\",\"title\":\"T\\\"ü\"}";
    assert_eq!(data, protobuf_dumps(&[(1, "radio_play"), (2, text)]));
    assert_eq!(&data[..12], b"\x0a\x0aradio_play");
    assert_eq!(data[12], 0x12);
    assert_eq!(p.as_object().unwrap().len(), 2);
}

#[test]
fn command_text_frames_the_payload() {
    assert_eq!(
        command_text("tok", "0a", 12345, stop_payload()),
        "{\"conversationToken\":\"tok\",\"id\":\"0a\",\"payload\":{\"command\":\"stop\"},\"sentTime\":12345}"
    );
}

#[test]
fn identifiers_have_32_digits() {
    assert_eq!(uuid_simple(0), "00000000000000000000000000000000");
    assert_eq!(uuid_simple(0xabc123), "00000000000000000000000000abc123");
    assert_eq!(uuid_simple(u128::MAX), "ffffffffffffffffffffffffffffffff");
}

#[test]
fn epoch_fits_in_64_bits() {
    assert_eq!(epoch_ms(1_700_000_000_000), 1_700_000_000_000);
    assert_eq!(epoch_ms((1u128 << 64) + 3), 3);
}

#[test]
fn command_goes_over_a_live_connection() {
    let mut c = client();
    let p = begin_send(true);
    assert!(matches!(p, SendPhase::FetchingToken));
    let p = c.advance_send(p, SendEvent::TokenReady);
    assert!(matches!(p, SendPhase::Sending { retry: false }));
    let p = c.advance_send(p, SendEvent::Delivered);
    assert!(matches!(p, SendPhase::Sent));
    assert_eq!(c.commands_sent, 1);
}

#[test]
fn command_is_sent_again_over_a_new_connection() {
    let mut c = client();
    let p = begin_send(false);
    assert!(matches!(p, SendPhase::Connecting { retry: false }));
    let p = c.advance_send(p, SendEvent::Connected);
    let p = c.advance_send(p, SendEvent::TokenReady);
    let p = c.advance_send(p, SendEvent::SendFailed(String::from("x")));
    assert!(matches!(p, SendPhase::Connecting { retry: true }));
    let p = c.advance_send(p, SendEvent::Connected);
    assert!(matches!(p, SendPhase::Sending { retry: true }));
    let p = c.advance_send(p, SendEvent::Delivered);
    assert!(matches!(p, SendPhase::Sent));
    assert_eq!(c.commands_sent, 1);
}

#[test]
fn command_fails_after_one_retry() {
    let mut c = client();
    let p = c.advance_send(SendPhase::Sending { retry: true }, SendEvent::SendFailed(String::from("x")));
    match p {
        SendPhase::Failed(why) => assert_eq!(why, "retry failed: x"),
        _ => panic!("not failed"),
    }
    let p = c.advance_send(begin_send(false), SendEvent::ConnectFailed(String::from("no way")));
    match p {
        SendPhase::Failed(why) => assert_eq!(why, "no way"),
        _ => panic!("not failed"),
    }
    let p = c.advance_send(begin_send(true), SendEvent::TokenFailed(String::from("401")));
    match p {
        SendPhase::Failed(why) => assert_eq!(why, "401"),
        _ => panic!("not failed"),
    }
    assert_eq!(c.commands_sent, 0);
}

const BLUETOOTH: &str = "{\"state\":{\"volume\":0.3,\"playerState\":{\"playerType\":\"bluetooth\",\
\"hasPause\":true,\"progress\":12.5,\"duration\":200}}}";

#[test]
fn bluetooth_is_heard_and_its_end_too() {
    let mut g = GlagolState::new();
    assert!(!parse_station_state(&json(BLUETOOTH), &mut g, 10));
    assert!(g.bt_playing && g.has_pause);
    assert_eq!(g.player_type.as_deref(), Some("bluetooth"));
    assert_eq!(f64::from_bits(g.volume_bits), 0.3);
    assert_eq!(f64::from_bits(g.progress_bits), 12.5);
    assert_eq!(f64::from_bits(g.duration_bits), 200.0);
    assert_eq!((g.last_message, g.progress_updated), (Some(10), Some(10)));
    let radio = json("{\"state\":{\"playerState\":{\"playerType\":\"radio\",\"hasPause\":true}}}");
    assert!(parse_station_state(&radio, &mut g, 20));
    assert!(!g.bt_playing);
    assert_eq!(f64::from_bits(g.volume_bits), 0.0);
    assert!(!parse_station_state(&radio, &mut g, 30));
}

#[test]
fn paused_bluetooth_is_not_playing() {
    let mut g = GlagolState::new();
    let m = json("{\"state\":{\"playerState\":{\"playerType\":\"bluetooth\",\"hasPause\":\"yes\"}}}");
    assert!(!parse_station_state(&m, &mut g, 10));
    assert!(!g.bt_playing && !g.has_pause);
}

#[test]
fn message_without_player_state_says_nothing() {
    let mut g = GlagolState::new();
    assert!(!parse_station_state(&json("{\"state\":{\"volume\":1}}"), &mut g, 10));
    assert_eq!(g.last_message, None);
    assert!(station_report(&json("[]")).is_none());
    let r = station_report(&json("{\"state\":{\"playerState\":5}}")).unwrap();
    assert!(r.player_type.is_none());
}

#[test]
fn incoming_messages_are_told_apart() {
    let mut g = GlagolState::new();
    let r = read_message(Incoming::Text(String::from(BLUETOOTH)), &mut g, 10);
    assert!(!r.bt_stopped && !r.ended && g.bt_playing);
    let r = read_message(Incoming::Text(String::from("{not json")), &mut g, 11);
    assert!(!r.bt_stopped && !r.ended && g.bt_playing);
    let r = read_message(Incoming::Other, &mut g, 12);
    assert!(!r.ended);
    assert!(read_message(Incoming::Close, &mut g, 13).ended);
    assert!(read_message(Incoming::Failed, &mut g, 14).ended);
    let text = String::from("{\"state\":{\"playerState\":{}}}");
    assert!(read_message(Incoming::Text(text), &mut g, 15).bt_stopped);
    assert_eq!(g.last_message, Some(15));
}

#[test]
fn token_is_asked_for_once_it_has_expired() {
    let mut c = client();
    assert!(matches!(c.token_step(0), TokenStep::Request { .. }));
    assert!(c.accept_token(&json("{\"token\":\"abc\"}"), 1000).is_ok());
    match c.token_step(25_999) {
        TokenStep::Use(token) => assert_eq!(token, "abc"),
        _ => panic!("no token"),
    }
    match c.token_step(26_000) {
        TokenStep::Request { url, cookie } => {
            assert_eq!(
                url,
                "https://quasar.yandex.ru/glagol/token?device_id=dev&platform=cucumber"
            );
            assert_eq!(cookie, "Session_id=sid");
        }
        _ => panic!("no request"),
    }
}

#[test]
fn pings_go_on_while_they_get_out() {
    assert_eq!(ping_tick(true), PingStep::Send);
    assert_eq!(ping_tick(false), PingStep::End);
    assert_eq!(after_ping(true), PingStep::Wait);
    assert_eq!(after_ping(false), PingStep::Lost);
}

#[test]
fn token_is_read_from_the_reply() {
    let mut c = client();
    assert_eq!(c.accept_token_reply(" {\"token\": \"xyz\"} ", 0), Ok(String::from("xyz")));
    assert_eq!(c.fresh_token(24_999), Some(String::from("xyz")));
    assert_eq!(
        c.accept_token_reply("{\"tok", 9),
        Err(String::from("token parse failed: error decoding response body"))
    );
    assert_eq!(c.accept_token_reply("[]", 9), Err(String::from("no token in response")));
    assert_eq!(c.fresh_token(25_000), None);
}
