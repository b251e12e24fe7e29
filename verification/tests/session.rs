use bytes::Bytes;
use librespot_bridge::session::{
    clear_session, load_credentials, pick_credentials, player_bitrate, set_spirc_alive,
    CredentialSource, PlayerBitrate, Probe, Reconnect, Supervisor,
};
use librespot_bridge::state::{BridgeShared, TrackInfo};
use librespot_core::authentication::Credentials;

fn some(text: &str) -> Option<String> {
    Some(String::from(text))
}

#[test]
fn earlier_credentials_come_first() {
    let r = load_credentials(Some(5), some("tok"), some("u"), some("p"));
    assert!(matches!(r, CredentialSource::Cached(5)));
}

#[test]
fn token_comes_before_the_password() {
    match load_credentials::<u8>(None, some("tok"), some("u"), some("p")) {
        CredentialSource::AccessToken(t) => assert_eq!(t, "tok"),
        _ => panic!("no token"),
    }
    match load_credentials::<u8>(None, None, some("u"), some("p")) {
        CredentialSource::Password { username, password } => {
            assert_eq!((username.as_str(), password.as_str()), ("u", "p"))
        }
        _ => panic!("no password"),
    }
}

#[test]
fn half_a_login_is_none() {
    assert!(matches!(load_credentials::<u8>(None, None, some("u"), None), CredentialSource::Missing));
    assert!(matches!(load_credentials::<u8>(None, None, None, some("p")), CredentialSource::Missing));
    assert!(matches!(load_credentials::<u8>(None, None, None, None), CredentialSource::Missing));
}

#[test]
fn bit_rates_not_offered_become_160() {
    assert_eq!(player_bitrate(96), PlayerBitrate::Bitrate96);
    assert_eq!(player_bitrate(160), PlayerBitrate::Bitrate160);
    assert_eq!(player_bitrate(320), PlayerBitrate::Bitrate320);
    assert_eq!(player_bitrate(128), PlayerBitrate::Bitrate160);
}

#[test]
fn waits_double_up_to_a_minute() {
    let mut r = Reconnect::new();
    let waits: Vec<u64> = (0..8).map(|_| r.open_failed()).collect();
    assert_eq!(waits, vec![2, 4, 8, 16, 32, 60, 60, 60]);
    assert_eq!(r.count, 0);
}

#[test]
fn healthy_session_starts_the_waits_anew() {
    let mut r = Reconnect::new();
    assert_eq!(r.session_ended(1), 2);
    assert_eq!(r.session_ended(30_000_000_000), 4);
    assert_eq!(r.session_ended(30_000_000_001), 2);
    assert_eq!(r.session_ended(0), 4);
    assert_eq!(r.count, 4);
}

#[test]
fn three_failures_in_a_row_are_death() {
    let mut s = Supervisor::new();
    assert!(!s.observe(Probe::Unanswered));
    assert!(!s.observe(Probe::Unanswered));
    assert!(!s.observe(Probe::Answered));
    assert!(!s.observe(Probe::Unanswered));
    assert!(!s.observe(Probe::Unanswered));
    assert!(s.observe(Probe::Unanswered));
}

#[test]
fn invalid_session_is_dead_at_once() {
    assert!(Supervisor::new().observe(Probe::Invalid));
}

#[test]
fn closed_session_leaves_nothing_behind() {
    let mut b: BridgeShared<u32> = BridgeShared::new(Bytes::from(vec![0u8]));
    let t = TrackInfo {
        name: String::from("a"),
        artist: String::new(),
        album: String::new(),
        cover: String::new(),
        uri: String::new(),
        duration_ms: 1000,
    };
    set_spirc_alive(&mut b, true);
    assert!(b.spirc_alive);
    let _ = b.start_new_track(t.clone(), 0, 0);
    b.pending_track = Some(t);
    b.track_ended = true;
    let _ = b.push_mp3(vec![1]);
    b.stream_waker = Some(1);
    set_spirc_alive(&mut b, false);
    assert_eq!(clear_session(&mut b), Some(1));
    assert!(!b.streaming && !b.paused && !b.track_ended && !b.spirc_alive);
    assert!(b.current_track.is_none() && b.pending_track.is_none());
    assert_eq!(b.mp3_buffer.len(), 0);
    assert_eq!(b.stream_token, 1);
}

const FILE: &str = "{\"username\":\"me\",\"auth_type\":1,\"auth_data\":\"YWJj\"}";

#[test]
fn credentials_file_is_read() {
    let c = pick_credentials(Some(FILE), some("tok"), some("u"), some("p")).unwrap();
    assert_eq!(c.username.as_deref(), Some("me"));
    assert_eq!(c.auth_data, b"abc".to_vec());
    assert_ne!(c.auth_type, Credentials::with_password("u", "p").auth_type);
    assert_ne!(c.auth_type, Credentials::with_access_token("tok").auth_type);
}

#[test]
fn broken_credentials_file_is_passed_over() {
    for file in [None, Some(""), Some("{}"), Some("{\"auth_type\":99,\"auth_data\":\"\"}")] {
        let c = pick_credentials(file, some("tök"), some("u"), some("p")).unwrap();
        assert_eq!(c, Credentials::with_access_token("tök"));
        assert_eq!(c.username, None);
        assert_eq!(c.auth_data, "tök".as_bytes().to_vec());
    }
}

#[test]
fn name_and_password_are_the_last_resort() {
    let c = pick_credentials(None, None, some("u"), some("p")).unwrap();
    assert_eq!(c, Credentials::with_password("u", "p"));
    assert_eq!(c.username.as_deref(), Some("u"));
    assert_eq!(c.auth_data, b"p".to_vec());
    assert!(pick_credentials(None, None, some("u"), None).is_none());
    assert!(pick_credentials(Some("["), None, None, None).is_none());
}
