use bytes::Bytes;
use librespot_bridge::state::{
    elapsed_ms, BridgeShared, GlagolState, TrackInfo, MP3_BITRATE, MP3_BYTES_PER_SEC,
};

fn track(name: &str, duration_ms: u32) -> TrackInfo {
    TrackInfo {
        name: String::from(name),
        artist: String::from("artist"),
        album: String::from("album"),
        cover: String::from("cover"),
        uri: String::from("uri"),
        duration_ms,
    }
}

fn bridge() -> BridgeShared<u32> {
    BridgeShared::new(Bytes::from(vec![9u8, 9]))
}

#[test]
fn byte_rate_is_that_of_the_bit_rate() {
    assert_eq!(MP3_BYTES_PER_SEC, MP3_BITRATE as usize * 1000 / 8);
    assert_eq!(MP3_BYTES_PER_SEC, 24000);
}

#[test]
fn content_length_rounds_up_and_pads() {
    assert_eq!(BridgeShared::<u32>::calc_expected_bytes(180_000, 0), 181 * 24000);
    assert_eq!(BridgeShared::<u32>::calc_expected_bytes(180_001, 0), 182 * 24000);
    assert_eq!(BridgeShared::<u32>::calc_expected_bytes(180_000, 1), 181 * 24000);
    assert_eq!(BridgeShared::<u32>::calc_expected_bytes(180_000, 60_000), 121 * 24000);
}

#[test]
fn content_length_past_the_end_is_one_second() {
    assert_eq!(BridgeShared::<u32>::calc_expected_bytes(1000, 1000), 24000);
    assert_eq!(BridgeShared::<u32>::calc_expected_bytes(1000, 5000), 24000);
    assert_eq!(BridgeShared::<u32>::calc_expected_bytes(0, 0), 24000);
}

#[test]
fn longest_track_has_a_content_length() {
    assert_eq!(BridgeShared::<u32>::calc_expected_bytes(u32::MAX, 0), 4_294_969 * 24000);
}

#[test]
fn new_bridge_plays_nothing() {
    let b = bridge();
    assert!(!b.streaming && !b.paused && !b.spirc_alive && !b.internal_disconnect);
    assert_eq!(b.stream_token, 0);
    assert!(b.current_track.is_none() && b.pending_track.is_none());
    assert_eq!(b.silence.to_vec(), vec![9u8, 9]);
}

#[test]
fn push_queues_counts_and_wakes() {
    let mut b = bridge();
    b.stream_waker = Some(5);
    assert_eq!(b.push_mp3(vec![1, 2, 3]), Some(5));
    assert_eq!(b.push_mp3(vec![4]), None);
    assert_eq!(b.bytes_produced, 4);
    let queued: Vec<Vec<u8>> = b.mp3_buffer.iter().map(|c| c.to_vec()).collect();
    assert_eq!(queued, vec![vec![1u8, 2, 3], vec![4u8]]);
}

#[test]
fn push_of_nothing_changes_nothing() {
    let mut b = bridge();
    b.stream_waker = Some(5);
    assert_eq!(b.push_mp3(Vec::new()), None);
    assert_eq!(b.stream_waker, Some(5));
    assert_eq!(b.bytes_produced, 0);
    assert_eq!(b.mp3_buffer.len(), 0);
}

#[test]
fn new_track_starts_a_new_stream() {
    let mut b = bridge();
    b.stream_waker = Some(5);
    b.paused = true;
    b.track_ended = true;
    b.station_connected_wall = Some(3);
    let _ = b.push_mp3(vec![1]);
    b.stream_waker = Some(6);
    assert_eq!(b.start_new_track(track("a", 2500), 1000, 77), Some(6));
    assert_eq!(b.stream_token, 1);
    assert_eq!(b.expected_bytes, 3 * 24000);
    assert_eq!(b.mp3_buffer.len(), 0);
    assert_eq!((b.bytes_produced, b.bytes_delivered), (0, 0));
    assert!(b.streaming && !b.paused && !b.track_ended && b.internal_disconnect);
    assert_eq!(b.tracks_played, 1);
    assert_eq!(b.track_start_wall, Some(77));
    assert_eq!(b.station_connected_wall, None);
    assert_eq!(b.current_track.unwrap().name, "a");
}

#[test]
fn reset_keeps_the_track() {
    let mut b = bridge();
    let _ = b.start_new_track(track("a", 10_000), 0, 0);
    let _ = b.push_mp3(vec![1]);
    assert_eq!(b.reset_stream(4_000, 50), None);
    assert_eq!(b.stream_token, 2);
    assert_eq!(b.expected_bytes, 7 * 24000);
    assert_eq!(b.tracks_played, 1);
    assert_eq!(b.track_start_wall, Some(50));
    assert_eq!(b.current_track.unwrap().name, "a");
}

#[test]
fn reset_without_a_track_keeps_the_length() {
    let mut b = bridge();
    b.expected_bytes = 11;
    let _ = b.reset_stream(4_000, 50);
    assert_eq!(b.expected_bytes, 11);
    assert_eq!(b.stream_token, 1);
}

#[test]
fn forced_stop_clears_the_queue() {
    let mut b = bridge();
    let _ = b.start_new_track(track("a", 10_000), 0, 0);
    let _ = b.push_mp3(vec![1]);
    b.stream_waker = Some(8);
    assert_eq!(b.force_stop(), Some(8));
    assert!(!b.streaming && !b.paused);
    assert_eq!(b.mp3_buffer.len(), 0);
    assert_eq!(b.stream_token, 1);
    assert!(b.current_track.is_some());
}

#[test]
fn elapsed_never_runs_backwards() {
    assert_eq!(elapsed_ms(10, 25), 15);
    assert_eq!(elapsed_ms(25, 10), 0);
}

#[test]
fn station_unheard_of() {
    let g = GlagolState::new();
    assert!(g.player_type.is_none() && !g.bt_playing && !g.has_pause);
    assert_eq!(f64::from_bits(g.volume_bits), 0.0);
    assert!(g.last_message.is_none() && g.progress_updated.is_none());
}
