use bytes::Bytes;
use librespot_bridge::http::{ResponseBody, StreamBody, StreamPoll};
use librespot_bridge::state::{BridgeShared, TrackInfo};

fn track() -> TrackInfo {
    TrackInfo {
        name: String::from("name"),
        artist: String::from("artist"),
        album: String::new(),
        cover: String::new(),
        uri: String::new(),
        duration_ms: 1000,
    }
}

fn playing() -> BridgeShared<u32> {
    let mut b = BridgeShared::new(Bytes::from(vec![0u8]));
    let _ = b.start_new_track(track(), 0, 0);
    b
}

fn frame(poll: StreamPoll) -> Option<Vec<u8>> {
    match poll {
        StreamPoll::Frame(data) => Some(data.to_vec()),
        _ => None,
    }
}

#[test]
fn data_comes_out_in_order() {
    let mut b = playing();
    let mut body = StreamBody::new(1, b.expected_bytes);
    let _ = b.push_mp3(vec![1, 2]);
    let _ = b.push_mp3(vec![3]);
    assert_eq!(frame(body.poll_frame(&mut b, 0)), Some(vec![1, 2]));
    let _ = b.push_mp3(vec![4, 5, 6]);
    assert_eq!(frame(body.poll_frame(&mut b, 0)), Some(vec![3]));
    assert_eq!(frame(body.poll_frame(&mut b, 0)), Some(vec![4, 5, 6]));
    assert_eq!(body.bytes_delivered, 6);
    assert_eq!(b.bytes_delivered, 6);
    assert_eq!(b.total_bytes_served, 6);
    assert_eq!(b.bytes_produced, 6);
}

#[test]
fn empty_queue_keeps_the_waker() {
    let mut b = playing();
    let mut body = StreamBody::new(1, b.expected_bytes);
    assert!(matches!(body.poll_frame(&mut b, 42), StreamPoll::Pending));
    assert_eq!(b.stream_waker, Some(42));
    assert_eq!(b.push_mp3(vec![1]), Some(42));
}

#[test]
fn old_client_ends_after_a_cut() {
    let mut b = playing();
    let mut body = StreamBody::new(1, b.expected_bytes);
    let _ = b.reset_stream(0, 0);
    let _ = b.push_mp3(vec![1]);
    assert!(matches!(body.poll_frame(&mut b, 0), StreamPoll::End));
    assert!(body.done);
    assert_eq!(b.mp3_buffer.len(), 1);
    assert!(matches!(body.poll_frame(&mut b, 0), StreamPoll::End));
}

#[test]
fn client_ends_when_it_has_what_it_was_promised() {
    let mut b = playing();
    let mut body = StreamBody::new(1, 3);
    let _ = b.push_mp3(vec![1, 2]);
    let _ = b.push_mp3(vec![3, 4]);
    let _ = b.push_mp3(vec![5]);
    assert_eq!(frame(body.poll_frame(&mut b, 0)), Some(vec![1, 2]));
    assert!(!body.done);
    assert_eq!(frame(body.poll_frame(&mut b, 0)), Some(vec![3, 4]));
    assert!(body.done);
    assert!(matches!(body.poll_frame(&mut b, 0), StreamPoll::End));
    assert_eq!(b.mp3_buffer.len(), 1);
}

#[test]
fn client_that_was_promised_nothing_ends() {
    let mut b = playing();
    let mut body = StreamBody::new(1, 0);
    assert!(matches!(body.poll_frame(&mut b, 3), StreamPoll::End));
    assert!(body.done);
    assert_eq!(b.stream_waker, None);
}

#[test]
fn two_clients_share_the_queue() {
    let mut b = playing();
    let mut one = StreamBody::new(1, 1000);
    let mut two = StreamBody::new(1, 1000);
    let _ = b.push_mp3(vec![1]);
    let _ = b.push_mp3(vec![2]);
    assert_eq!(frame(one.poll_frame(&mut b, 0)), Some(vec![1]));
    assert_eq!(frame(two.poll_frame(&mut b, 0)), Some(vec![2]));
    assert_eq!(b.bytes_delivered, 2);
}

#[test]
fn static_body_is_handed_out_once() {
    let mut b = playing();
    let mut body = ResponseBody::Static(Some(Bytes::from(vec![7u8, 8])));
    assert_eq!(frame(body.poll_frame(&mut b, 0)), Some(vec![7, 8]));
    assert!(matches!(body.poll_frame(&mut b, 0), StreamPoll::End));
    assert_eq!(b.total_bytes_served, 0);
}

#[test]
fn streamed_body_follows_the_queue() {
    let mut b = playing();
    let mut body = ResponseBody::Stream(StreamBody::new(1, 10));
    assert!(matches!(body.poll_frame(&mut b, 1), StreamPoll::Pending));
    let _ = b.push_mp3(vec![1]);
    assert_eq!(frame(body.poll_frame(&mut b, 1)), Some(vec![1]));
}

#[test]
fn what_is_produced_is_delivered_or_queued() {
    let mut b = playing();
    let mut body = StreamBody::new(1, 100);
    for n in 0..5usize {
        let _ = b.push_mp3(vec![1u8; n]);
        let _ = body.poll_frame(&mut b, 0);
        let _ = b.push_mp3(vec![2u8; n + 1]);
        let queued: usize = b.mp3_buffer.iter().map(|c| c.len()).sum();
        assert_eq!(b.bytes_produced, b.bytes_delivered + queued);
        assert!(b.mp3_buffer.iter().all(|c| !c.is_empty()));
    }
}

#[test]
fn turned_away_client_stays_away() {
    let mut b = playing();
    let mut body = StreamBody::new(2, 100);
    let mut ahead = playing();
    ahead.stream_token = 3;
    assert!(matches!(body.poll_frame(&mut ahead, 0), StreamPoll::End));
    let _ = b.reset_stream(0, 0);
    let _ = b.push_mp3(vec![1]);
    assert_eq!(b.stream_token, 2);
    assert!(matches!(body.poll_frame(&mut b, 5), StreamPoll::End));
    assert_eq!((b.mp3_buffer.len(), b.stream_waker), (1, None));
}

#[test]
fn all_frames_but_the_last_are_less_than_promised() {
    let mut b = playing();
    let mut body = StreamBody::new(1, 10);
    let mut sizes: Vec<usize> = Vec::new();
    for _ in 0..9 {
        let _ = b.push_mp3(vec![0u8; 3]);
        if let Some(data) = frame(body.poll_frame(&mut b, 0)) {
            sizes.push(data.len());
        }
    }
    assert_eq!(sizes, vec![3, 3, 3, 3]);
}

#[test]
fn client_ahead_of_the_stream_gets_nothing() {
    let mut b = playing();
    b.total_bytes_served = u64::MAX;
    let _ = b.push_mp3(vec![1]);
    let mut body = StreamBody::new(9, 100);
    body.bytes_delivered = 50;
    assert!(matches!(body.poll_frame(&mut b, 5), StreamPoll::End));
    assert_eq!((b.mp3_buffer.len(), b.stream_waker, b.total_bytes_served), (1, None, u64::MAX));
}
