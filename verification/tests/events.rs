use bytes::Bytes;
use librespot_bridge::events::{
    bluetooth_stopped, confirm_pause, execute_command, finish_transition, handle_player_event,
    poll_transition, radio_play, record_commands_sent, track_info_from, AudioItem, CommandAction,
    EventOutcome, PauseVerdict, PlayerEvent, TransitionChange, TransitionPoll, TransitionTask,
    UniqueFields,
};
use librespot_bridge::http::{token_from_query, StreamBody, StreamPoll};
use librespot_bridge::state::{BridgeCommand, BridgeConfig, BridgeShared, TrackInfo};

fn track(name: &str, duration_ms: u32) -> TrackInfo {
    TrackInfo {
        name: String::from(name),
        artist: String::from("by ") + name,
        album: String::new(),
        cover: String::new(),
        uri: String::new(),
        duration_ms,
    }
}

fn config() -> BridgeConfig {
    BridgeConfig {
        station_ip: String::from("10.0.0.1"),
        sbc_ip: String::from("10.0.0.2"),
        bridge_port: 8888,
        session_id: String::new(),
        device_id: String::new(),
        platform: String::new(),
        socks_proxy: String::new(),
        mp3_bitrate: 192,
    }
}

fn idle() -> BridgeShared<u32> {
    BridgeShared::new(Bytes::from(vec![0u8]))
}

fn send(b: &mut BridgeShared<u32>, event: PlayerEvent) -> EventOutcome<u32> {
    handle_player_event(b, event, TransitionTask::Idle, 100)
}

fn playing() -> BridgeShared<u32> {
    let mut b = idle();
    let _ = send(&mut b, PlayerEvent::TrackChanged { track: track("A", 60_000) });
    b
}

fn name(b: &BridgeShared<u32>) -> String {
    b.current_track.as_ref().unwrap().name.clone()
}

fn item(unique_fields: UniqueFields) -> AudioItem {
    AudioItem {
        name: String::from("n"),
        uri: String::from("u"),
        duration_ms: 5,
        covers: vec![String::from("c1"), String::from("c2")],
        unique_fields,
    }
}

#[test]
fn track_has_first_artist_and_cover() {
    let t = track_info_from(&item(UniqueFields::Track {
        artists: vec![String::from("x"), String::from("y")],
        album: String::from("al"),
    }));
    assert_eq!((t.name.as_str(), t.artist.as_str(), t.album.as_str()), ("n", "x", "al"));
    assert_eq!((t.cover.as_str(), t.uri.as_str(), t.duration_ms), ("c1", "u", 5));
}

#[test]
fn track_without_artists_has_none() {
    let mut i = item(UniqueFields::Track { artists: Vec::new(), album: String::from("al") });
    i.covers = Vec::new();
    let t = track_info_from(&i);
    assert_eq!((t.artist.as_str(), t.cover.as_str()), ("", ""));
}

#[test]
fn episode_has_its_show() {
    let t = track_info_from(&item(UniqueFields::Episode { show_name: String::from("s") }));
    assert_eq!((t.artist.as_str(), t.album.as_str()), ("s", ""));
    let o = track_info_from(&item(UniqueFields::Other));
    assert_eq!((o.artist.as_str(), o.album.as_str()), ("", ""));
}

#[test]
fn first_track_plays_at_once() {
    let mut b = idle();
    b.stream_waker = Some(4);
    let o = send(&mut b, PlayerEvent::TrackChanged { track: track("A", 60_000) });
    assert_eq!(o.transition, TransitionChange::Cancel);
    assert_eq!(o.command, Some(BridgeCommand::SendRadioPlay));
    assert_eq!(o.wake, Some(4));
    assert_eq!((name(&b).as_str(), b.stream_token, b.expected_bytes), ("A", 1, 61 * 24000));
}

#[test]
fn next_track_waits_for_the_end() {
    let mut b = playing();
    let o = send(&mut b, PlayerEvent::TrackChanged { track: track("B", 30_000) });
    assert_eq!((o.transition, o.command, o.wake), (TransitionChange::Keep, None, None));
    assert_eq!(b.pending_track.as_ref().unwrap().name, "B");
    assert_eq!(name(&b), "A");
    let o = send(&mut b, PlayerEvent::EndOfTrack);
    assert_eq!((o.transition, o.command), (TransitionChange::Restart, None));
    assert!(b.track_ended);
    assert_eq!(poll_transition(&b, b.expected_bytes, 0), TransitionPoll::Wait);
    b.bytes_delivered = b.expected_bytes - 500;
    assert_eq!(poll_transition(&b, b.expected_bytes, 29_999), TransitionPoll::Wait);
    b.bytes_delivered = b.expected_bytes;
    assert_eq!(poll_transition(&b, b.expected_bytes, 0), TransitionPoll::Delivered);
    b.bytes_delivered = 0;
    b.stream_waker = Some(9);
    let t = finish_transition(&mut b, &config(), 500);
    assert_eq!(t.wake, Some(9));
    let play = t.play.unwrap();
    assert_eq!(play.url, "http://10.0.0.2:8888/stream.mp3?t=2");
    assert_eq!((play.title.as_str(), play.subtitle.as_str()), ("B", "by B"));
    assert_eq!((name(&b).as_str(), b.stream_token, b.expected_bytes), ("B", 2, 31 * 24000));
    assert!(!b.track_ended && b.pending_track.is_none());
}

#[test]
fn next_track_after_the_end_starts_the_wait() {
    let mut b = playing();
    let o = send(&mut b, PlayerEvent::EndOfTrack);
    assert_eq!(o.transition, TransitionChange::Keep);
    let mut c = playing();
    let _ = send(&mut c, PlayerEvent::EndOfTrack);
    let next = PlayerEvent::TrackChanged { track: track("B", 1) };
    assert_eq!(
        handle_player_event(&mut b, next, TransitionTask::Finished, 0).transition,
        TransitionChange::Start
    );
    let next = PlayerEvent::TrackChanged { track: track("B", 1) };
    assert_eq!(
        handle_player_event(&mut c, next, TransitionTask::Running, 0).transition,
        TransitionChange::Keep
    );
    assert_eq!(c.pending_track.unwrap().name, "B");
}

#[test]
fn transition_without_a_next_track() {
    let mut b = playing();
    let _ = send(&mut b, PlayerEvent::EndOfTrack);
    let t = finish_transition(&mut b, &config(), 0);
    assert!(t.play.is_none() && t.wake.is_none());
    assert!(!b.track_ended);
    assert_eq!(b.stream_token, 1);
}

#[test]
fn transition_is_cancelled_or_times_out() {
    let mut b = playing();
    assert_eq!(poll_transition(&b, 100_000, 30_000), TransitionPoll::Wait);
    assert_eq!(poll_transition(&b, 100_000, 30_001), TransitionPoll::TimedOut);
    b.paused = true;
    assert_eq!(poll_transition(&b, 100_000, 0), TransitionPoll::Cancelled);
    b.paused = false;
    b.streaming = false;
    assert_eq!(poll_transition(&b, 100_000, 0), TransitionPoll::Cancelled);
    assert_eq!(poll_transition(&b, 1, 0), TransitionPoll::Cancelled);
    assert_eq!(poll_transition(&b, 0, 0), TransitionPoll::Delivered);
}

#[test]
fn skip_switches_to_the_next_track() {
    let mut b = playing();
    let _ = send(&mut b, PlayerEvent::TrackChanged { track: track("B", 30_000) });
    b.stream_waker = Some(1);
    let o = send(&mut b, PlayerEvent::Paused { position_ms: 7 });
    assert_eq!((o.transition, o.command), (TransitionChange::Cancel, Some(BridgeCommand::Stop)));
    assert_eq!(o.wake, Some(1));
    assert_eq!(b.stream_token, 2);
    let o = send(&mut b, PlayerEvent::Playing { position_ms: 10_000 });
    assert_eq!(o.transition, TransitionChange::Keep);
    assert_eq!(o.command, Some(BridgeCommand::SendRadioPlay));
    assert_eq!((name(&b).as_str(), b.stream_token, b.expected_bytes), ("B", 3, 21 * 24000));
    assert!(b.streaming && !b.paused && b.pending_track.is_none());
}

#[test]
fn pause_and_resume_keep_the_track() {
    let mut b = playing();
    let _ = b.push_mp3(vec![1, 2]);
    let _ = send(&mut b, PlayerEvent::Paused { position_ms: 0 });
    assert!(b.paused && b.internal_disconnect);
    assert_eq!(b.mp3_buffer.len(), 0);
    let o = send(&mut b, PlayerEvent::Playing { position_ms: 20_000 });
    assert_eq!(o.command, Some(BridgeCommand::SendRadioPlay));
    assert_eq!((name(&b).as_str(), b.stream_token, b.expected_bytes), ("A", 3, 41 * 24000));
    assert_eq!((b.bytes_produced, b.bytes_delivered, b.tracks_played), (0, 0, 1));
}

#[test]
fn playing_while_playing_changes_nothing() {
    let mut b = playing();
    let o = send(&mut b, PlayerEvent::Playing { position_ms: 5 });
    assert_eq!((o.transition, o.command, o.wake), (TransitionChange::Keep, None, None));
    assert_eq!(b.stream_token, 1);
}

#[test]
fn seek_restarts_the_stream() {
    let mut b = playing();
    b.track_ended = true;
    let o = send(&mut b, PlayerEvent::Seeked { position_ms: 50_000 });
    assert_eq!(
        (o.transition, o.command),
        (TransitionChange::Cancel, Some(BridgeCommand::SendRadioPlay))
    );
    assert_eq!((b.stream_token, b.expected_bytes, b.track_ended), (2, 11 * 24000, false));
}

#[test]
fn own_seek_is_passed_over() {
    let mut b = playing();
    b.internal_seek = true;
    let o = send(&mut b, PlayerEvent::Seeked { position_ms: 50_000 });
    assert_eq!(o.command, None);
    assert!(!b.internal_seek);
    assert_eq!(b.stream_token, 1);
}

#[test]
fn stop_in_a_skip_keeps_the_next_track() {
    let mut b = playing();
    let _ = send(&mut b, PlayerEvent::TrackChanged { track: track("B", 30_000) });
    let o = send(&mut b, PlayerEvent::Stopped);
    assert_eq!((o.transition, o.command), (TransitionChange::Keep, None));
    assert!(b.paused && b.streaming && b.pending_track.is_some());
}

#[test]
fn stop_ends_playback() {
    let mut b = playing();
    let _ = b.push_mp3(vec![1]);
    b.stream_waker = Some(2);
    let o = send(&mut b, PlayerEvent::Stopped);
    assert_eq!((o.transition, o.command, o.wake), (TransitionChange::Cancel, None, Some(2)));
    assert!(!b.streaming && !b.paused && b.current_track.is_none());
    assert_eq!(b.mp3_buffer.len(), 0);
}

#[test]
fn volume_is_passed_on() {
    let mut b = playing();
    let o = send(&mut b, PlayerEvent::VolumeChanged { volume: 32768 });
    assert_eq!(o.command, Some(BridgeCommand::SetVolume(32768)));
    assert_eq!(send(&mut b, PlayerEvent::Unavailable).command, None);
    assert_eq!(send(&mut b, PlayerEvent::Other).command, None);
    assert_eq!(b.stream_token, 1);
}

#[test]
fn announced_token_reads_back() {
    for token in [0u64, 9, 10, 1234567890, u64::MAX] {
        let mut b = idle();
        b.stream_token = token;
        let url = radio_play(&b, &config()).url;
        let query = url.split('?').nth(1).unwrap();
        assert_eq!(token_from_query(Some(query)), token);
    }
}

#[test]
fn play_without_a_track_has_no_title() {
    let play = radio_play(&idle(), &config());
    assert_eq!(play.url, "http://10.0.0.2:8888/stream.mp3?t=0");
    assert_eq!((play.title.as_str(), play.subtitle.as_str()), ("", ""));
}

#[test]
fn play_waits_for_bluetooth_and_goes_once() {
    let mut b = playing();
    let play = BridgeCommand::SendRadioPlay;
    assert!(matches!(execute_command(&mut b, play, true, &config()), CommandAction::Defer));
    assert!(b.bt_deferred);
    assert!(bluetooth_stopped(&mut b));
    assert!(!bluetooth_stopped(&mut b));
    match execute_command(&mut b, play, false, &config()) {
        CommandAction::Play(p) => assert_eq!(p.title, "A"),
        _ => panic!("no play"),
    }
}

#[test]
fn commands_become_actions() {
    let mut b = playing();
    b.stream_waker = Some(3);
    let c = config();
    assert!(matches!(
        execute_command(&mut b, BridgeCommand::Stop, false, &c),
        CommandAction::StopStation(None)
    ));
    assert!(matches!(
        execute_command(&mut b, BridgeCommand::SetVolume(5), false, &c),
        CommandAction::SetVolume(5)
    ));
    assert!(matches!(
        execute_command(&mut b, BridgeCommand::AutoPause(6), false, &c),
        CommandAction::ConfirmPause(6)
    ));
    assert!(b.streaming);
    assert!(matches!(
        execute_command(&mut b, BridgeCommand::ForceStop, false, &c),
        CommandAction::StopStation(Some(3))
    ));
    assert!(!b.streaming);
}

#[test]
fn pause_is_confirmed_only_for_the_current_stream() {
    let mut b = playing();
    assert_eq!(confirm_pause(&b, 1, false), PauseVerdict::Cancelled);
    b.internal_disconnect = false;
    assert_eq!(confirm_pause(&b, 1, false), PauseVerdict::Pause);
    assert_eq!(confirm_pause(&b, 1, true), PauseVerdict::Bluetooth);
    assert_eq!(confirm_pause(&b, 2, false), PauseVerdict::Cancelled);
    b.paused = true;
    assert_eq!(confirm_pause(&b, 1, false), PauseVerdict::Cancelled);
}

#[test]
fn token_grows_with_each_cut() {
    let mut b = playing();
    let mut body = StreamBody::new(1, b.expected_bytes);
    let _ = send(&mut b, PlayerEvent::EndOfTrack);
    assert_eq!(b.stream_token, 1);
    let _ = send(&mut b, PlayerEvent::Paused { position_ms: 0 });
    assert_eq!(b.stream_token, 2);
    assert!(matches!(body.poll_frame(&mut b, 0), StreamPoll::End));
}

#[test]
fn sent_commands_are_taken_down() {
    let mut b = idle();
    record_commands_sent(&mut b, 17);
    assert_eq!(b.glagol_commands_sent, 17);
}

#[test]
fn every_play_has_a_new_address() {
    let mut b = idle();
    let mut urls: Vec<String> = vec![radio_play(&b, &config()).url];
    let events = vec![
        PlayerEvent::TrackChanged { track: track("A", 60_000) },
        PlayerEvent::Playing { position_ms: 0 },
        PlayerEvent::Seeked { position_ms: 5 },
        PlayerEvent::Paused { position_ms: 5 },
        PlayerEvent::Playing { position_ms: 5 },
        PlayerEvent::Stopped,
        PlayerEvent::TrackChanged { track: track("B", 60_000) },
    ];
    for event in events {
        if send(&mut b, event).command == Some(BridgeCommand::SendRadioPlay) {
            let url = radio_play(&b, &config()).url;
            assert!(!urls.contains(&url));
            urls.push(url);
        }
    }
    assert_eq!(urls.len(), 5);
}
