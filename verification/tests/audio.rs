use bytes::Bytes;
use librespot_bridge::encoder::{
    generate_silence, mp3_bitrate, silent_samples, EncoderError, Mp3Bitrate, Mp3Encoder,
};
use librespot_bridge::sink::BridgeSink;
use librespot_bridge::state::{BridgeShared, TrackInfo, CHANNELS, MP3_BITRATE, SAMPLE_RATE};

fn playing() -> BridgeShared<u32> {
    let mut b = BridgeShared::new(Bytes::from(vec![0u8]));
    let t = TrackInfo {
        name: String::new(),
        artist: String::new(),
        album: String::new(),
        cover: String::new(),
        uri: String::new(),
        duration_ms: 1000,
    };
    let _ = b.start_new_track(t, 0, 0);
    b
}

#[test]
fn silence_is_an_mp3_of_its_length() {
    let silence = generate_silence(1500, SAMPLE_RATE, CHANNELS, 192).unwrap();
    assert_eq!(silence[0], 0xff);
    assert_eq!(silence[1] & 0xe0, 0xe0);
    // 1.5 seconds at 24000 bytes each, give or take a few frames of delay and padding.
    assert!(silence.len() > 33_000 && silence.len() < 42_000);
}

#[test]
fn bit_rate_shows_in_the_size() {
    let low = generate_silence(1000, SAMPLE_RATE, CHANNELS, 128).unwrap();
    let high = generate_silence(1000, SAMPLE_RATE, CHANNELS, 320).unwrap();
    assert!(high.len() > low.len() * 2);
}

#[test]
fn encoder_needs_a_rate_and_one_or_two_channels() {
    assert_eq!(Mp3Encoder::new(0, 2, 192).err(), Some(EncoderError::SampleRate));
    assert_eq!(Mp3Encoder::new(44100, 3, 192).err(), Some(EncoderError::Channels));
    assert_eq!(Mp3Encoder::new(44100, 0, 192).err(), Some(EncoderError::Channels));
    assert!(Mp3Encoder::new(44100, 258, 192).is_ok());
    assert_eq!(EncoderError::SampleRate.message(), "set sample rate");
    assert_eq!(EncoderError::Channels.message(), "set channels");
    assert_eq!(EncoderError::Quality.message(), "set quality");
    assert_eq!(EncoderError::Bitrate.message(), "set bitrate");
    assert_eq!(EncoderError::NoBuilder.message(), "failed to create LAME builder");
    assert_eq!(EncoderError::Build.message(), "failed to build LAME encoder");
}

#[test]
fn bit_rates_not_offered_become_192() {
    assert_eq!(mp3_bitrate(128), Mp3Bitrate::Kbps128);
    assert_eq!(mp3_bitrate(160), Mp3Bitrate::Kbps160);
    assert_eq!(mp3_bitrate(192), Mp3Bitrate::Kbps192);
    assert_eq!(mp3_bitrate(256), Mp3Bitrate::Kbps256);
    assert_eq!(mp3_bitrate(320), Mp3Bitrate::Kbps320);
    assert_eq!(mp3_bitrate(64), Mp3Bitrate::Kbps192);
}

#[test]
fn silence_takes_its_samples() {
    assert_eq!(silent_samples(1500, 44100, 2), vec![0i16; 132_300]);
    assert_eq!(silent_samples(1, 44100, 2).len(), 88);
}

#[test]
fn encoding_and_flushing_give_frames() {
    let mut e = Mp3Encoder::new(SAMPLE_RATE, CHANNELS, MP3_BITRATE).unwrap();
    let tone: Vec<i16> = (0..88_200).map(|i| ((i * 37) % 20_000) as i16).collect();
    let data = e.encode(&tone);
    assert!(data.len() > 20_000);
    assert!(!e.flush().is_empty());
}

#[test]
fn sink_feeds_the_queue() {
    let mut b = playing();
    let mut sink = BridgeSink::new(1000).unwrap();
    assert_eq!(sink.begin_write(&b, Some(44_100), 1000), Some(0));
    assert_eq!(sink.samples_written, 22_050);
    let data = sink.finish_write(&vec![0i16; 44_100]);
    let _ = b.push_mp3(data);
    let _ = b.push_mp3(sink.stop());
    assert!(b.bytes_produced > 10_000);
}

#[test]
fn samples_are_dropped_while_nothing_streams() {
    let b: BridgeShared<u32> = BridgeShared::new(Bytes::from(vec![0u8]));
    let mut sink = BridgeSink::new(0).unwrap();
    assert_eq!(sink.begin_write(&b, Some(1000), 0), None);
    assert_eq!(sink.begin_write(&playing(), None, 0), None);
    assert_eq!(sink.samples_written, 0);
}

#[test]
fn player_is_held_up_beyond_the_pre_buffer() {
    let b = playing();
    let mut sink = BridgeSink::new(0).unwrap();
    // 500 ms of samples are within the pre-buffer, 501 ms are not.
    assert_eq!(sink.begin_write(&b, Some(44_100), 0), Some(0));
    assert_eq!(sink.begin_write(&b, Some(90), 0), Some(200));
    assert_eq!(sink.begin_write(&b, Some(0), 1), Some(0));
    assert_eq!(sink.begin_write(&b, Some(88_200), 700), Some(200));
}

#[test]
fn start_counts_from_zero() {
    let b = playing();
    let mut sink = BridgeSink::new(0).unwrap();
    let _ = sink.begin_write(&b, Some(1000), 0);
    assert_eq!(sink.start(5000), Ok(()));
    assert_eq!((sink.start_ms, sink.samples_written), (5000, 0));
}

#[test]
fn bit_rate_not_offered_gives_the_same_silence_as_192() {
    let other = generate_silence(200, SAMPLE_RATE, CHANNELS, 77).unwrap();
    assert_eq!(other, generate_silence(200, SAMPLE_RATE, CHANNELS, 192).unwrap());
    assert_eq!(generate_silence(200, 0, 2, 192), Err(EncoderError::SampleRate));
    assert_eq!(generate_silence(200, 44100, 3, 192), Err(EncoderError::Channels));
}

#[test]
fn loud_packets_all_come_out() {
    let mut e = Mp3Encoder::new(SAMPLE_RATE, CHANNELS, 320).unwrap();
    let loud: Vec<i16> = (0..2304).map(|i| if i * 7919 % 13 < 6 { 32_000 } else { -32_000 }).collect();
    let mut total = 0;
    for _ in 0..100 {
        total += e.encode(&loud).len();
    }
    total += e.flush().len();
    // 100 packets of 1152 stereo samples at 320 kbit/s.
    assert!(total > 90_000);
}

#[test]
fn lowest_rate_is_encoded() {
    assert!(!generate_silence(1000, 8000, 2, 192).unwrap().is_empty());
}

#[test]
fn encoder_is_set_up_from_a_builder() {
    assert_eq!(Mp3Encoder::set_up(None, 44100, 2, 192).err(), Some(EncoderError::NoBuilder));
    let builder = || mp3lame_encoder::Builder::new();
    assert_eq!(Mp3Encoder::set_up(builder(), 0, 3, 192).err(), Some(EncoderError::SampleRate));
    assert_eq!(Mp3Encoder::set_up(builder(), 1, 3, 192).err(), Some(EncoderError::Channels));
    for rate in [1, 4000, 7999, 8000, 44100, 48000, 96000, u32::MAX] {
        for channels in [1, 2] {
            assert!(Mp3Encoder::set_up(builder(), rate, channels, 320).is_ok());
        }
    }
}

#[test]
fn silence_is_what_an_encoder_gives_for_zeros_and_a_flush() {
    let mut one = Mp3Encoder::new(SAMPLE_RATE, CHANNELS, 192).unwrap();
    let mut other = Mp3Encoder::new(SAMPLE_RATE, CHANNELS, 192).unwrap();
    let silence = one.encode_silence(300, SAMPLE_RATE, CHANNELS);
    let mut expected = other.encode(&vec![0i16; 26_460]);
    expected.extend(other.flush());
    assert_eq!(silence, expected);
    assert_eq!(silence, generate_silence(300, SAMPLE_RATE, CHANNELS, 192).unwrap());
}

#[test]
fn low_rates_are_encoded() {
    let second = generate_silence(1000, 4000, 2, 192).unwrap();
    assert!(second.len() > 6_000 && second.len() <= 8_000 + 7_200);
    assert!(!generate_silence(10_000, 4000, 2, 192).unwrap().is_empty());
    let mut slow = Mp3Encoder::new(100, 2, 192).unwrap();
    let mut total = 0;
    for _ in 0..20 {
        total += slow.encode(&[20_000i16; 200]).len();
    }
    // 20 seconds at 64 kbit/s, less what the encoder still holds.
    assert!(total > 140_000 && total <= 160_000 + 7_200);
}

#[test]
fn sink_takes_the_encoder_it_is_given() {
    let none: Result<Mp3Encoder, EncoderError> = Err(EncoderError::NoBuilder);
    assert_eq!(BridgeSink::with_encoder(none, 5).err(), Some(EncoderError::NoBuilder));
    let mut sink = BridgeSink::new(7).unwrap();
    sink.samples_written = 9;
    assert_eq!(sink.restart(none_sink()), Err(EncoderError::NoBuilder));
    assert_eq!((sink.start_ms, sink.samples_written), (7, 9));
    assert_eq!(sink.restart(BridgeSink::new(8)), Ok(()));
    assert_eq!((sink.start_ms, sink.samples_written), (8, 0));
}

fn none_sink() -> Result<BridgeSink, EncoderError> {
    Err(EncoderError::NoBuilder)
}
