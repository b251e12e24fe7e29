//! Where the player's samples go: into the encoder, at the pace at which they are heard.
use vstd::prelude::*;

use crate::encoder::{EncoderError, Mp3Encoder};
use crate::state::{elapsed_ms, BridgeShared, BridgeView, CHANNELS, MP3_BITRATE, SAMPLE_RATE};

verus! {

/// How far the samples may be ahead of the clock before the player is held up, in
/// milliseconds.
pub const PRE_BUFFER_MS: u64 = 500;

/// How far ahead the samples are to stay when the player is held up, in milliseconds.
pub const KEEP_AHEAD_MS: u64 = 200;

/// How long the player is held up at most, in milliseconds.
pub const LONGEST_NAP_MS: u64 = 200;

/// The sink of the player's samples.
pub struct BridgeSink {
    pub encoder: Mp3Encoder,
    /// When the samples began to come in.
    pub start_ms: u64,
    /// How many came in since, per channel.
    pub samples_written: u64,
}

/// The play time of that many samples, in whole milliseconds.
pub open spec fn play_time(samples: int) -> int {
    samples * 1000 / (SAMPLE_RATE as int)
}

/// How long the player is held up whose samples have `audio_ms` of play time after
/// `wall_ms`.
pub open spec fn nap(audio_ms: int, wall_ms: int) -> int {
    if audio_ms > wall_ms + PRE_BUFFER_MS {
        if audio_ms - wall_ms - KEEP_AHEAD_MS < LONGEST_NAP_MS {
            audio_ms - wall_ms - KEEP_AHEAD_MS
        } else {
            LONGEST_NAP_MS as int
        }
    } else {
        0
    }
}

/// Whether a packet is taken that holds this many samples, if it holds any.
pub open spec fn takes_samples<W>(shared: BridgeView<W>, samples: Option<usize>) -> bool {
    shared.streaming && samples is Some
}

/// How many samples, per channel, have come in to `sink` after such a packet.
pub open spec fn written_after<W>(
    sink: BridgeSink,
    shared: BridgeView<W>,
    samples: Option<usize>,
) -> int {
    match samples {
        Some(count) if shared.streaming => sink.samples_written + count / 2,
        _ => sink.samples_written as int,
    }
}

/// Whether `encoder` is fit for the stream.
pub open spec fn stream_encoder(encoder: Mp3Encoder) -> bool {
    crate::encoder::encoder_setup(encoder.encoder) == crate::encoder::setup_for(
        SAMPLE_RATE,
        CHANNELS,
        MP3_BITRATE,
    )
}

/// Whether `encoder` is fit for the stream and has not been used.
pub open spec fn fresh_encoder(encoder: Mp3Encoder) -> bool {
    crate::encoder::new_encoder(
        encoder.encoder,
        crate::encoder::setup_for(SAMPLE_RATE, CHANNELS, MP3_BITRATE),
    )
}

impl BridgeSink {
    /// What every operation keeps: the encoder is fit for the stream.
    pub open spec fn wf(self) -> bool {
        stream_encoder(self.encoder)
    }

    /// A sink for this encoder, if there is one, that nothing has come in to.
    pub open spec fn sink_for(encoder: Result<Mp3Encoder, EncoderError>, now_ms: u64) -> Result<
        Self,
        EncoderError,
    > {
        match encoder {
            Ok(encoder) => Ok(BridgeSink { encoder, start_ms: now_ms, samples_written: 0 }),
            Err(e) => Err(e),
        }
    }

    /// This sink became `after` when it was to begin anew with another one: that, where
    /// there is one; else it is as it was, and `r` says why.
    pub open spec fn replaced_by(
        self,
        sink: Result<Self, EncoderError>,
        after: Self,
        r: Result<(), EncoderError>,
    ) -> bool {
        match sink {
            Ok(sink) => r is Ok && after == sink,
            Err(e) => r == Err::<(), EncoderError>(e) && after == self,
        }
    }

    /// This sink has begun at `now_ms`, with a fresh encoder and counting from zero.
    pub open spec fn begun(self, now_ms: u64) -> bool {
        &&& self.wf()
        &&& fresh_encoder(self.encoder)
        &&& self.start_ms == now_ms
        &&& self.samples_written == 0
    }

    /// This sink and `after` differ in what their encoders have done, and in nothing else.
    pub open spec fn same_but_for_steps(self, after: Self) -> bool {
        &&& after.start_ms == self.start_ms
        &&& after.samples_written == self.samples_written
        &&& self.wf() ==> after.wf()
    }

    /// This sink became `after` when so many samples came in at `now_ms`, and `r` is how
    /// long the player is held up, if they are taken.
    pub open spec fn takes_in<W>(
        self,
        after: Self,
        shared: BridgeView<W>,
        samples: Option<usize>,
        now_ms: u64,
        r: Option<u64>,
    ) -> bool {
        &&& r is Some <==> takes_samples(shared, samples)
        &&& after.samples_written == written_after(self, shared, samples)
        &&& r matches Some(nap_ms) ==> nap_ms == nap(
            play_time(written_after(self, shared, samples)),
            elapsed_of(self, now_ms),
        )
        &&& after.encoder == self.encoder
        &&& after.start_ms == self.start_ms
    }

    /// A sink for this encoder, if there is one, that nothing has come in to.
    pub fn with_encoder(encoder: Result<Mp3Encoder, EncoderError>, now_ms: u64) -> (r: Result<
        Self,
        EncoderError,
    >)
        ensures
            r == Self::sink_for(encoder, now_ms),
    {
        match encoder {
            Ok(encoder) => Ok(Self { encoder, start_ms: now_ms, samples_written: 0 }),
            Err(e) => Err(e),
        }
    }

    /// A sink that nothing has come in to. There is none where there is no memory for an
    /// encoder.
    pub fn new(now_ms: u64) -> (r: Result<Self, EncoderError>)
        ensures
            match r {
                Ok(sink) => sink.begun(now_ms),
                Err(e) => e == EncoderError::NoBuilder,
            },
    {
        Self::with_encoder(Mp3Encoder::new(SAMPLE_RATE, CHANNELS, MP3_BITRATE), now_ms)
    }

    /// Begins anew with this sink, if there is one.
    pub fn restart(&mut self, sink: Result<Self, EncoderError>) -> (r: Result<(), EncoderError>)
        ensures
            old(self).replaced_by(sink, *final(self), r),
    {
        match sink {
            Ok(sink) => {
                *self = sink;
                Ok(())
            },
            Err(e) => Err(e),
        }
    }

    /// Begins anew: with a fresh encoder, and counting from zero.
    pub fn start(&mut self, now_ms: u64) -> (r: Result<(), EncoderError>)
        ensures
            match r {
                Ok(_) => final(self).begun(now_ms),
                Err(e) => {
                    &&& e == EncoderError::NoBuilder
                    &&& *final(self) == *old(self)
                },
            },
    {
        self.restart(Self::new(now_ms))
    }

    /// Gives out what the encoder still holds, to be queued.
    pub fn stop(&mut self) -> (r: Vec<u8>)
        ensures
            crate::encoder::flushes(old(self).encoder.encoder, final(self).encoder.encoder, r@),
            old(self).same_but_for_steps(*final(self)),
    {
        self.encoder.flush()
    }

    /// Takes down that `samples` samples, of all channels, have come in: how long the
    /// player is to be held up before they are encoded. While nothing is streamed they
    /// are dropped, and so is a packet that holds no samples.
    pub fn begin_write<W>(
        &mut self,
        shared: &BridgeShared<W>,
        samples: Option<usize>,
        now_ms: u64,
    ) -> (r: Option<u64>)
        requires
            samples matches Some(n) ==> (old(self).samples_written + n / 2) * 1000 <= u64::MAX,
            elapsed_of(*old(self), now_ms) <= u64::MAX - PRE_BUFFER_MS,
        ensures
            old(self).takes_in(*final(self), shared@, samples, now_ms, r),
            old(self).wf() ==> final(self).wf(),
    {
        if !shared.streaming {
            return None;
        }
        let count: usize = match samples {
            Some(count) => count,
            None => return None,
        };
        self.samples_written = self.samples_written + count as u64 / CHANNELS as u64;
        let audio_ms: u64 = self.samples_written * 1000 / SAMPLE_RATE as u64;
        let wall_ms: u64 = elapsed_ms(self.start_ms, now_ms);
        if audio_ms > wall_ms + PRE_BUFFER_MS {
            let ahead: u64 = audio_ms - wall_ms - KEEP_AHEAD_MS;
            if ahead < LONGEST_NAP_MS {
                Some(ahead)
            } else {
                Some(LONGEST_NAP_MS)
            }
        } else {
            Some(0)
        }
    }

    /// Encodes interleaved samples: what comes out is to be queued.
    pub fn finish_write(&mut self, samples: &[i16]) -> (r: Vec<u8>)
        requires
            old(self).wf(),
            samples@.len() % 2 == 0,
            crate::encoder::room_for(samples@.len() as int) <= i32::MAX,
        ensures
            crate::encoder::encodes(
                old(self).encoder.encoder,
                final(self).encoder.encoder,
                samples@,
                r@,
            ),
            old(self).same_but_for_steps(*final(self)),
    {
        self.encoder.encode(samples)
    }
}

/// How long the samples of `sink` have been coming in.
pub open spec fn elapsed_of(sink: BridgeSink, now_ms: u64) -> int {
    crate::state::elapsed(sink.start_ms, now_ms) as int
}

/// The player is held up exactly when its samples are more than the pre-buffer ahead,
/// for 200 milliseconds each time; and when it goes on, they are still further ahead
/// than they are to stay.
pub proof fn law_pace(audio_ms: nat, wall_ms: nat)
    ensures
        nap(audio_ms as int, wall_ms as int) == (if audio_ms > wall_ms + 500 {
            200int
        } else {
            0int
        }),
        audio_ms > wall_ms + 500 ==> audio_ms - (wall_ms + nap(audio_ms as int, wall_ms as int))
            > KEEP_AHEAD_MS,
{
}

/// One second of samples has one second of play time.
pub proof fn law_play_time(seconds: nat)
    ensures
        play_time(seconds * SAMPLE_RATE) == seconds * 1000,
{
}

/// The play time of samples is to the millisecond what they take at 44100 a second.
pub proof fn law_play_time_of_any(samples: nat)
    ensures
        play_time(samples as int) * 44100 <= samples * 1000 < (play_time(samples as int) + 1)
            * 44100,
{
}

/// Samples are taken exactly while something is streamed, and then each channel's are
/// counted. Whatever is taken holds the player up for 200 milliseconds where, with it, the
/// play time is more than half a second ahead of the clock, and not at all otherwise. The
/// encoder and the clock are left alone.
pub proof fn law_samples_come_in<W>(
    sink: BridgeSink,
    after: BridgeSink,
    shared: BridgeView<W>,
    samples: Option<usize>,
    now_ms: u64,
    r: Option<u64>,
)
    requires
        sink.takes_in(after, shared, samples, now_ms, r),
        sink.start_ms <= now_ms,
    ensures
        r is Some <==> shared.streaming && samples is Some,
        r is None ==> after.samples_written == sink.samples_written,
        r is Some ==> {
            let count = samples->0 as int;
            &&& 2 * (after.samples_written - sink.samples_written) <= count
            &&& count < 2 * (after.samples_written - sink.samples_written) + 2
            &&& r->0 == (if play_time(after.samples_written as int) > now_ms - sink.start_ms
                + 500 {
                200int
            } else {
                0int
            })
        },
        after.encoder == sink.encoder,
        after.start_ms == sink.start_ms,
{
}

/// A sink begins with an encoder for two channels of 44100 samples a second at 192 kilobits
/// and the best quality, which has done nothing yet, and with no samples.
pub proof fn law_sink_begins(sink: BridgeSink, now_ms: u64)
    requires
        sink.begun(now_ms),
    ensures
        ({
            let setup = crate::encoder::encoder_setup(sink.encoder.encoder);
            &&& setup.sample_rate == 44100
            &&& setup.channels == 2
            &&& setup.bitrate == Some(crate::encoder::Mp3Bitrate::Kbps192)
            &&& setup.quality == Some(crate::encoder::Mp3Quality::Best)
            &&& crate::encoder::encoder_steps(sink.encoder.encoder).len() == 0
            &&& crate::encoder::encoder_output(sink.encoder.encoder).len() == 0
            &&& sink.start_ms == now_ms
            &&& sink.samples_written == 0
        }),
{
}

/// A sink is had exactly where an encoder is, and takes over exactly where it is had.
pub proof fn law_sink_is_had(
    sink: BridgeSink,
    encoder: Result<Mp3Encoder, EncoderError>,
    now_ms: u64,
    after: BridgeSink,
    r: Result<(), EncoderError>,
)
    requires
        sink.replaced_by(BridgeSink::sink_for(encoder, now_ms), after, r),
    ensures
        r is Ok <==> encoder is Ok,
        encoder matches Ok(e) ==> after.encoder == e && after.start_ms == now_ms
            && after.samples_written == 0,
        encoder matches Err(e) ==> after == sink && r == Err::<(), EncoderError>(e),
{
}

/// What a sink keeps: its encoder is one for two channels of 44100 samples a second, at 192
/// kilobits and the best quality. A flush and an encoding keep the rest of it as well.
pub proof fn law_sink_is_kept(sink: BridgeSink, after: BridgeSink)
    ensures
        sink.wf() <==> {
            let setup = crate::encoder::encoder_setup(sink.encoder.encoder);
            &&& setup.sample_rate == 44100
            &&& setup.channels == 2
            &&& setup.bitrate == Some(crate::encoder::Mp3Bitrate::Kbps192)
            &&& setup.quality == Some(crate::encoder::Mp3Quality::Best)
        },
        sink.same_but_for_steps(after) ==> after.start_ms == sink.start_ms
            && after.samples_written == sink.samples_written && (sink.wf() ==> after.wf()),
{
}

} // verus!
