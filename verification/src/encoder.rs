//! MP3 encoding with LAME.
use mp3lame_encoder::{
    Bitrate, BuildError, Builder, EncodeError, Encoder, FlushNoGap, InterleavedPcm, Quality,
};
use vstd::prelude::*;

verus! {

/// A LAME encoder that is being set up, opaque: `builder_setup` names its settings.
#[verifier::external_type_specification]
#[verifier::external_body]
pub struct ExBuilder(mp3lame_encoder::Builder);

/// A LAME encoder, opaque: `encoder_setup` names its settings, `encoder_steps` what it
/// has been asked to do and `encoder_output` what it has given out.
#[verifier::external_type_specification]
#[verifier::external_body]
pub struct ExEncoder(mp3lame_encoder::Encoder);

/// Why LAME refused a setting.
#[verifier::external_type_specification]
#[verifier::external_body]
pub struct ExBuildError(mp3lame_encoder::BuildError);

/// Why LAME could not encode.
#[verifier::external_type_specification]
#[verifier::external_body]
pub struct ExEncodeError(mp3lame_encoder::EncodeError);

/// The bit rates in use, in kilobits per second.
#[derive(Debug, Clone, Copy, PartialEq, Eq, Structural)]
pub enum Mp3Bitrate {
    Kbps128,
    Kbps160,
    Kbps192,
    Kbps256,
    Kbps320,
}

/// The encoding quality in use.
#[derive(Debug, Clone, Copy, PartialEq, Eq, Structural)]
pub enum Mp3Quality {
    Best,
}

/// What an encoder was set up with.
pub struct LameSetup {
    pub sample_rate: u32,
    pub channels: u8,
    pub bitrate: Option<Mp3Bitrate>,
    pub quality: Option<Mp3Quality>,
}

/// The settings that a builder has accepted.
pub uninterp spec fn builder_setup(builder: mp3lame_encoder::Builder) -> LameSetup;

/// The settings that an encoder was built with.
pub uninterp spec fn encoder_setup(encoder: mp3lame_encoder::Encoder) -> LameSetup;

/// One thing that an encoder is asked to do, and the bytes of room that it is given for
/// what comes out.
pub enum EncoderStep {
    Encode { samples: Seq<i16>, room: int },
    Flush { room: int },
}

/// Everything that an encoder has been asked to do since it was built, in order.
pub uninterp spec fn encoder_steps(encoder: mp3lame_encoder::Encoder) -> Seq<EncoderStep>;

/// All the bytes that an encoder has given out since it was built, in order.
pub uninterp spec fn encoder_output(encoder: mp3lame_encoder::Encoder) -> Seq<u8>;

/// What an encoder gives out in one step: nothing, where it fails.
pub open spec fn given_out(result: Result<Vec<u8>, EncodeError>) -> Seq<u8> {
    match result {
        Ok(bytes) => bytes@,
        Err(_) => Seq::empty(),
    }
}

/// `Builder::new` allocates an encoder with default settings, two channels at 44100
/// hertz. It gives `None` where there is no memory.
pub assume_specification[ mp3lame_encoder::Builder::new ]() -> (r: Option<Builder>)
    ensures
        r matches Some(builder) ==> builder_setup(builder) == default_setup(),
;

/// The rate that LAME is told for a wish: the largest C integer for what is beyond it.
pub open spec fn told_rate(rate: u32) -> u32 {
    if rate <= i32::MAX {
        rate
    } else {
        i32::MAX as u32
    }
}

/// `Builder::set_sample_rate` takes any rate above zero; what is beyond the largest C
/// integer counts as that.
pub assume_specification[ mp3lame_encoder::Builder::set_sample_rate ](
    builder: &mut Builder,
    rate: u32,
) -> (r: Result<(), BuildError>)
    ensures
        r is Ok <==> rate >= 1,
        r is Ok ==> builder_setup(*final(builder)) == (LameSetup {
            sample_rate: told_rate(rate),
            ..builder_setup(*old(builder))
        }),
;

/// `Builder::set_num_channels` takes one channel or two.
pub assume_specification[ mp3lame_encoder::Builder::set_num_channels ](
    builder: &mut Builder,
    num: u8,
) -> (r: Result<(), BuildError>)
    ensures
        r is Ok <==> 1 <= num <= 2,
        r is Ok ==> builder_setup(*final(builder)) == (LameSetup {
            channels: num,
            ..builder_setup(*old(builder))
        }),
;

/// Calls `Builder::set_quality`, which takes every quality.
#[verifier::external_body]
fn set_quality(builder: &mut Builder, quality: Mp3Quality) -> (r: Result<(), BuildError>)
    ensures
        r is Ok,
        builder_setup(*final(builder)) == (LameSetup {
            quality: Some(quality),
            ..builder_setup(*old(builder))
        }),
{
    builder.set_quality(
        match quality {
            Mp3Quality::Best => Quality::Best,
        },
    )
}

/// Calls `Builder::set_brate`, which takes every bit rate.
#[verifier::external_body]
fn set_bitrate(builder: &mut Builder, bitrate: Mp3Bitrate) -> (r: Result<(), BuildError>)
    ensures
        r is Ok,
        builder_setup(*final(builder)) == (LameSetup {
            bitrate: Some(bitrate),
            ..builder_setup(*old(builder))
        }),
{
    builder.set_brate(
        match bitrate {
            Mp3Bitrate::Kbps128 => Bitrate::Kbps128,
            Mp3Bitrate::Kbps160 => Bitrate::Kbps160,
            Mp3Bitrate::Kbps192 => Bitrate::Kbps192,
            Mp3Bitrate::Kbps256 => Bitrate::Kbps256,
            Mp3Bitrate::Kbps320 => Bitrate::Kbps320,
        },
    )
}

/// `Builder::build` makes an encoder with the accepted settings. Of settings that the
/// builder has accepted, a rate and one channel or two, LAME refuses none.
pub assume_specification[ mp3lame_encoder::Builder::build ](builder: Builder) -> (r: Result<
    Encoder,
    BuildError,
>)
    requires
        builder_setup(builder).sample_rate >= 1,
        1 <= builder_setup(builder).channels <= 2,
    ensures
        r is Ok,
        r matches Ok(encoder) ==> encoder_setup(encoder) == builder_setup(builder),
        r matches Ok(encoder) ==> encoder_steps(encoder) == Seq::<EncoderStep>::empty(),
        r matches Ok(encoder) ==> encoder_output(encoder) == Seq::<u8>::empty(),
;

/// `mp3lame_encoder::max_required_buffer_size`: five quarters of the samples, rounded
/// up, and the largest frame.
pub assume_specification[ mp3lame_encoder::max_required_buffer_size ](sample_number: usize) -> (r:
    usize)
    ensures
        room_for(sample_number as int) <= usize::MAX ==> r == room_for(sample_number as int),
;

/// Bytes of room for the encoding of `samples` samples, as the encoder's makers advise.
pub open spec fn room_for(samples: int) -> int {
    samples + (samples + 3) / 4 + 7200
}

/// The lowest sample rate that LAME works at.
pub const LOWEST_RATE: u32 = 8000;

/// Bytes that the encoding of `samples` interleaved samples at `sample_rate` may take.
/// Samples of a lower rate than LAME works at are brought up to it, where LAME gives out
/// no more than 64 kilobits per second, one byte for each sample of a channel.
pub open spec fn bytes_given(samples: int, sample_rate: u32) -> int {
    if sample_rate >= LOWEST_RATE {
        room_for(samples)
    } else {
        (samples / 2 * LOWEST_RATE + sample_rate - 1) / (sample_rate as int) + 7200
    }
}

/// Calls `Encoder::encode_to_vec` with interleaved stereo samples and a buffer of at
/// least `room` bytes, one more step of this encoder. LAME may abort after it ran out of
/// room, so there has to be as much as it asks for. Which bytes come out is left unsaid:
/// they rest on everything encoded before and on the machine's floating point.
#[verifier::external_body]
fn encode_interleaved(encoder: &mut Encoder, samples: &[i16], room: usize) -> (r: Result<
    Vec<u8>,
    EncodeError,
>)
    requires
        samples@.len() % 2 == 0,
        samples@.len() <= i32::MAX,
        encoder_setup(*old(encoder)).sample_rate >= 1,
        bytes_given(samples@.len() as int, encoder_setup(*old(encoder)).sample_rate) <= room,
        0 < room <= i32::MAX,
    ensures
        encoder_setup(*final(encoder)) == encoder_setup(*old(encoder)),
        encoder_steps(*final(encoder)) == encoder_steps(*old(encoder)).push(
            (EncoderStep::Encode { samples: samples@, room: room as int }),
        ),
        encoder_output(*final(encoder)) == encoder_output(*old(encoder)) + given_out(r),
{
    let mut output = Vec::with_capacity(room);
    encoder.encode_to_vec(InterleavedPcm(samples), &mut output).map(|_size| output)
}

/// Calls `Encoder::flush_to_vec` for a flush without a gap, with a buffer of at least
/// `room` bytes, one more step of this encoder. Which bytes come out is left unsaid, as for
/// encoding.
#[verifier::external_body]
fn flush_no_gap(encoder: &mut Encoder, room: usize) -> (r: Result<Vec<u8>, EncodeError>)
    requires
        room_for(0) <= room <= i32::MAX,
    ensures
        encoder_setup(*final(encoder)) == encoder_setup(*old(encoder)),
        encoder_steps(*final(encoder)) == encoder_steps(*old(encoder)).push(
            (EncoderStep::Flush { room: room as int }),
        ),
        encoder_output(*final(encoder)) == encoder_output(*old(encoder)) + given_out(r),
{
    let mut output = Vec::with_capacity(room);
    encoder.flush_to_vec::<FlushNoGap>(&mut output).map(|_size| output)
}

/// Why there is no encoder.
#[derive(Debug, Clone, Copy, PartialEq, Eq, Structural)]
pub enum EncoderError {
    NoBuilder,
    SampleRate,
    Channels,
    Quality,
    Bitrate,
    Build,
}

impl EncoderError {
    /// The error in words.
    pub open spec fn words(self) -> Seq<char> {
        match self {
            EncoderError::NoBuilder => "failed to create LAME builder"@,
            EncoderError::SampleRate => "set sample rate"@,
            EncoderError::Channels => "set channels"@,
            EncoderError::Quality => "set quality"@,
            EncoderError::Bitrate => "set bitrate"@,
            EncoderError::Build => "failed to build LAME encoder"@,
        }
    }

    /// The error in words.
    pub fn message(&self) -> (r: &'static str)
        ensures
            r@ == self.words(),
    {
        match *self {
            EncoderError::NoBuilder => "failed to create LAME builder",
            EncoderError::SampleRate => "set sample rate",
            EncoderError::Channels => "set channels",
            EncoderError::Quality => "set quality",
            EncoderError::Bitrate => "set bitrate",
            EncoderError::Build => "failed to build LAME encoder",
        }
    }
}

/// The bit rate in use for a wish in kilobits per second: 192 for what is not offered.
pub open spec fn bitrate_for(kbps: u32) -> Mp3Bitrate {
    if kbps == 128 {
        Mp3Bitrate::Kbps128
    } else if kbps == 160 {
        Mp3Bitrate::Kbps160
    } else if kbps == 256 {
        Mp3Bitrate::Kbps256
    } else if kbps == 320 {
        Mp3Bitrate::Kbps320
    } else {
        Mp3Bitrate::Kbps192
    }
}

/// The settings of an encoder made for these wishes.
pub open spec fn setup_for(sample_rate: u32, channels: u32, bitrate: u32) -> LameSetup {
    LameSetup {
        sample_rate: told_rate(sample_rate),
        channels: (channels % 256) as u8,
        bitrate: Some(bitrate_for(bitrate)),
        quality: Some(Mp3Quality::Best),
    }
}

/// Picks the bit rate for a wish in kilobits per second.
pub fn mp3_bitrate(kbps: u32) -> (r: Mp3Bitrate)
    ensures
        r == bitrate_for(kbps),
{
    match kbps {
        128 => Mp3Bitrate::Kbps128,
        160 => Mp3Bitrate::Kbps160,
        192 => Mp3Bitrate::Kbps192,
        256 => Mp3Bitrate::Kbps256,
        320 => Mp3Bitrate::Kbps320,
        _ => Mp3Bitrate::Kbps192,
    }
}

/// What LAME gave out: nothing, where it failed.
pub fn encoded_bytes(result: Result<Vec<u8>, EncodeError>) -> (r: Vec<u8>)
    ensures
        r@ == given_out(result),
{
    match result {
        Ok(bytes) => bytes,
        Err(_) => Vec::new(),
    }
}

/// The room for what the encoder gives out is never less than this, in bytes.
pub const LEAST_ROOM: usize = 16384;

/// Whether there is room for what the encoding of `samples` samples at `sample_rate`
/// gives out. From 4000 hertz on there always is.
pub open spec fn encodable(samples: int, sample_rate: u32) -> bool {
    sample_rate >= 1 && bytes_given(samples, sample_rate) <= encode_room(samples)
}

/// Bytes of room for the encoding of `samples` samples.
pub open spec fn encode_room(samples: int) -> int {
    if room_for(samples) < LEAST_ROOM {
        LEAST_ROOM as int
    } else {
        room_for(samples)
    }
}

/// An MP3 encoder.
pub struct Mp3Encoder {
    pub encoder: Encoder,
}

/// The settings of a builder that has been told nothing.
pub open spec fn default_setup() -> LameSetup {
    LameSetup { sample_rate: 44100, channels: 2, bitrate: None, quality: None }
}

/// Whether LAME takes a number of channels, modulo 256.
pub open spec fn channels_fit(channels: u32) -> bool {
    1 <= channels % 256 <= 2
}

/// Whether `encoder` has these settings and has not been used.
pub open spec fn new_encoder(encoder: Encoder, setup: LameSetup) -> bool {
    &&& encoder_setup(encoder) == setup
    &&& encoder_steps(encoder) == Seq::<EncoderStep>::empty()
    &&& encoder_output(encoder) == Seq::<u8>::empty()
}

/// Whether `r` is what comes of setting up an encoder for these wishes, where a builder
/// was or was not to be had.
pub open spec fn sets_up(
    built: bool,
    sample_rate: u32,
    channels: u32,
    bitrate: u32,
    r: Result<Mp3Encoder, EncoderError>,
) -> bool {
    if !built {
        r == Err::<Mp3Encoder, EncoderError>(EncoderError::NoBuilder)
    } else if sample_rate == 0 {
        r == Err::<Mp3Encoder, EncoderError>(EncoderError::SampleRate)
    } else if !channels_fit(channels) {
        r == Err::<Mp3Encoder, EncoderError>(EncoderError::Channels)
    } else {
        &&& r matches Ok(e)
        &&& new_encoder(e.encoder, setup_for(sample_rate, channels, bitrate))
    }
}

/// Whether an encoder went from `before` to `after` by encoding `samples`, and gave `out`.
pub open spec fn encodes(before: Encoder, after: Encoder, samples: Seq<i16>, out: Seq<u8>) -> bool {
    &&& encoder_setup(after) == encoder_setup(before)
    &&& encoder_steps(after) == encoder_steps(before).push(
        EncoderStep::Encode { samples, room: encode_room(samples.len() as int) },
    )
    &&& encoder_output(after) == encoder_output(before) + out
}

/// Whether an encoder went from `before` to `after` by a flush, and gave `out`.
pub open spec fn flushes(before: Encoder, after: Encoder, out: Seq<u8>) -> bool {
    &&& encoder_setup(after) == encoder_setup(before)
    &&& encoder_steps(after) == encoder_steps(before).push(
        EncoderStep::Flush { room: LEAST_ROOM as int },
    )
    &&& encoder_output(after) == encoder_output(before) + out
}

/// Whether an encoder went from `before` to `after` by encoding so many silent samples and
/// a flush, and gave `out`.
pub open spec fn encodes_silence(
    before: Encoder,
    after: Encoder,
    count: int,
    out: Seq<u8>,
) -> bool {
    &&& encoder_setup(after) == encoder_setup(before)
    &&& encoder_steps(after) == encoder_steps(before) + silence_steps(count)
    &&& encoder_output(after) == encoder_output(before) + out
}

impl Mp3Encoder {
    /// Makes an encoder of the best quality out of a new builder, if there is one. The
    /// channel count is taken modulo 256.
    pub fn set_up(
        builder: Option<Builder>,
        sample_rate: u32,
        channels: u32,
        bitrate: u32,
    ) -> (r: Result<Self, EncoderError>)
        requires
            builder matches Some(b) ==> builder_setup(b) == default_setup(),
        ensures
            sets_up(builder is Some, sample_rate, channels, bitrate, r),
    {
        let mut builder = match builder {
            Some(builder) => builder,
            None => return Err(EncoderError::NoBuilder),
        };
        if builder.set_sample_rate(sample_rate).is_err() {
            return Err(EncoderError::SampleRate);
        }
        proof {
            assert(channels as u8 == channels % 256) by (bit_vector);
        }
        if builder.set_num_channels(#[verifier::truncate] (channels as u8)).is_err() {
            return Err(EncoderError::Channels);
        }
        if set_quality(&mut builder, Mp3Quality::Best).is_err() {
            return Err(EncoderError::Quality);
        }
        if set_bitrate(&mut builder, mp3_bitrate(bitrate)).is_err() {
            return Err(EncoderError::Bitrate);
        }
        match builder.build() {
            Ok(encoder) => Ok(Self { encoder }),
            Err(_) => Err(EncoderError::Build),
        }
    }

    /// An encoder of the best quality. The channel count is taken modulo 256. Where there
    /// is no memory for a builder, there is no encoder.
    pub fn new(sample_rate: u32, channels: u32, bitrate: u32) -> (r: Result<Self, EncoderError>)
        ensures
            sets_up(true, sample_rate, channels, bitrate, r) || sets_up(
                false,
                sample_rate,
                channels,
                bitrate,
                r,
            ),
    {
        Self::set_up(Builder::new(), sample_rate, channels, bitrate)
    }

    /// Encodes interleaved stereo samples. Gives nothing where LAME fails.
    pub fn encode(&mut self, samples: &[i16]) -> (r: Vec<u8>)
        requires
            samples@.len() % 2 == 0,
            room_for(samples@.len() as int) <= i32::MAX,
            encodable(samples@.len() as int, encoder_setup(old(self).encoder).sample_rate),
        ensures
            encodes(old(self).encoder, final(self).encoder, samples@, r@),
    {
        let needed: usize = mp3lame_encoder::max_required_buffer_size(samples.len());
        let room: usize = if needed < LEAST_ROOM {
            LEAST_ROOM
        } else {
            needed
        };
        encoded_bytes(encode_interleaved(&mut self.encoder, samples, room))
    }

    /// Gives out what the encoder still holds, at the end of a track or on a stop.
    pub fn flush(&mut self) -> (r: Vec<u8>)
        ensures
            flushes(old(self).encoder, final(self).encoder, r@),
    {
        encoded_bytes(flush_no_gap(&mut self.encoder, LEAST_ROOM))
    }
}

/// How many samples, of all channels, a duration takes.
pub open spec fn sample_count(duration_ms: u32, sample_rate: u32, channels: u32) -> int {
    (sample_rate * channels * duration_ms) / 1000
}

/// That many samples of silence.
pub open spec fn zeros(count: int) -> Seq<i16> {
    Seq::new(count as nat, |i: int| 0i16)
}

/// The samples of a silence.
pub fn silent_samples(duration_ms: u32, sample_rate: u32, channels: u32) -> (r: Vec<i16>)
    requires
        sample_rate * channels <= usize::MAX,
        sample_rate * channels * duration_ms <= usize::MAX,
    ensures
        r@ == zeros(sample_count(duration_ms, sample_rate, channels)),
{
    let count: usize = (sample_rate as usize * channels as usize * duration_ms as usize) / 1000;
    let silence = vec![0i16; count];
    proof {
        assert(silence@ =~= zeros(sample_count(duration_ms, sample_rate, channels)));
    }
    silence
}

/// The encoding of that many silent samples, and a flush.
pub open spec fn silence_steps(count: int) -> Seq<EncoderStep> {
    seq![
        EncoderStep::Encode { samples: zeros(count), room: encode_room(count) },
        EncoderStep::Flush { room: LEAST_ROOM as int },
    ]
}

/// Whether `encoder` has done nothing but encode this silence and flush.
pub open spec fn encoded_silence(
    encoder: Encoder,
    duration_ms: u32,
    sample_rate: u32,
    channels: u32,
    bitrate: u32,
) -> bool {
    &&& encoder_steps(encoder) == silence_steps(
        sample_count(duration_ms, sample_rate, channels),
    )
    &&& encoder_setup(encoder) == setup_for(sample_rate, channels, bitrate)
}

impl Mp3Encoder {
    /// Encodes a silence and flushes: all that the encoder gives out for it.
    pub fn encode_silence(&mut self, duration_ms: u32, sample_rate: u32, channels: u32) -> (r: Vec<
        u8,
    >)
        requires
            sample_rate * channels <= usize::MAX,
            sample_rate * channels * duration_ms <= usize::MAX,
            sample_count(duration_ms, sample_rate, channels) % 2 == 0,
            room_for(sample_count(duration_ms, sample_rate, channels)) <= i32::MAX,
            encodable(
                sample_count(duration_ms, sample_rate, channels),
                encoder_setup(old(self).encoder).sample_rate,
            ),
        ensures
            encodes_silence(
                old(self).encoder,
                final(self).encoder,
                sample_count(duration_ms, sample_rate, channels),
                r@,
            ),
    {
        let silence = silent_samples(duration_ms, sample_rate, channels);
        let mut result = self.encode(silence.as_slice());
        let mut rest = self.flush();
        result.append(&mut rest);
        proof {
            assert(encoder_output(self.encoder) =~= encoder_output(old(self).encoder) + result@);
            assert(encoder_steps(self.encoder) =~= encoder_steps(old(self).encoder)
                + silence_steps(sample_count(duration_ms, sample_rate, channels)));
        }
        result
    }
}

/// Whether `r` is what comes of encoding a silence with a new encoder for these wishes.
pub open spec fn gives_silence(
    duration_ms: u32,
    sample_rate: u32,
    channels: u32,
    bitrate: u32,
    r: Result<Vec<u8>, EncoderError>,
) -> bool {
    match r {
        Ok(bytes) => {
            &&& sample_rate >= 1
            &&& channels_fit(channels)
            &&& exists|encoder: Encoder|
                #![trigger encoder_output(encoder)]
                encoder_output(encoder) == bytes@ && encoded_silence(
                    encoder,
                    duration_ms,
                    sample_rate,
                    channels,
                    bitrate,
                )
        },
        Err(EncoderError::SampleRate) => sample_rate == 0,
        Err(EncoderError::Channels) => sample_rate >= 1 && !channels_fit(channels),
        Err(e) => e == EncoderError::NoBuilder,
    }
}

/// Encoded silence, for clients with a stale token: all that a new encoder gives out for
/// the silent samples and a flush.
pub fn generate_silence(duration_ms: u32, sample_rate: u32, channels: u32, bitrate: u32) -> (r:
    Result<Vec<u8>, EncoderError>)
    requires
        sample_rate * channels <= usize::MAX,
        sample_rate * channels * duration_ms <= usize::MAX,
        sample_count(duration_ms, sample_rate, channels) % 2 == 0,
        room_for(sample_count(duration_ms, sample_rate, channels)) <= i32::MAX,
        sample_rate == 0 || encodable(
            sample_count(duration_ms, sample_rate, channels),
            told_rate(sample_rate),
        ),
    ensures
        gives_silence(duration_ms, sample_rate, channels, bitrate, r),
{
    match Mp3Encoder::new(sample_rate, channels, bitrate) {
        Ok(encoder) => {
            let mut encoder = encoder;
            let result = encoder.encode_silence(duration_ms, sample_rate, channels);
            proof {
                assert(encoder_output(encoder.encoder) =~= result@);
                assert(encoder_steps(encoder.encoder) =~= silence_steps(
                    sample_count(duration_ms, sample_rate, channels),
                ));
            }
            Ok(result)
        },
        Err(e) => Err(e),
    }
}

/// At 4000 hertz and above there is room for whatever comes out of any number of pairs of
/// samples.
pub proof fn law_room_from_4000_hertz(pairs: nat, sample_rate: u32)
    requires
        sample_rate >= 4000,
    ensures
        encodable((2 * pairs) as int, sample_rate),
{
    let samples = 2 * pairs as int;
    if sample_rate < LOWEST_RATE {
        let upsampled = (pairs as int * LOWEST_RATE + sample_rate - 1) / (sample_rate as int);
        assert(upsampled <= 2 * pairs) by (nonlinear_arith)
            requires
                upsampled == (pairs as int * 8000 + sample_rate - 1) / (sample_rate as int),
                4000 <= sample_rate,
                pairs >= 0,
        ;
    }
}

/// A bit rate that is not offered is as good as 192: the encoder is set up the same, and
/// what is silence at the one is silence at the other.
pub proof fn law_other_bit_rates_are_192(
    encoder: Encoder,
    duration_ms: u32,
    sample_rate: u32,
    channels: u32,
    bitrate: u32,
)
    requires
        bitrate != 128 && bitrate != 160 && bitrate != 256 && bitrate != 320,
    ensures
        bitrate_for(bitrate) == Mp3Bitrate::Kbps192,
        setup_for(sample_rate, channels, bitrate) == setup_for(sample_rate, channels, 192),
        encoded_silence(encoder, duration_ms, sample_rate, channels, bitrate) == encoded_silence(
            encoder,
            duration_ms,
            sample_rate,
            channels,
            192,
        ),
{
}

/// The bit rates that are offered are had, and 192 in place of any other.
pub proof fn law_bit_rates(kbps: u32)
    ensures
        bitrate_for(kbps) == Mp3Bitrate::Kbps128 <==> kbps == 128,
        bitrate_for(kbps) == Mp3Bitrate::Kbps160 <==> kbps == 160,
        bitrate_for(kbps) == Mp3Bitrate::Kbps256 <==> kbps == 256,
        bitrate_for(kbps) == Mp3Bitrate::Kbps320 <==> kbps == 320,
        bitrate_for(192) == Mp3Bitrate::Kbps192,
{
}

/// An encoder is had exactly where there is a builder, the rate is not zero and there are
/// one or two channels, modulo 256. It has the rate and the channels that were asked for,
/// the best quality, and has done nothing. What stood in the way is told, and which of the
/// reasons comes first.
pub proof fn law_setting_up(
    built: bool,
    sample_rate: u32,
    channels: u32,
    bitrate: u32,
    r: Result<Mp3Encoder, EncoderError>,
)
    requires
        sets_up(built, sample_rate, channels, bitrate, r),
    ensures
        ({
            let fit = channels % 256 == 1 || channels % 256 == 2;
            &&& r is Ok <==> built && sample_rate > 0 && fit
        }),
        r matches Err(e) ==> {
            &&& e == EncoderError::NoBuilder <==> !built
            &&& e == EncoderError::SampleRate <==> built && sample_rate == 0
            &&& e == EncoderError::Channels <==> built && sample_rate > 0
        },
        r matches Ok(e) ==> {
            let setup = encoder_setup(e.encoder);
            &&& sample_rate <= 0x7fff_ffff ==> setup.sample_rate == sample_rate
            &&& sample_rate > 0x7fff_ffff ==> setup.sample_rate == 0x7fff_ffff
            &&& setup.channels == channels % 256
            &&& setup.quality == Some(Mp3Quality::Best)
            &&& setup.bitrate == Some(bitrate_for(bitrate))
            &&& encoder_steps(e.encoder).len() == 0
            &&& encoder_output(e.encoder).len() == 0
        },
{
}

/// Encoding and flushing are one step each. The encoder is given the samples and no less
/// than 16 kilobytes of room, and as much more as its makers advise: five quarters of the
/// samples, rounded up, and 7200 bytes. What it gives is what it has given more than before,
/// and it is still set up as it was.
pub proof fn law_encoder_steps(before: Encoder, after: Encoder, samples: Seq<i16>, out: Seq<u8>)
    ensures
        encodes(before, after, samples, out) || flushes(before, after, out) ==> {
            &&& encoder_setup(after) == encoder_setup(before)
            &&& encoder_output(after) == encoder_output(before) + out
            &&& encoder_steps(after).len() == encoder_steps(before).len() + 1
            &&& encoder_steps(after).drop_last() == encoder_steps(before)
        },
        encodes(before, after, samples, out) ==> {
            &&& encoder_steps(after).last() matches EncoderStep::Encode { samples: given, room }
            &&& given == samples
            &&& room >= 16384
            &&& (room - 7200) * 4 >= samples.len() * 5
            &&& room > 16384 ==> (room - 7201) * 4 < samples.len() * 5
        },
        flushes(before, after, out) ==> encoder_steps(after).last() == (EncoderStep::Flush {
            room: 16384,
        }),
{
    if encodes(before, after, samples, out) || flushes(before, after, out) {
        assert(encoder_steps(after).drop_last() =~= encoder_steps(before));
    }
}

/// A silence takes as many samples as fit in its duration, and every one of them is zero.
/// Encoding it is encoding those, and a flush.
pub proof fn law_silence(duration_ms: u32, sample_rate: u32, channels: u32, i: int)
    ensures
        ({
            let count = sample_count(duration_ms, sample_rate, channels);
            let whole = sample_rate * channels * duration_ms;
            &&& count * 1000 <= whole < (count + 1) * 1000
            &&& zeros(count).len() == count
            &&& 0 <= i < count ==> zeros(count)[i] == 0
            &&& silence_steps(count).len() == 2
            &&& silence_steps(count)[0] matches EncoderStep::Encode { samples, room }
            &&& samples == zeros(count)
            &&& room >= 16384
            &&& silence_steps(count)[1] == (EncoderStep::Flush { room: 16384 })
        }),
{
    let whole = sample_rate * channels * duration_ms;
    assert(whole >= 0) by (nonlinear_arith)
        requires
            whole == sample_rate * channels * duration_ms,
    ;
}

/// The silence that is given out is all that some encoder for these wishes has given out,
/// whose only steps were those of the silence.
pub proof fn law_silence_given(
    duration_ms: u32,
    sample_rate: u32,
    channels: u32,
    bitrate: u32,
    r: Result<Vec<u8>, EncoderError>,
)
    requires
        gives_silence(duration_ms, sample_rate, channels, bitrate, r),
    ensures
        r matches Ok(bytes) ==> {
            &&& sample_rate > 0
            &&& channels % 256 == 1 || channels % 256 == 2
            &&& exists|encoder: Encoder|
                {
                    &&& #[trigger] encoder_output(encoder) == bytes@
                    &&& encoder_steps(encoder) == silence_steps(
                        sample_count(duration_ms, sample_rate, channels),
                    )
                    &&& encoder_setup(encoder).bitrate == Some(bitrate_for(bitrate))
                    &&& encoder_setup(encoder).channels == channels % 256
                    &&& sample_rate <= 0x7fff_ffff ==> encoder_setup(encoder).sample_rate
                        == sample_rate
                }
        },
        r matches Err(EncoderError::SampleRate) ==> sample_rate == 0,
        r matches Err(EncoderError::Channels) ==> sample_rate > 0 && channels % 256 != 1
            && channels % 256 != 2,
        r matches Err(e) ==> e == EncoderError::SampleRate || e == EncoderError::Channels || e
            == EncoderError::NoBuilder,
{
}

/// Every error has its words.
pub proof fn law_words(e: EncoderError)
    ensures
        e == EncoderError::NoBuilder ==> e.words() == "failed to create LAME builder"@,
        e == EncoderError::SampleRate ==> e.words() == "set sample rate"@,
        e == EncoderError::Channels ==> e.words() == "set channels"@,
        e == EncoderError::Quality ==> e.words() == "set quality"@,
        e == EncoderError::Bitrate ==> e.words() == "set bitrate"@,
        e == EncoderError::Build ==> e.words() == "failed to build LAME encoder"@,
{
}

/// What comes out of a step is what LAME gave, and nothing where it failed.
pub proof fn law_given_out(bytes: Vec<u8>, e: EncodeError)
    ensures
        given_out(Ok(bytes)) == bytes@,
        given_out(Err(e)).len() == 0,
{
}

/// A silence is encoded in two steps: all of it, and a flush. What comes out is what the
/// encoder has given more than before, and it is still set up as it was.
pub proof fn law_encoding_silence(before: Encoder, after: Encoder, count: int, out: Seq<u8>)
    requires
        encodes_silence(before, after, count, out),
    ensures
        encoder_steps(after).len() == encoder_steps(before).len() + 2,
        encoder_steps(after).take(encoder_steps(before).len() as int) == encoder_steps(before),
        encoder_steps(after)[encoder_steps(before).len() as int] matches EncoderStep::Encode {
            samples,
            ..
        } && samples == zeros(count),
        encoder_steps(after).last() == (EncoderStep::Flush { room: 16384 }),
        encoder_output(after) == encoder_output(before) + out,
        encoder_setup(after) == encoder_setup(before),
{
    assert(encoder_steps(after).take(encoder_steps(before).len() as int) =~= encoder_steps(before));
}

} // verus!
