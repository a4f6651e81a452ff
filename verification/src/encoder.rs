//! Turning a buffer of samples into a finished MP3 stream.
//!
//! The compression itself is LAME's, reached through the `mp3lame_encoder`
//! crate. This module configures the codec, sizes its output buffers by the
//! codec's own estimate, keeps the calls in their one legal order (configure,
//! encode once, flush once) and joins body and trailer into the clip.

use crate::error::Error;
use vstd::prelude::*;

verus! {

/// The codec's builder: a configuration that is not yet an encoder.
#[verifier::external_type_specification]
#[verifier::external_body]
pub struct ExBuilder(mp3lame_encoder::Builder);

/// The codec's encoder: one MP3 stream in the making.
#[verifier::external_type_specification]
#[verifier::external_body]
pub struct ExEncoder(mp3lame_encoder::Encoder);

/// The codec's reason for refusing a configuration.
#[verifier::external_type_specification]
#[verifier::external_body]
pub struct ExBuildError(mp3lame_encoder::BuildError);

/// The codec's reason for failing to encode or flush.
#[verifier::external_type_specification]
#[verifier::external_body]
pub struct ExEncodeError(mp3lame_encoder::EncodeError);

/// The largest count that the codec takes: it receives sample and byte
/// counts as C `int`s.
pub const CODEC_COUNT_MAX: usize = 0x7fff_ffff;

/// The room that flushing needs, in bytes.
pub const FLUSH_ROOM: usize = 7200;

/// The target bitrates that a clip can be made with.
#[derive(Debug, Clone, Copy, PartialEq, Eq, Structural)]
pub enum Bitrate {
    Kbps128,
    Kbps192,
    Kbps320,
}

/// The effort that the codec spends on quality.
#[derive(Debug, Clone, Copy, PartialEq, Eq, Structural)]
pub enum Quality {
    Best,
    Good,
    Worst,
}

/// How clips are encoded. Fixed when the clipper starts.
#[derive(Debug, Clone, Copy, PartialEq, Eq, Structural)]
pub struct EncoderConfig {
    /// Samples per second and channel of the input.
    pub sample_rate: u32,
    pub bitrate: Bitrate,
    pub quality: Quality,
}

impl EncoderConfig {
    /// The configuration of voice clips: 48 kHz input, 192 kbit/s, best
    /// quality.
    pub fn voice() -> (config: EncoderConfig)
        ensures
            config == (EncoderConfig {
                sample_rate: 48000,
                bitrate: Bitrate::Kbps192,
                quality: Quality::Best,
            }),
    {
        EncoderConfig { sample_rate: 48000, bitrate: Bitrate::Kbps192, quality: Quality::Best }
    }
}

/// The codec's upper bound on the bytes that encoding `samples` samples can
/// produce: the samples, a quarter more (rounded up), and one MP3 frame of
/// 7200 bytes.
pub open spec fn required_room(samples: nat) -> nat {
    samples + (samples + 3) / 4 + 7200
}

/// `mp3lame_encoder::Builder::new` allocates a configuration with the codec's
/// defaults. Nothing is claimed of the result: it is `None` when the
/// allocation fails.
pub assume_specification[ mp3lame_encoder::Builder::new ]() -> (builder: Option<
    mp3lame_encoder::Builder,
>)
;

/// `mp3lame_encoder::Builder::set_sample_rate` sets the input sample rate.
/// Nothing is claimed of the result: the codec decides whether it supports
/// the rate.
pub assume_specification[ mp3lame_encoder::Builder::set_sample_rate ](
    builder: &mut mp3lame_encoder::Builder,
    rate: u32,
) -> (outcome: Result<(), mp3lame_encoder::BuildError>)
;

/// `mp3lame_encoder::Builder::build` turns the configuration into an encoder.
/// Nothing is claimed of the result: the codec decides whether the
/// parameters go together.
pub assume_specification[ mp3lame_encoder::Builder::build ](
    builder: mp3lame_encoder::Builder,
) -> (outcome: Result<mp3lame_encoder::Encoder, mp3lame_encoder::BuildError>)
;

/// `mp3lame_encoder::max_required_buffer_size` adds to the sample count a
/// quarter of it, rounded up, and 7200, each addition wrapping at the width
/// of `usize`. The contract states the sum where nothing wraps.
pub assume_specification[ mp3lame_encoder::max_required_buffer_size ](
    sample_number: usize,
) -> (room: usize)
    ensures
        required_room(sample_number as nat) <= usize::MAX ==> room == required_room(
            sample_number as nat,
        ),
;

/// Calls `mp3lame_encoder::Builder::set_brate` with the codec's bitrate of
/// the same name. Nothing is claimed of the result.
#[verifier::external_body]
fn set_bitrate(builder: &mut mp3lame_encoder::Builder, bitrate: Bitrate) -> (outcome: Result<
    (),
    mp3lame_encoder::BuildError,
>) {
    builder.set_brate(
        match bitrate {
            Bitrate::Kbps128 => mp3lame_encoder::Bitrate::Kbps128,
            Bitrate::Kbps192 => mp3lame_encoder::Bitrate::Kbps192,
            Bitrate::Kbps320 => mp3lame_encoder::Bitrate::Kbps320,
        },
    )
}

/// Calls `mp3lame_encoder::Builder::set_quality` with the codec's quality of
/// the same name. Nothing is claimed of the result.
#[verifier::external_body]
fn set_quality(builder: &mut mp3lame_encoder::Builder, quality: Quality) -> (outcome: Result<
    (),
    mp3lame_encoder::BuildError,
>) {
    builder.set_quality(
        match quality {
            Quality::Best => mp3lame_encoder::Quality::Best,
            Quality::Good => mp3lame_encoder::Quality::Good,
            Quality::Worst => mp3lame_encoder::Quality::Worst,
        },
    )
}

/// Calls `mp3lame_encoder::Encoder::encode_to_vec` on `samples` as
/// interleaved stereo, with a fresh output vector of `room` bytes of
/// capacity, and returns the bytes that the codec reports as written.
///
/// The crate asserts that the samples come in pairs, and hands the pair
/// count and the output capacity to the codec as C `int`s; the room has to
/// be the codec's own estimate for the samples, so that nothing is cut
/// short. The preconditions keep to that. Nothing is claimed of the bytes.
#[verifier::external_body]
fn encode_interleaved(
    encoder: &mut mp3lame_encoder::Encoder,
    samples: &Vec<i16>,
    room: usize,
) -> (body: Result<Vec<u8>, mp3lame_encoder::EncodeError>)
    requires
        samples@.len() % 2 == 0,
        samples@.len() / 2 <= CODEC_COUNT_MAX,
        room == required_room(samples@.len()),
        room <= CODEC_COUNT_MAX,
{
    let mut output: Vec<u8> = Vec::with_capacity(room);
    match encoder.encode_to_vec(mp3lame_encoder::InterleavedPcm(samples.as_slice()), &mut output) {
        Ok(_) => Ok(output),
        Err(error) => Err(error),
    }
}

/// Calls `mp3lame_encoder::Encoder::flush_to_vec`, in its `FlushNoGap` form,
/// with a fresh output vector of `room` bytes of capacity, and returns the
/// bytes that the codec reports as written.
///
/// The codec asks for at least 7200 bytes and takes the capacity as a C
/// `int`. Nothing is claimed of the bytes.
#[verifier::external_body]
fn flush_no_gap(encoder: &mut mp3lame_encoder::Encoder, room: usize) -> (trailer: Result<
    Vec<u8>,
    mp3lame_encoder::EncodeError,
>)
    requires
        FLUSH_ROOM <= room <= CODEC_COUNT_MAX,
{
    let mut output: Vec<u8> = Vec::with_capacity(room);
    match encoder.flush_to_vec::<mp3lame_encoder::FlushNoGap>(&mut output) {
        Ok(_) => Ok(output),
        Err(error) => Err(error),
    }
}

/// A buffer of `samples` samples can go to the codec in one call: the
/// samples come in stereo pairs, and the room they need is a count that the
/// codec takes.
pub open spec fn encodable(samples: nat) -> bool {
    &&& samples % 2 == 0
    &&& required_room(samples) <= CODEC_COUNT_MAX
}

/// The output room for `samples` samples, by the codec's estimate, or `None`
/// where a buffer of that length cannot be encoded in one call.
pub fn room_for(samples: usize) -> (room: Option<usize>)
    ensures
        encodable(samples as nat) <==> room is Some,
        room is Some ==> room.unwrap() == required_room(samples as nat),
{
    if samples % 2 != 0 || samples > CODEC_COUNT_MAX {
        return None;
    }
    let room = mp3lame_encoder::max_required_buffer_size(samples);
    if room > CODEC_COUNT_MAX {
        None
    } else {
        Some(room)
    }
}

/// The finished clip: the body, then the trailer.
pub fn assemble_clip(body: Vec<u8>, trailer: Vec<u8>) -> (clip: Vec<u8>)
    ensures
        clip@ == body@ + trailer@,
{
    let mut clip = body;
    let mut rest = trailer;
    clip.append(&mut rest);
    clip
}

/// One MP3 stream in the making. It is encoded into once and then flushed
/// once; flushing consumes it.
pub struct ClipEncoder {
    codec: mp3lame_encoder::Encoder,
    encoded: bool,
}

impl ClipEncoder {
    /// The body of the stream has been asked for.
    pub closed spec fn is_encoded(&self) -> bool {
        self.encoded
    }

    /// Sets the codec up as `config` says. The codec decides each step, and
    /// [`build_outcome`] says what each of its answers comes to.
    pub fn new(config: &EncoderConfig) -> (made: Result<ClipEncoder, Error>)
        ensures
            made matches Ok(encoder) ==> !encoder.is_encoded(),
            made matches Err(error) ==> error == Error::SkillIssue,
    {
        let mut builder = match mp3lame_encoder::Builder::new() {
            Some(builder) => builder,
            None => {
                return Err(Error::SkillIssue);
            },
        };
        if let Err(error) = build_outcome(builder.set_sample_rate(config.sample_rate)) {
            return Err(error);
        }
        if let Err(error) = build_outcome(set_bitrate(&mut builder, config.bitrate)) {
            return Err(error);
        }
        if let Err(error) = build_outcome(set_quality(&mut builder, config.quality)) {
            return Err(error);
        }
        match build_outcome(builder.build()) {
            Ok(codec) => Ok(ClipEncoder { codec, encoded: false }),
            Err(error) => Err(error),
        }
    }

    /// Encodes the whole buffer and returns the body of the stream, which
    /// may be empty. The output room is the codec's own estimate for the
    /// number of samples. The codec decides, and [`encode_outcome`] says
    /// what its answer comes to.
    pub fn encode(&mut self, samples: &Vec<i16>) -> (body: Result<Vec<u8>, Error>)
        requires
            !old(self).is_encoded(),
            encodable(samples@.len()),
        ensures
            final(self).is_encoded(),
            body matches Err(error) ==> error == Error::SkillIssue,
    {
        self.encoded = true;
        let room = match room_for(samples.len()) {
            Some(room) => room,
            None => {
                return Err(Error::SkillIssue);
            },
        };
        let outcome = encode_interleaved(&mut self.codec, samples, room);
        encode_outcome(outcome)
    }

    /// Finishes the stream and returns its trailer; the encoder is used up.
    /// The codec decides, and [`encode_outcome`] says what its answer comes
    /// to.
    pub fn flush(self) -> (trailer: Result<Vec<u8>, Error>)
        requires
            self.is_encoded(),
        ensures
            trailer matches Err(error) ==> error == Error::SkillIssue,
    {
        let mut encoder = self;
        let outcome = flush_no_gap(&mut encoder.codec, FLUSH_ROOM);
        encode_outcome(outcome)
    }
}

/// What a step of the codec's configuration comes to: the step's value
/// where the codec accepted it, [`Error::SkillIssue`] where it refused.
pub fn build_outcome<T>(outcome: Result<T, mp3lame_encoder::BuildError>) -> (reported: Result<
    T,
    Error,
>)
    ensures
        outcome matches Ok(value) ==> reported == Ok::<T, Error>(value),
        outcome is Err ==> reported == Err::<T, Error>(Error::SkillIssue),
{
    match outcome {
        Ok(value) => Ok(value),
        Err(refusal) => Err(Error::from(refusal)),
    }
}

/// What a call of the codec on the stream comes to: the bytes it wrote
/// where it succeeded, [`Error::SkillIssue`] where it failed.
pub fn encode_outcome(outcome: Result<Vec<u8>, mp3lame_encoder::EncodeError>) -> (reported: Result<
    Vec<u8>,
    Error,
>)
    ensures
        outcome matches Ok(bytes) ==> reported == Ok::<Vec<u8>, Error>(bytes),
        outcome is Err ==> reported == Err::<Vec<u8>, Error>(Error::SkillIssue),
{
    match outcome {
        Ok(bytes) => Ok(bytes),
        Err(failure) => Err(Error::from(failure)),
    }
}

/// Encodes `samples` into a complete MP3 stream with an encoder of its own:
/// body and trailer, or no bytes at all.
///
/// A buffer that is not [`encodable`] is refused before the codec is
/// touched. For any other buffer the codec decides; the only error is
/// [`Error::SkillIssue`].
pub fn encode_clip(samples: &Vec<i16>, config: &EncoderConfig) -> (clip: Result<Vec<u8>, Error>)
    ensures
        !encodable(samples@.len()) ==> clip == Err::<Vec<u8>, Error>(Error::SkillIssue),
        clip matches Err(error) ==> error == Error::SkillIssue,
{
    if room_for(samples.len()).is_none() {
        return Err(Error::SkillIssue);
    }
    let mut encoder = match ClipEncoder::new(config) {
        Ok(encoder) => encoder,
        Err(error) => {
            return Err(error);
        },
    };
    let body = match encoder.encode(samples) {
        Ok(body) => body,
        Err(error) => {
            return Err(error);
        },
    };
    match encoder.flush() {
        Ok(trailer) => Ok(assemble_clip(body, trailer)),
        Err(error) => Err(error),
    }
}

} // verus!
