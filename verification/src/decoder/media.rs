//! The demuxer and the codec, as the decoder sees them.
//!
//! Both come from symphonia. What is in a source is not known before it is
//! read, so the contracts here promise little: mostly how the plain values
//! that are handed back hang together.

use crate::decoder::time::TimeBase;
use vstd::prelude::*;

verus! {

#[verifier::external_type_specification]
#[verifier::external_body]
pub struct ExMediaSourceStream<'s>(symphonia::core::io::MediaSourceStream<'s>);

#[verifier::external_type_specification]
#[verifier::external_body]
pub struct ExError(symphonia::core::errors::Error);

#[verifier::external_type_specification]
#[verifier::external_body]
pub struct ExPacket(symphonia::core::packet::Packet);

#[verifier::external_type_specification]
#[verifier::external_body]
pub struct ExAudioCodecParameters(symphonia::core::codecs::audio::AudioCodecParameters);

/// A format reader of symphonia, which is a boxed trait object and so has no
/// type that could be declared: what it reads stays hidden.
#[verifier::external_body]
pub struct Demuxer {
    inner: Box<dyn symphonia::core::formats::FormatReader>,
}

/// An audio decoder of symphonia, a boxed trait object like the reader.
#[verifier::external_body]
pub struct Codec {
    inner: Box<dyn symphonia::core::codecs::audio::AudioDecoder>,
}

/// What the decoder needs to know of the track it plays.
pub struct TrackInfo {
    pub id: u32,
    pub time_base: Option<TimeBase>,
    /// The codec parameters, where the track is an audio track.
    pub params: Option<symphonia::core::codecs::audio::AudioCodecParameters>,
}

/// One packet and what the decoder reads of it before decoding.
pub struct PacketHead {
    pub track_id: u32,
    pub ts: i64,
    pub packet: symphonia::core::packet::Packet,
}

/// What a decoded block is made of.
#[derive(Clone, Copy, Debug, PartialEq, Eq, Structural)]
pub struct BlockSpec {
    pub rate: u32,
    pub channels: usize,
    pub frames: usize,
}

/// Where a seek landed: the timestamp that was asked for and the one that
/// the reader went to.
#[derive(Clone, Copy, Debug, PartialEq, Eq, Structural)]
pub struct SeekedTo {
    pub track_id: u32,
    pub required_ts: i64,
    pub actual_ts: i64,
}

/// The kinds of failure that the demuxer and the codec report.
#[derive(Clone, Copy, Debug, PartialEq, Eq)]
pub enum FailureKind {
    /// Reading the source failed.
    Io,
    /// The stream held malformed data; the message says what.
    Malformed(&'static str),
    /// The stream could not be seeked.
    Seek,
    /// A feature of the container or codec is not supported.
    Unsupported,
    /// A limit was reached.
    Limit,
    /// The demuxer or decoder must be reset before it goes on.
    ResetRequired,
}

/// `Probe::probe` on symphonia's default probe, with default options and the
/// file extension as the only hint. Whether a format is found depends on the
/// bytes of the source.
#[verifier::external_body]
pub(crate) fn probe(
    stream: symphonia::core::io::MediaSourceStream<'static>,
    extension: &Option<String>,
) -> Result<Demuxer, symphonia::core::errors::Error> {
    let mut hint = symphonia::core::formats::probe::Hint::new();
    if let Some(extension) = extension {
        hint.with_extension(extension);
    }
    let inner = symphonia::default::get_probe().probe(
        &hint,
        stream,
        Default::default(),
        Default::default(),
    )?;
    Ok(Demuxer { inner })
}

/// `FormatReader::default_track` for audio: the track to play, if the source
/// has one. A time base of symphonia has no zero part, by its type.
#[verifier::external_body]
pub(crate) fn default_audio_track(reader: &Demuxer) -> (r: Option<TrackInfo>)
    ensures
        r matches Some(track) ==> (track.time_base matches Some(tb) ==> tb.valid()),
{
    let track = reader.inner.default_track(symphonia::core::formats::TrackType::Audio)?;
    Some(
        TrackInfo {
            id: track.id,
            time_base: track.time_base.map(
                |tb| TimeBase { numer: tb.numer.get(), denom: tb.denom.get() },
            ),
            params: match &track.codec_params {
                Some(symphonia::core::codecs::CodecParameters::Audio(params)) => Some(
                    params.clone(),
                ),
                _ => None,
            },
        },
    )
}

/// `CodecRegistry::make_audio_decoder` on symphonia's default registry, with
/// verification of the decoded audio switched on. Whether a decoder exists
/// depends on the codecs that were built in.
#[verifier::external_body]
pub(crate) fn make_codec(
    params: &symphonia::core::codecs::audio::AudioCodecParameters,
    gapless: bool,
) -> Result<Codec, symphonia::core::errors::Error> {
    let options = symphonia::core::codecs::audio::AudioDecoderOptions::default().gapless(
        gapless,
    ).verify(true);
    let inner = symphonia::default::get_codecs().make_audio_decoder(params, &options)?;
    Ok(Codec { inner })
}

/// `FormatReader::next_packet`: the next packet of the source, `None` at its
/// end. Which packet comes depends on the source.
#[verifier::external_body]
pub(crate) fn next_packet(
    reader: &mut Demuxer,
) -> Result<Option<PacketHead>, symphonia::core::errors::Error> {
    let packet = reader.inner.next_packet()?;
    Ok(packet.map(|packet| PacketHead { track_id: packet.track_id, ts: packet.pts.get(), packet }))
}

/// `AudioDecoder::decode`, then `copy_to_vec_interleaved` of what was decoded:
/// the block's samples as 16-bit PCM, interleaved, and what the block is made
/// of. A decoded buffer of symphonia has one plane for each channel and the
/// same number of frames in each, and the copy resizes `samples` to hold them
/// all. Where decoding fails, `samples` is not touched.
#[verifier::external_body]
pub(crate) fn decode(
    codec: &mut Codec,
    packet: &symphonia::core::packet::Packet,
    samples: &mut Vec<i16>,
) -> (r: Result<BlockSpec, symphonia::core::errors::Error>)
    ensures
        r matches Ok(spec) ==> final(samples)@.len() == spec.channels * spec.frames,
        r is Err ==> final(samples)@ == old(samples)@,
{
    let decoded = codec.inner.decode(packet)?;
    decoded.copy_to_vec_interleaved(samples);
    let spec = decoded.spec();
    Ok(BlockSpec { rate: spec.rate(), channels: spec.channels().count(), frames: decoded.frames() })
}

/// `AudioDecoder::reset`, which symphonia asks for after every seek.
#[verifier::external_body]
pub(crate) fn reset_codec(codec: &mut Codec) {
    codec.inner.reset();
}

/// `FormatReader::seek`, coarse, to a time on a track. Where the reader lands
/// depends on the source.
#[verifier::external_body]
pub(crate) fn seek_to_time(
    reader: &mut Demuxer,
    secs: i64,
    nanos: u32,
    track_id: u32,
) -> Result<SeekedTo, symphonia::core::errors::Error>
    requires
        nanos < 1_000_000_000,
{
    let time = symphonia::core::units::Time::try_new(secs, nanos).unwrap_or_default();
    let to = symphonia::core::formats::SeekTo::Time { time, track_id: Some(track_id) };
    let seeked = reader.inner.seek(symphonia::core::formats::SeekMode::Coarse, to)?;
    Ok(
        SeekedTo {
            track_id: seeked.track_id,
            required_ts: seeked.required_ts.get(),
            actual_ts: seeked.actual_ts.get(),
        },
    )
}

/// The kind of failure that an error of symphonia reports.
pub uninterp spec fn error_kind(error: symphonia::core::errors::Error) -> FailureKind;

/// Tells the variants of symphonia's error apart. The enum is open to new
/// variants; one that is not known here counts as unsupported.
#[verifier::external_body]
pub(crate) fn failure_kind(error: &symphonia::core::errors::Error) -> (kind: FailureKind)
    ensures
        kind == error_kind(*error),
{
    match error {
        symphonia::core::errors::Error::IoError(_) => FailureKind::Io,
        symphonia::core::errors::Error::DecodeError(message) => FailureKind::Malformed(*message),
        symphonia::core::errors::Error::SeekError(_) => FailureKind::Seek,
        symphonia::core::errors::Error::Unsupported(_) => FailureKind::Unsupported,
        symphonia::core::errors::Error::LimitError(_) => FailureKind::Limit,
        symphonia::core::errors::Error::ResetRequired => FailureKind::ResetRequired,
        _ => FailureKind::Unsupported,
    }
}

/// Symphonia's error for a limit that was reached, with the message given.
#[verifier::external_body]
pub(crate) fn limit_reached(message: &'static str) -> (error: symphonia::core::errors::Error)
    ensures
        error_kind(error) == FailureKind::Limit,
{
    symphonia::core::errors::Error::LimitError(message)
}

} // verus!
