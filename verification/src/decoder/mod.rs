//! The decoder: one source, decoded block by block, mixed to a fixed channel
//! count and scaled by a volume.

pub mod channel_buffer;
pub mod fft;
pub mod fixed_buffer;
pub mod media;
pub mod mix;
pub mod resampler;
pub mod time;
pub mod vec_ext;

pub use crate::decoder::media::SeekedTo;
pub use crate::decoder::resampler::{DecoderResult, ResampledDecoder, ResamplerSettings};
pub use crate::decoder::time::TimeBase;

use crate::decoder::media::{
    decode, default_audio_track, error_kind, failure_kind, limit_reached, make_codec, next_packet,
    probe, reset_codec, seek_to_time, BlockSpec, Codec, Demuxer, FailureKind, PacketHead,
    TrackInfo,
};
use crate::decoder::mix::{
    all_silent, mix_into, mixed, scaled_all, silence, trim_leading_silence, trims_at,
};
use crate::decoder::time::{
    duration_as_secs, duration_from_millis, duration_secs, duration_subsec, duration_subsec_nanos,
    position_millis, position_of, since_unix_epoch, system_now, ticks_as_millis, ticks_fit,
    time_as_ticks, time_timestamp,
};
use crate::sample::{Volume, MID};
use std::time::Duration;
use vstd::prelude::*;

verus! {

/// Why a source could not be opened or a block not be decoded.
#[derive(Debug)]
pub enum DecoderError {
    /// The source has no audio track.
    NoTracks,
    /// No container format was recognised.
    FormatNotFound(symphonia::core::errors::Error),
    /// No decoder exists for the track's codec.
    UnsupportedCodec(symphonia::core::errors::Error),
    /// The audio has a shape that the decoder does not handle.
    UnsupportedFormat(String),
    /// Reading or decoding failed for good.
    DecodeError(symphonia::core::errors::Error),
    /// One packet was malformed; the next one is tried.
    Recoverable(&'static str),
    /// The decoder must be set up anew before it goes on.
    ResetRequired,
    /// The default track is no audio track.
    InvalidTrackType,
}

impl DecoderError {
    /// Whether the error is one that opening a source gives before its first
    /// block is read: no format, no track, no audio track, or no codec.
    pub open spec fn while_opening(self) -> bool {
        self is FormatNotFound || self is NoTracks || self is InvalidTrackType
            || self is UnsupportedCodec
    }

    /// Whether the error is one that reading a block gives.
    pub open spec fn while_reading(self) -> bool {
        self is ResetRequired || self is DecodeError || self is UnsupportedFormat
    }
}

/// Why a seek was refused.
#[derive(Debug)]
pub struct SeekError(pub symphonia::core::errors::Error);

/// Where playback stands, and when that was read off.
#[derive(Clone, Debug, PartialEq, Eq)]
pub struct CurrentPosition {
    pub position: Duration,
    /// The time since the Unix epoch at which the position was read, where the
    /// system clock gives one.
    pub retrieval_time: Option<Duration>,
}

/// What a decoder is set up with.
#[derive(Clone, Debug, Default)]
pub struct DecoderSettings {
    /// Whether the silence that leads a source is dropped.
    pub enable_gapless: bool,
}

/// What is to be done with a packet that the demuxer handed out.
#[derive(Clone, Copy, Debug, PartialEq, Eq, Structural)]
pub enum PacketChoice {
    /// The packet belongs to another track, or lies before the point that a
    /// seek asked for.
    Skip,
    /// The packet is decoded.
    Use,
}

/// The most packets that one call reads before it gives up on the source.
/// A call that reaches the limit reports a decode error that carries the
/// demuxer's error for a limit.
pub const PACKET_LIMIT: u64 = u64::MAX;

/// A decoder as contracts see it.
pub struct DecoderView {
    /// The output buffer, all of it.
    pub buf: Seq<i16>,
    /// How much of the front of the buffer is the current block.
    pub buf_len: nat,
    /// The block as the codec handed it out, before mixing.
    pub sample_buf: Seq<i16>,
    pub volume: Volume,
    pub track_id: u32,
    pub input_channels: usize,
    pub output_channels: usize,
    pub timestamp: i64,
    pub is_paused: bool,
    pub sample_rate: usize,
    pub seek_required_ts: Option<i64>,
    pub time_base: Option<TimeBase>,
    pub enable_gapless: bool,
    pub finished: bool,
    pub samples_skipped: usize,
    /// Whether the block that was last mixed was made of whole input frames.
    pub whole_frames: bool,
    /// The timestamps of the packets that the last call of `next` that read
    /// on chose to decode, in the order in which they came.
    pub used_ts: Seq<i64>,
    /// How many samples the blocks held that were dropped whole, as silence,
    /// when the decoder was made.
    pub silence_dropped: nat,
    /// Whether each of the blocks that were dropped whole was made of whole
    /// input frames.
    pub dropped_whole: bool,
    /// What the demuxer answered when it refused the last seek, if it did.
    pub refusal: Option<symphonia::core::errors::Error>,
    /// What the demuxer answered when it was asked to go back after it
    /// refused the last seek.
    pub way_back: Option<Result<SeekedTo, symphonia::core::errors::Error>>,
    /// How many channels the block had that the codec last handed out.
    pub block_channels: usize,
    /// The sample rate that the codec told of the block it last handed out.
    pub block_rate: u32,
}

impl DecoderView {
    /// The current block.
    pub open spec fn current(self) -> Seq<i16> {
        self.buf.subrange(0, self.buf_len as int)
    }

    /// The block that the codec's samples mix to.
    pub open spec fn mixed_block(self) -> Seq<i16> {
        mixed(self.sample_buf, self.input_channels, self.output_channels, self.volume)
    }

    /// Whether the codec's block is made of whole frames of the input.
    pub open spec fn whole_block(self) -> bool {
        self.input_channels == 1 || self.sample_buf.len() % 2 == 0
    }

    /// What holds of every decoder: the current block lies within the buffer,
    /// no more than two channels come in, a block for two channels is made of
    /// pairs where the codec's block that it was mixed from was made of whole
    /// frames, and the time base has no zero part.
    pub open spec fn wf(self) -> bool {
        &&& self.buf_len <= self.buf.len()
        &&& self.input_channels <= 2
        &&& (self.output_channels == 2 && self.whole_frames ==> self.buf_len % 2 == 0)
        &&& (self.time_base matches Some(tb) ==> tb.valid())
    }

    /// Whether the current block is the codec's block with `skipped` samples
    /// of leading silence dropped and the rest scaled once more, and the
    /// count of skipped samples holds them and the blocks that were dropped
    /// whole before.
    pub open spec fn trimmed_by(self, skipped: int) -> bool {
        &&& trims_at(self.mixed_block(), self.output_channels, skipped)
        &&& self.current() == scaled_all(
            self.mixed_block().subrange(skipped, self.mixed_block().len() as int),
            self.volume,
        )
        &&& self.samples_skipped == counted(self.silence_dropped + skipped)
    }

    /// Whether the current block is the codec's block with its leading
    /// silence dropped and the rest scaled once more.
    pub open spec fn trimmed(self) -> bool {
        exists|skipped: int| #[trigger] self.trimmed_by(skipped)
    }

    /// Whether a decoder takes what the codec made of a packet as its next
    /// block: the codec made a block; the block has no more than two
    /// channels, where it is the first to tell the channels; and mixing it
    /// makes no more samples than can be counted.
    pub open spec fn takes(
        self,
        decoded: Result<BlockSpec, symphonia::core::errors::Error>,
    ) -> bool {
        &&& decoded matches Ok(spec)
        &&& self.sample_rate == 0 ==> spec.channels <= 2
        &&& 2 * self.sample_buf.len() <= usize::MAX
    }

    /// Whether a decoder chooses a packet of a track and a timestamp to
    /// decode: the packet belongs to the track that is played and does not
    /// lie before the timestamp that a seek asked for.
    pub open spec fn chooses(self, packet_track: u32, packet_ts: i64) -> bool {
        packet_track == self.track_id && (self.seek_required_ts matches Some(ts) ==> packet_ts
            >= ts)
    }

    /// The decoder after it was asked for a block while paused: its buffer
    /// holds silence, and nothing else has changed.
    pub open spec fn silenced(self) -> DecoderView {
        DecoderView { buf: Seq::new(self.buf.len(), |i: int| MID), ..self }
    }

    /// The decoder after it was paused and then asked for `blocks` blocks.
    pub open spec fn paused_through(self, blocks: nat) -> DecoderView
        decreases blocks,
    {
        if blocks == 0 {
            DecoderView { is_paused: true, ..self }
        } else {
            self.paused_through((blocks - 1) as nat).silenced()
        }
    }

    /// The decoder after it was paused, asked for `blocks` blocks and
    /// resumed.
    pub open spec fn idled(self, blocks: nat) -> DecoderView {
        DecoderView { is_paused: false, ..self.paused_through(blocks) }
    }

    /// Whether two decoders were set up alike: what only the caller changes
    /// is the same in both.
    pub open spec fn same_setup(self, other: DecoderView) -> bool {
        &&& self.volume == other.volume
        &&& self.track_id == other.track_id
        &&& self.output_channels == other.output_channels
        &&& self.is_paused == other.is_paused
        &&& self.enable_gapless == other.enable_gapless
    }

    /// The position in milliseconds that the timestamp stands for; zero while
    /// no time base is known.
    pub open spec fn position(self) -> u64 {
        match self.time_base {
            Some(tb) => if ticks_fit(tb, self.timestamp as int) {
                position_millis(ticks_as_millis(tb, self.timestamp as int))
            } else if self.timestamp < 0 {
                0
            } else {
                u64::MAX
            },
            None => 0,
        }
    }
}

/// A count of samples as the decoder keeps it: the count itself, or the
/// highest that it can hold.
pub open spec fn counted(samples: int) -> usize {
    if samples > usize::MAX {
        usize::MAX
    } else if samples < 0 {
        0
    } else {
        samples as usize
    }
}

/// The timestamp that a decoder stands at after a seek to a time that the
/// demuxer accepted: what the time comes to in the time base, or, where no
/// time base is known or the time does not fit, the timestamp that the seek
/// asks for.
pub open spec fn seek_target(
    time_base: Option<TimeBase>,
    secs: u64,
    nanos: u32,
    required_ts: i64,
) -> i64 {
    let whole = if secs > i64::MAX as u64 {
        i64::MAX as int
    } else {
        secs as int
    };
    match time_base {
        Some(tb) => if tb.valid() && nanos < 1_000_000_000 && i64::MIN <= time_as_ticks(
            tb,
            whole,
            nanos as int,
        ) <= i64::MAX {
            time_as_ticks(tb, whole, nanos as int) as i64
        } else {
            required_ts
        },
        None => required_ts,
    }
}

/// Works out the timestamp that a decoder stands at after a seek to a time
/// that the demuxer accepted, from the time and the timestamp that the seek
/// asks for.
pub fn timestamp_after_seek(
    time_base: Option<TimeBase>,
    secs: u64,
    nanos: u32,
    required_ts: i64,
) -> (ts: i64)
    ensures
        ts == seek_target(time_base, secs, nanos, required_ts),
{
    let whole: i64 = if secs > i64::MAX as u64 {
        i64::MAX
    } else {
        secs as i64
    };
    match time_base {
        Some(tb) => {
            if tb.numer > 0 && tb.denom > 0 && nanos < 1_000_000_000 {
                match time_timestamp(tb, whole, nanos) {
                    Some(ts) => ts,
                    None => required_ts,
                }
            } else {
                required_ts
            }
        },
        None => required_ts,
    }
}

/// The current block of a decoder lies within its buffer.
pub proof fn lemma_current_within_buffer(decoder: DecoderView)
    requires
        decoder.wf(),
    ensures
        decoder.current().len() == decoder.buf_len,
        decoder.current().len() <= decoder.buf.len(),
{
}

/// The current block of a decoder for two channels is made of pairs, where
/// the codec's block that it was mixed from was made of whole frames.
pub proof fn lemma_stereo_blocks_are_pairs(decoder: DecoderView)
    requires
        decoder.wf(),
        decoder.output_channels == 2,
        decoder.whole_frames,
    ensures
        decoder.current().len() % 2 == 0,
{
}

/// A decoder that was paused, asked for blocks any number of times and
/// resumed is as it was, but for its buffer, which holds silence where a
/// block was asked for: it stands at the same timestamp, and what a seek
/// asked for is still to be met.
pub proof fn lemma_pause_then_resume(decoder: DecoderView, blocks: nat)
    requires
        !decoder.is_paused,
    ensures
        decoder.idled(blocks) == if blocks == 0 {
            decoder
        } else {
            decoder.silenced()
        },
        decoder.idled(blocks) == (DecoderView { buf: decoder.idled(blocks).buf, ..decoder }),
        decoder.paused_through(blocks)
            == (DecoderView { is_paused: true, ..decoder.idled(blocks) }),
        decoder.idled(blocks).buf.len() == decoder.buf.len(),
        decoder.idled(blocks).position() == decoder.position(),
        decoder.wf() ==> decoder.idled(blocks).wf(),
    decreases blocks,
{
    if blocks > 0 {
        lemma_pause_then_resume(decoder, (blocks - 1) as nat);
        let before = decoder.paused_through((blocks - 1) as nat);
        assert(before.buf.len() == decoder.buf.len());
        assert(before.silenced().buf =~= decoder.silenced().buf);
        assert(decoder.paused_through(blocks) == before.silenced());
        assert(decoder.idled(blocks) == decoder.silenced());
    }
}

/// A decoder that went back to where it stood, after a seek was refused,
/// stands no later than it stood before, where the way back can be counted
/// in ticks of its time base.
pub proof fn lemma_way_back_is_no_later(decoder: DecoderView, required_ts: i64)
    requires
        decoder.wf(),
        decoder.time_base is Some,
        time_as_ticks(
            decoder.time_base->0,
            decoder.position() as int / 1000,
            (decoder.position() as int % 1000) * 1_000_000,
        ) <= i64::MAX,
    ensures
        (DecoderView {
            timestamp: seek_target(
                decoder.time_base,
                decoder.position() / 1000,
                (((decoder.position() % 1000) as u32) * 1_000_000) as u32,
                required_ts,
            ),
            ..decoder
        }).position() <= decoder.position(),
{
    crate::decoder::time::lemma_ticks_of_a_position_are_no_later(
        decoder.time_base->0,
        decoder.position(),
    );
}

/// A block of one channel that a decoder took for two channels has twice
/// the samples, and every frame of it holds the source's sample, scaled, on
/// both channels.
pub proof fn lemma_mono_block_on_two_channels(decoder: DecoderView, frame: int)
    requires
        decoder.current() == decoder.mixed_block(),
        decoder.input_channels == 1,
        decoder.output_channels == 2,
        0 <= frame < decoder.sample_buf.len(),
    ensures
        decoder.current().len() == 2 * decoder.sample_buf.len(),
        decoder.current()[2 * frame] == crate::sample::scaled(
            decoder.sample_buf[frame],
            decoder.volume,
        ),
        decoder.current()[2 * frame + 1] == decoder.current()[2 * frame],
{
    crate::decoder::mix::lemma_upmix_pairs(decoder.sample_buf, decoder.volume, frame);
}

/// A block of two channels that a decoder took for one channel has half the
/// samples, and every sample of it is the mean of a pair of the source
/// times the volume, rounded toward zero once and clamped to the range of a
/// sample.
pub proof fn lemma_stereo_block_on_one_channel(decoder: DecoderView, frame: int)
    requires
        decoder.current() == decoder.mixed_block(),
        decoder.input_channels == 2,
        decoder.output_channels == 1,
        0 <= frame < decoder.sample_buf.len() / 2,
    ensures
        decoder.current().len() == decoder.sample_buf.len() / 2,
        decoder.current()[frame] == crate::sample::clamped(
            crate::sample::trunc_div(
                (decoder.sample_buf[2 * frame] + decoder.sample_buf[2 * frame + 1])
                    * decoder.volume.raw,
                131072,
            ),
        ),
{
    crate::decoder::mix::lemma_downmix_frames(decoder.sample_buf, decoder.volume, frame);
}

/// The block that a decoder hands out once it has decoded a packet is made
/// of what the codec made of the packet, the channels and the volume alone:
/// what the buffer held before plays no part. So a decoder whose buffer was
/// silenced while it was paused hands out the blocks that it would have
/// handed out otherwise.
pub proof fn lemma_block_forgets_buffer(a: DecoderView, b: DecoderView)
    requires
        a.current() == a.mixed_block(),
        b.current() == b.mixed_block(),
        a.sample_buf == b.sample_buf,
        a.input_channels == b.input_channels,
        a.output_channels == b.output_channels,
        a.volume == b.volume,
    ensures
        a.current() == b.current(),
{
}

/// Whether the current block of a decoder is what is left of the block that
/// the codec's samples mix to when `skipped` samples of silence are dropped
/// from its front and the rest is scaled once more, and starts at a sound:
/// its first sample comes from a sound, or, for two channels, its second
/// does.
pub open spec fn starts_at_sound(decoder: DecoderView, skipped: int) -> bool {
    let block = decoder.mixed_block();
    &&& 0 <= skipped < block.len()
    &&& all_silent(block.subrange(0, skipped))
    &&& decoder.current().len() == block.len() - skipped
    &&& decoder.current()[0] == crate::sample::scaled(block[skipped], decoder.volume)
    &&& block[skipped] != MID || (decoder.output_channels == 2 && skipped + 1 < block.len()
        && block[skipped + 1] != MID && decoder.current()[1] == crate::sample::scaled(
        block[skipped + 1],
        decoder.volume,
    ))
}

/// A block whose leading silence was dropped starts at a sound.
pub proof fn lemma_trimmed_starts_at_sound(decoder: DecoderView)
    requires
        decoder.trimmed(),
    ensures
        exists|skipped: int| #[trigger] starts_at_sound(decoder, skipped),
{
    let block = decoder.mixed_block();
    let skipped = choose|skipped: int| #[trigger] decoder.trimmed_by(skipped);
    crate::decoder::mix::lemma_trim_starts_at_sound(block, decoder.output_channels, skipped);
    assert(starts_at_sound(decoder, skipped));
}

/// Decides what is done with a packet: it is used when it belongs to the
/// track that is played and does not lie before the timestamp that a seek
/// asked for.
pub fn packet_choice(
    track_id: u32,
    required_ts: Option<i64>,
    packet_track: u32,
    packet_ts: i64,
) -> (c: PacketChoice)
    ensures
        c == if packet_track == track_id && (required_ts matches Some(ts) ==> packet_ts >= ts) {
            PacketChoice::Use
        } else {
            PacketChoice::Skip
        },
{
    if packet_track != track_id {
        PacketChoice::Skip
    } else {
        match required_ts {
            Some(ts) => if packet_ts < ts {
                PacketChoice::Skip
            } else {
                PacketChoice::Use
            },
            None => PacketChoice::Use,
        }
    }
}

/// The error that the decoder reports where the demuxer fails to hand out a
/// packet: a reset where the demuxer asks for one, a decode error otherwise.
pub fn read_failure(error: symphonia::core::errors::Error) -> (e: DecoderError)
    ensures
        e == if error_kind(error) == FailureKind::ResetRequired {
            DecoderError::ResetRequired
        } else {
            DecoderError::DecodeError(error)
        },
{
    match failure_kind(&error) {
        FailureKind::ResetRequired => DecoderError::ResetRequired,
        _ => DecoderError::DecodeError(error),
    }
}

/// The error that the decoder reports where the codec fails on a packet:
/// malformed data can be got over by the next packet, a reset is passed on,
/// anything else is a decode error.
pub fn decode_failure(error: symphonia::core::errors::Error) -> (e: DecoderError)
    ensures
        e == match error_kind(error) {
            FailureKind::Malformed(message) => DecoderError::Recoverable(message),
            FailureKind::ResetRequired => DecoderError::ResetRequired,
            _ => DecoderError::DecodeError(error),
        },
{
    match failure_kind(&error) {
        FailureKind::Malformed(message) => DecoderError::Recoverable(message),
        FailureKind::ResetRequired => DecoderError::ResetRequired,
        _ => DecoderError::DecodeError(error),
    }
}

/// Whether a block of that many channels can be played: up to two can.
pub fn accept_channels(channels: usize) -> (r: Result<(), DecoderError>)
    ensures
        r is Ok <==> channels <= 2,
        r matches Err(e) ==> e is UnsupportedFormat,
{
    if channels > 2 {
        Err(
            DecoderError::UnsupportedFormat(
                "Audio sources with more than 2 channels are not supported".to_owned(),
            ),
        )
    } else {
        Ok(())
    }
}

/// The track that a decoder plays.
pub struct AudioTrack {
    pub id: u32,
    pub time_base: Option<TimeBase>,
    pub params: symphonia::core::codecs::audio::AudioCodecParameters,
}

/// The track to play, from what the demuxer says of its default audio
/// track: a source without one has no tracks, and a track without audio
/// parameters is of the wrong type.
pub fn audio_track(track: Option<TrackInfo>) -> (r: Result<AudioTrack, DecoderError>)
    ensures
        r == match track {
            None => Err::<AudioTrack, DecoderError>(DecoderError::NoTracks),
            Some(info) => match info.params {
                None => Err::<AudioTrack, DecoderError>(DecoderError::InvalidTrackType),
                Some(params) => Ok::<AudioTrack, DecoderError>(
                    AudioTrack { id: info.id, time_base: info.time_base, params },
                ),
            },
        },
{
    match track {
        None => Err(DecoderError::NoTracks),
        Some(info) => match info.params {
            None => Err(DecoderError::InvalidTrackType),
            Some(params) => Ok(AudioTrack { id: info.id, time_base: info.time_base, params }),
        },
    }
}

/// Settles a seek that the demuxer refused, from what the attempt to go back
/// to the previous position gave: the refusal stands where going back worked,
/// together with the timestamp that going back asks for; where going back
/// failed too, that failure is reported.
pub fn settle_refused_seek(
    refusal: symphonia::core::errors::Error,
    back: Result<SeekedTo, symphonia::core::errors::Error>,
) -> (r: (SeekError, Option<i64>))
    ensures
        r == match back {
            Ok(seeked) => (SeekError(refusal), Some(seeked.required_ts)),
            Err(failure) => (SeekError(failure), None::<i64>),
        },
{
    match back {
        Ok(seeked) => (SeekError(refusal), Some(seeked.required_ts)),
        Err(failure) => (SeekError(failure), None),
    }
}

/// A decoder over one source.
pub struct Decoder {
    buf: Vec<i16>,
    sample_buf: Vec<i16>,
    codec: Codec,
    reader: Demuxer,
    time_base: Option<TimeBase>,
    buf_len: usize,
    volume: Volume,
    track_id: u32,
    input_channels: usize,
    output_channels: usize,
    timestamp: i64,
    is_paused: bool,
    sample_rate: usize,
    seek_required_ts: Option<i64>,
    settings: DecoderSettings,
    finished: bool,
    samples_skipped: usize,
    whole_frames: Ghost<bool>,
    used_ts: Ghost<Seq<i64>>,
    silence_dropped: Ghost<nat>,
    dropped_whole: Ghost<bool>,
    refusal: Ghost<Option<symphonia::core::errors::Error>>,
    way_back: Ghost<Option<Result<SeekedTo, symphonia::core::errors::Error>>>,
    block_channels: Ghost<usize>,
    block_rate: Ghost<u32>,
}

impl View for Decoder {
    type V = DecoderView;

    closed spec fn view(&self) -> DecoderView {
        DecoderView {
            buf: self.buf@,
            buf_len: self.buf_len as nat,
            sample_buf: self.sample_buf@,
            volume: self.volume,
            track_id: self.track_id,
            input_channels: self.input_channels,
            output_channels: self.output_channels,
            timestamp: self.timestamp,
            is_paused: self.is_paused,
            sample_rate: self.sample_rate,
            seek_required_ts: self.seek_required_ts,
            time_base: self.time_base,
            enable_gapless: self.settings.enable_gapless,
            finished: self.finished,
            samples_skipped: self.samples_skipped,
            whole_frames: self.whole_frames@,
            used_ts: self.used_ts@,
            silence_dropped: self.silence_dropped@,
            dropped_whole: self.dropped_whole@,
            refusal: self.refusal@,
            way_back: self.way_back@,
            block_channels: self.block_channels@,
            block_rate: self.block_rate@,
        }
    }
}

impl Decoder {
    /// Whether two decoders hold the same demuxer and codec, in the same
    /// state.
    pub closed spec fn same_source(&self, other: &Decoder) -> bool {
        self.reader == other.reader && self.codec == other.codec
    }

    /// Holding the same demuxer and codec, in the same state, is an
    /// equivalence: a decoder does with itself, and what holds between a
    /// first and a second decoder and between the second and a third holds
    /// between the second and the first and between the first and the third.
    pub proof fn lemma_same_source_is_an_equivalence(&self, second: &Decoder, third: &Decoder)
        ensures
            self.same_source(self),
            self.same_source(second) ==> second.same_source(self),
            self.same_source(second) && second.same_source(third) ==> self.same_source(third),
    {
    }

    /// Sets the volume of the blocks to come.
    pub fn set_volume(&mut self, volume: Volume)
        ensures
            final(self)@ == (DecoderView { volume, ..old(self)@ }),
            final(self).same_source(old(self)),
    {
        self.volume = volume;
    }

    /// The volume of the blocks to come.
    pub fn volume(&self) -> (v: Volume)
        ensures
            v == self@.volume,
    {
        self.volume
    }

    /// Stops the decoder from reading on: what it hands out from now on is
    /// silence.
    pub fn pause(&mut self)
        ensures
            final(self)@ == (DecoderView { is_paused: true, ..old(self)@ }),
            final(self).same_source(old(self)),
    {
        self.is_paused = true;
    }

    /// Whether the decoder is paused.
    pub fn is_paused(&self) -> (b: bool)
        ensures
            b == self@.is_paused,
    {
        self.is_paused
    }

    /// Lets the decoder read on.
    pub fn resume(&mut self)
        ensures
            final(self)@ == (DecoderView { is_paused: false, ..old(self)@ }),
            final(self).same_source(old(self)),
    {
        self.is_paused = false;
    }

    /// The sample rate of the source; zero until a block has told it.
    pub fn sample_rate(&self) -> (rate: usize)
        ensures
            rate == self@.sample_rate,
    {
        self.sample_rate
    }

    /// How many samples of leading silence were dropped when the decoder was
    /// made: those of the blocks that were dropped whole and those before the
    /// first sound of the first block, or the highest count that can be held.
    pub fn samples_skipped(&self) -> (n: usize)
        ensures
            n == self@.samples_skipped,
    {
        self.samples_skipped
    }

    /// The current block.
    pub fn current(&self) -> (block: &[i16])
        requires
            self@.wf(),
        ensures
            block@ == self@.current(),
    {
        vstd::slice::slice_subrange(self.buf.as_slice(), 0, self.buf_len)
    }

    /// Decodes one packet into the current block.
    fn process_output(
        &mut self,
        packet: &symphonia::core::packet::Packet,
    ) -> (r: Result<(), DecoderError>)
        requires
            old(self)@.wf(),
        ensures
            final(self)@.wf(),
            final(self)@.buf.len() >= old(self)@.buf.len(),
            final(self).reader == old(self).reader,
            final(self)@ == (DecoderView {
                buf: final(self)@.buf,
                buf_len: final(self)@.buf_len,
                sample_buf: final(self)@.sample_buf,
                input_channels: final(self)@.input_channels,
                sample_rate: final(self)@.sample_rate,
                whole_frames: final(self)@.whole_frames,
                block_channels: final(self)@.block_channels,
                block_rate: final(self)@.block_rate,
                ..old(self)@
            }),
            r matches Err(DecoderError::Recoverable(_)) ==> final(self)@ == old(self)@,
            old(self)@.sample_rate != 0 ==> {
                &&& final(self)@.sample_rate == old(self)@.sample_rate
                &&& final(self)@.input_channels == old(self)@.input_channels
            },
            r matches Err(error) ==> {
                ||| (error is Recoverable || error is ResetRequired || error is DecodeError)
                    && final(self)@ == old(self)@
                ||| error is UnsupportedFormat && (old(self)@.sample_rate == 0
                    && final(self)@.block_channels > 2 || 2 * final(self)@.sample_buf.len()
                    > usize::MAX)
            },
            r is Ok ==> {
                &&& old(self)@.sample_rate == 0 ==> final(self)@.block_channels <= 2
                &&& old(self)@.sample_rate == 0 ==> final(self)@.sample_rate
                    == final(self)@.block_rate
                &&& final(self)@.current() == final(self)@.mixed_block()
                &&& final(self)@.block_channels == final(self)@.input_channels
                    ==> final(self)@.whole_block()
                &&& final(self)@.whole_frames == final(self)@.whole_block()
                &&& old(self)@.sample_rate == 0 ==> final(self)@.whole_block()
                &&& old(self)@.sample_rate != 0 ==> {
                    &&& final(self)@.sample_rate == old(self)@.sample_rate
                    &&& final(self)@.input_channels == old(self)@.input_channels
                }
            },
            r is Err ==> {
                &&& final(self)@.buf == old(self)@.buf
                &&& final(self)@.buf_len == old(self)@.buf_len
                &&& final(self)@.whole_frames == old(self)@.whole_frames
            },
    {
        let decoded = decode(&mut self.codec, packet, &mut self.sample_buf);
        proof {
            if let Ok(spec) = decoded {
                if spec.channels == 2 {
                    assert((2 * spec.frames) % 2 == 0);
                }
                if spec.channels == 0 {
                    assert(0 * spec.frames == 0) by (nonlinear_arith);
                }
            }
        }
        self.take_block(decoded)
    }

    /// Takes what the codec made of a packet: the block's samples lie in the
    /// scratch buffer, and `decoded` says what the block is made of, or why
    /// there is none.
    ///
    /// A failure of the codec is passed on as `decode_failure` says. The
    /// first block tells the sample rate and the channels of the source, and
    /// is refused where it has more than two channels; a block is refused
    /// where mixing it would make more samples than can be counted. Any
    /// other block is mixed into the output buffer and becomes the current
    /// block.
    pub fn take_block(
        &mut self,
        decoded: Result<BlockSpec, symphonia::core::errors::Error>,
    ) -> (r: Result<(), DecoderError>)
        requires
            old(self)@.wf(),
        ensures
            final(self)@.wf(),
            final(self).same_source(old(self)),
            final(self)@.buf.len() >= old(self)@.buf.len(),
            final(self)@ == (DecoderView {
                buf: final(self)@.buf,
                buf_len: final(self)@.buf_len,
                input_channels: final(self)@.input_channels,
                sample_rate: final(self)@.sample_rate,
                whole_frames: final(self)@.whole_frames,
                block_channels: final(self)@.block_channels,
                block_rate: final(self)@.block_rate,
                ..old(self)@
            }),
            r is Ok <==> old(self)@.takes(decoded),
            decoded matches Err(error) ==> r == Err::<(), DecoderError>(
                match error_kind(error) {
                    FailureKind::Malformed(message) => DecoderError::Recoverable(message),
                    FailureKind::ResetRequired => DecoderError::ResetRequired,
                    _ => DecoderError::DecodeError(error),
                },
            ) && final(self)@ == old(self)@,
            decoded matches Ok(spec) ==> {
                &&& r matches Err(error) ==> error is UnsupportedFormat
                &&& final(self)@.block_channels == spec.channels
                &&& final(self)@.block_rate == spec.rate
                &&& final(self)@.sample_rate == if old(self)@.sample_rate == 0 && spec.channels
                    <= 2 {
                    spec.rate as usize
                } else {
                    old(self)@.sample_rate
                }
                &&& final(self)@.input_channels == if old(self)@.sample_rate == 0 && spec.channels
                    <= 2 {
                    spec.channels
                } else {
                    old(self)@.input_channels
                }
            },
            r is Ok ==> {
                &&& final(self)@.current() == final(self)@.mixed_block()
                &&& final(self)@.buf.len() == if final(self)@.buf_len > old(self)@.buf.len() {
                    final(self)@.buf_len
                } else {
                    old(self)@.buf.len()
                }
                &&& forall|i: int|
                    final(self)@.buf_len <= i < old(self)@.buf.len()
                        ==> #[trigger] final(self)@.buf[i] == old(self)@.buf[i]
                &&& final(self)@.whole_frames == final(self)@.whole_block()
            },
            r is Err ==> {
                &&& final(self)@.buf == old(self)@.buf
                &&& final(self)@.buf_len == old(self)@.buf_len
                &&& final(self)@.whole_frames == old(self)@.whole_frames
            },
    {
        let spec = match decoded {
            Ok(spec) => spec,
            Err(error) => {
                return Err(decode_failure(error));
            },
        };
        proof {
            self.block_channels = Ghost(spec.channels);
            self.block_rate = Ghost(spec.rate);
        }
        if self.sample_rate == 0 {
            match accept_channels(spec.channels) {
                Ok(()) => {},
                Err(error) => {
                    return Err(error);
                },
            }
            self.sample_rate = spec.rate as usize;
            self.input_channels = spec.channels;
        }
        if self.sample_buf.len() > usize::MAX / 2 {
            return Err(
                DecoderError::UnsupportedFormat("A block holds more samples than fit".to_owned()),
            );
        }
        let n = mix_into(
            &mut self.buf,
            &self.sample_buf,
            self.input_channels,
            self.output_channels,
            self.volume,
        );
        self.buf_len = n;
        proof {
            self.whole_frames = Ghost(self@.whole_block());
        }
        Ok(())
    }

    /// Takes a packet that the demuxer handed out, and says whether a block
    /// was decoded from it.
    ///
    /// A packet of another track is passed over, and so is, after a seek, one
    /// before the timestamp that the seek asked for: the decoder is left as
    /// it was. Any other packet is decoded: the decoder then stands at the
    /// packet's timestamp, and what the seek asked for is met. A malformed
    /// packet is dropped, and no block comes of it.
    pub fn take_packet(&mut self, head: &PacketHead) -> (r: Result<bool, DecoderError>)
        requires
            old(self)@.wf(),
        ensures
            final(self)@.wf(),
            final(self)@.buf.len() >= old(self)@.buf.len(),
            !old(self)@.chooses(head.track_id, head.ts) ==> {
                &&& r matches Ok(false)
                &&& *final(self) == *old(self)
            },
            old(self)@.chooses(head.track_id, head.ts) ==> {
                &&& final(self)@.timestamp == head.ts
                &&& final(self)@.seek_required_ts is None
                &&& final(self)@.used_ts == old(self)@.used_ts.push(head.ts)
                &&& final(self)@ == (DecoderView {
                    timestamp: head.ts,
                    seek_required_ts: None,
                    used_ts: old(self)@.used_ts.push(head.ts),
                    buf: final(self)@.buf,
                    buf_len: final(self)@.buf_len,
                    sample_buf: final(self)@.sample_buf,
                    input_channels: final(self)@.input_channels,
                    sample_rate: final(self)@.sample_rate,
                    whole_frames: final(self)@.whole_frames,
                    block_channels: final(self)@.block_channels,
                    block_rate: final(self)@.block_rate,
                    ..old(self)@
                })
            },
            old(self)@.sample_rate != 0 ==> {
                &&& final(self)@.sample_rate == old(self)@.sample_rate
                &&& final(self)@.input_channels == old(self)@.input_channels
            },
            r matches Ok(true) ==> {
                &&& final(self)@.current() == final(self)@.mixed_block()
                &&& final(self)@.whole_frames == final(self)@.whole_block()
                &&& old(self)@.sample_rate == 0 ==> final(self)@.sample_rate
                    == final(self)@.block_rate
                &&& old(self)@.sample_rate == 0 ==> final(self)@.whole_block()
                &&& final(self)@.block_channels == final(self)@.input_channels
                    ==> final(self)@.whole_block()
            },
            !(r matches Ok(true)) ==> {
                &&& final(self)@.buf == old(self)@.buf
                &&& final(self)@.buf_len == old(self)@.buf_len
                &&& final(self)@.whole_frames == old(self)@.whole_frames
            },
            r matches Ok(false) ==> {
                &&& final(self)@.sample_buf == old(self)@.sample_buf
                &&& final(self)@.sample_rate == old(self)@.sample_rate
                &&& final(self)@.input_channels == old(self)@.input_channels
            },
            r matches Err(error) ==> error.while_reading(),
    {
        match packet_choice(self.track_id, self.seek_required_ts, head.track_id, head.ts) {
            PacketChoice::Skip => Ok(false),
            PacketChoice::Use => {
                self.seek_required_ts = None;
                self.timestamp = head.ts;
                proof {
                    self.used_ts = Ghost(self.used_ts@.push(head.ts));
                }
                match self.process_output(&head.packet) {
                    Ok(()) => Ok(true),
                    Err(DecoderError::Recoverable(_)) => Ok(false),
                    Err(error) => Err(error),
                }
            },
        }
    }

    /// Advances by one block and returns it, or `None` at the end of the
    /// source.
    ///
    /// A paused decoder reads nothing and hands out silence. Otherwise packets
    /// are read and taken as `take_packet` says until one is decoded: packets
    /// of other tracks are passed over, and so are, after a seek, those
    /// before the timestamp that the seek asked for; a malformed packet is
    /// dropped. The decoder then stands at the timestamp of the packet that
    /// it took last. Once the source has ended, every further call says so
    /// and changes nothing.
    pub fn next(&mut self) -> (r: Result<Option<&[i16]>, DecoderError>)
        requires
            old(self)@.wf(),
        ensures
            final(self)@.wf(),
            final(self)@.same_setup(old(self)@),
            final(self)@.samples_skipped == old(self)@.samples_skipped,
            final(self)@.silence_dropped == old(self)@.silence_dropped,
            final(self)@.dropped_whole == old(self)@.dropped_whole,
            final(self)@.refusal == old(self)@.refusal,
            final(self)@.way_back == old(self)@.way_back,
            final(self)@.time_base == old(self)@.time_base,
            final(self)@.buf.len() >= old(self)@.buf.len(),
            !(r matches Err(DecoderError::Recoverable(_))),
            r matches Err(error) ==> error.while_reading(),
            old(self)@.sample_rate != 0 ==> {
                &&& final(self)@.sample_rate == old(self)@.sample_rate
                &&& final(self)@.input_channels == old(self)@.input_channels
            },
            old(self)@.finished ==> final(self)@.finished,
            r matches Ok(Some(block)) ==> block@ == final(self)@.current(),
            old(self)@.is_paused ==> {
                &&& r matches Ok(Some(_))
                &&& final(self)@ == old(self)@.silenced()
                &&& final(self).same_source(old(self))
            },
            !old(self)@.is_paused && old(self)@.finished ==> {
                &&& r matches Ok(None)
                &&& *final(self) == *old(self)
            },
            !old(self)@.is_paused && !old(self)@.finished ==> match r {
                Ok(Some(_)) => {
                    &&& !final(self)@.finished
                    &&& final(self)@.seek_required_ts is None
                    &&& final(self)@.current() == final(self)@.mixed_block()
                    &&& final(self)@.used_ts.len() > 0
                    &&& old(self)@.sample_rate != 0 ==> {
                        &&& final(self)@.sample_rate == old(self)@.sample_rate
                        &&& final(self)@.input_channels == old(self)@.input_channels
                    }
                    &&& final(self)@.whole_frames == final(self)@.whole_block()
                    &&& final(self)@.output_channels == 2 && final(self)@.whole_block()
                        ==> final(self)@.current().len() % 2 == 0
                    &&& old(self)@.sample_rate == 0 ==> final(self)@.sample_rate
                        == final(self)@.block_rate
                    &&& old(self)@.sample_rate == 0 ==> final(self)@.whole_block()
                    &&& final(self)@.block_channels == final(self)@.input_channels
                        ==> final(self)@.whole_block()
                },
                Ok(None) => {
                    &&& final(self)@.finished
                    &&& final(self)@.buf == old(self)@.buf
                    &&& final(self)@.buf_len == old(self)@.buf_len
                    &&& final(self)@.whole_frames == old(self)@.whole_frames
                    &&& final(self)@.sample_rate == old(self)@.sample_rate
                    &&& final(self)@.input_channels == old(self)@.input_channels
                    &&& final(self)@.seek_required_ts == old(self)@.seek_required_ts
                        || final(self)@.seek_required_ts is None
                },
                Err(_) => true,
            },
            !old(self)@.is_paused && !old(self)@.finished ==> {
                &&& final(self)@.used_ts.len() > 0 ==> {
                    &&& final(self)@.timestamp == final(self)@.used_ts.last()
                    &&& final(self)@.seek_required_ts is None
                    &&& old(self)@.seek_required_ts matches Some(ts) ==> final(self)@.used_ts[0]
                        >= ts
                }
                &&& final(self)@.used_ts.len() == 0 ==> {
                    &&& final(self)@.timestamp == old(self)@.timestamp
                    &&& final(self)@.seek_required_ts == old(self)@.seek_required_ts
                    &&& final(self)@.sample_buf == old(self)@.sample_buf
                }
            },
    {
        if self.is_paused {
            silence(&mut self.buf);
            return Ok(Some(self.current()));
        }
        if self.finished {
            return Ok(None);
        }
        proof {
            self.used_ts = Ghost(Seq::empty());
        }
        let mut budget: u64 = PACKET_LIMIT;
        while budget > 0
            invariant
                self@.wf(),
                old(self)@.wf(),
                !old(self)@.is_paused,
                !old(self)@.finished,
                self@.same_setup(old(self)@),
                self@.samples_skipped == old(self)@.samples_skipped,
                self@.silence_dropped == old(self)@.silence_dropped,
                self@.dropped_whole == old(self)@.dropped_whole,
                self@.refusal == old(self)@.refusal,
                self@.way_back == old(self)@.way_back,
                self@.time_base == old(self)@.time_base,
                !self@.finished,
                self@.buf == old(self)@.buf,
                self@.buf_len == old(self)@.buf_len,
                self@.whole_frames == old(self)@.whole_frames,
                self@.sample_rate == old(self)@.sample_rate,
                self@.input_channels == old(self)@.input_channels,
                self@.used_ts.len() == 0 ==> {
                    &&& self@.seek_required_ts == old(self)@.seek_required_ts
                    &&& self@.timestamp == old(self)@.timestamp
                    &&& self@.sample_buf == old(self)@.sample_buf
                },
                self@.used_ts.len() > 0 ==> {
                    &&& self@.timestamp == self@.used_ts.last()
                    &&& self@.seek_required_ts is None
                    &&& old(self)@.seek_required_ts matches Some(ts) ==> self@.used_ts[0] >= ts
                },
            decreases budget,
        {
            budget -= 1;
            let head = match next_packet(&mut self.reader) {
                Err(error) => {
                    return Err(read_failure(error));
                },
                Ok(None) => {
                    self.finished = true;
                    return Ok(None);
                },
                Ok(Some(head)) => head,
            };
            match self.take_packet(&head) {
                Ok(true) => {
                    return Ok(Some(self.current()));
                },
                Ok(false) => {},
                Err(error) => {
                    return Err(error);
                },
            }
        }
        Err(DecoderError::DecodeError(limit_reached("the packet limit of one call was reached")))
    }

    /// Drops the silence that leads the current block, and says whether a
    /// sound was found in it: where none was, the whole block counts as
    /// dropped, and the next is to be read.
    fn drop_leading_silence(&mut self) -> (found: bool)
        requires
            old(self)@.wf(),
            old(self)@.current() == old(self)@.mixed_block(),
            old(self)@.samples_skipped == counted(old(self)@.silence_dropped as int),
        ensures
            final(self)@.wf(),
            final(self)@ == (DecoderView {
                buf: final(self)@.buf,
                buf_len: final(self)@.buf_len,
                samples_skipped: final(self)@.samples_skipped,
                silence_dropped: final(self)@.silence_dropped,
                dropped_whole: final(self)@.dropped_whole,
                ..old(self)@
            }),
            found ==> {
                &&& final(self)@.trimmed()
                &&& final(self)@.silence_dropped == old(self)@.silence_dropped
                &&& final(self)@.dropped_whole == old(self)@.dropped_whole
                &&& final(self)@.output_channels == 2 && old(self)@.silence_dropped % 2 == 0
                    && final(self)@.samples_skipped < usize::MAX ==> final(self)@.samples_skipped
                    % 2 == 0
            },
            !found ==> {
                &&& final(self)@.buf == old(self)@.buf
                &&& final(self)@.buf_len == old(self)@.buf_len
                &&& final(self)@.silence_dropped == old(self)@.silence_dropped + old(self)@.buf_len
                &&& final(self)@.dropped_whole
                    == (old(self)@.dropped_whole && old(self)@.whole_frames)
                &&& final(self)@.samples_skipped == counted(final(self)@.silence_dropped as int)
            },
    {
        let ghost mixed_now = self@;
        match trim_leading_silence(&mut self.buf, self.buf_len, self.output_channels, self.volume) {
            Some((skipped, kept)) => {
                let ghost block = mixed_now.current();
                proof {
                    assert(trims_at(block, self.output_channels, skipped as int));
                    let index = choose|index: int| #[trigger]
                        crate::decoder::mix::is_first_sound(block, index) && skipped
                            == crate::decoder::mix::trim_point(index, self.output_channels);
                    assert(self.output_channels == 2 ==> skipped % 2 == 0);
                    assert(mixed_now.buf.subrange(skipped as int, mixed_now.buf_len as int)
                        =~= block.subrange(skipped as int, block.len() as int));
                }
                self.buf_len = kept;
                self.samples_skipped = self.samples_skipped.saturating_add(skipped);
                proof {
                    assert(self@.mixed_block() == block);
                    assert(self@.current() == scaled_all(
                        block.subrange(skipped as int, block.len() as int),
                        self@.volume,
                    ));
                    assert(self@.trimmed_by(skipped as int));
                }
                true
            },
            None => {
                proof {
                    self.dropped_whole = Ghost(self.dropped_whole@ && self.whole_frames@);
                    self.silence_dropped = Ghost(self.silence_dropped@ + self.buf_len as nat);
                }
                self.samples_skipped = self.samples_skipped.saturating_add(self.buf_len);
                false
            },
        }
    }

    /// Reads the first block, so that the sample rate and the channels of the
    /// source are known, and gives the decoder a time base where the source
    /// had none. With gapless playback, blocks are read until one holds a
    /// sound, and the silence before it is dropped.
    fn initialize(&mut self) -> (r: Result<(), DecoderError>)
        requires
            old(self)@.wf(),
            !old(self)@.is_paused,
            old(self)@.whole_frames,
            old(self)@.sample_rate == 0,
            old(self)@.samples_skipped == 0,
            old(self)@.silence_dropped == 0,
            old(self)@.dropped_whole,
        ensures
            final(self)@.wf(),
            final(self)@.same_setup(old(self)@),
            final(self)@.refusal == old(self)@.refusal,
            final(self)@.way_back == old(self)@.way_back,
            !(r matches Err(DecoderError::Recoverable(_))),
            r matches Err(error) ==> error.while_reading(),
            old(self)@.time_base is Some ==> final(self)@.time_base == old(self)@.time_base,
            r is Ok ==> {
                &&& final(self)@.time_base is None ==> final(self)@.sample_rate == 0
                    || final(self)@.sample_rate > u32::MAX
                &&& old(self)@.time_base is None ==> final(self)@.time_base is None
                    || final(self)@.time_base == Some(
                    TimeBase { numer: 1, denom: final(self)@.sample_rate as u32 },
                )
                &&& final(self)@.sample_rate == 0 ==> final(self)@.finished
                    || final(self)@.block_rate == 0
                &&& !final(self)@.enable_gapless ==> {
                    &&& final(self)@.whole_frames
                    &&& final(self)@.samples_skipped == 0
                    &&& final(self)@.silence_dropped == 0
                }
                &&& final(self)@.seek_required_ts == old(self)@.seek_required_ts
                    || final(self)@.seek_required_ts is None
                &&& !final(self)@.enable_gapless && !final(self)@.finished
                    ==> final(self)@.current()
                    == final(self)@.mixed_block()
                &&& !final(self)@.finished ==> final(self)@.whole_frames
                    == final(self)@.whole_block()
                &&& final(self)@.enable_gapless ==> if final(self)@.finished {
                    final(self)@.samples_skipped == counted(final(self)@.silence_dropped as int)
                } else {
                    final(self)@.trimmed()
                }
                &&& final(self)@.output_channels == 2 && final(self)@.dropped_whole ==> {
                    &&& final(self)@.silence_dropped % 2 == 0
                    &&& final(self)@.samples_skipped < usize::MAX ==> final(self)@.samples_skipped
                        % 2 == 0
                }
            },
    {
        let mut budget: u64 = PACKET_LIMIT;
        while budget > 0
            invariant
                self@.wf(),
                self@.same_setup(old(self)@),
                !self@.is_paused,
                budget == PACKET_LIMIT ==> self@.whole_frames && self@.sample_rate == 0
                    && self@.silence_dropped == 0,
                budget < PACKET_LIMIT ==> self@.enable_gapless,
                budget < PACKET_LIMIT ==> (self@.sample_rate == 0 ==> self@.block_rate == 0),
                budget < PACKET_LIMIT ==> (self@.time_base is None ==> self@.sample_rate == 0
                    || self@.sample_rate > u32::MAX),
                old(self)@.time_base is Some ==> self@.time_base == old(self)@.time_base,
                old(self)@.time_base is None ==> self@.time_base is None || (0 < self@.sample_rate
                    <= u32::MAX && self@.time_base == Some(
                    TimeBase { numer: 1, denom: self@.sample_rate as u32 },
                )),
                self@.refusal == old(self)@.refusal,
                self@.way_back == old(self)@.way_back,
                self@.samples_skipped == counted(self@.silence_dropped as int),
                self@.output_channels == 2 && self@.dropped_whole ==> self@.silence_dropped % 2
                    == 0,
                self@.seek_required_ts == old(self)@.seek_required_ts
                    || self@.seek_required_ts is None,
            decreases budget,
        {
            budget -= 1;
            let ended = match self.next() {
                Ok(block) => block.is_none(),
                Err(error) => {
                    return Err(error);
                },
            };
            if self.time_base.is_none() && 0 < self.sample_rate
                && self.sample_rate <= u32::MAX as usize {
                self.time_base = Some(TimeBase { numer: 1, denom: self.sample_rate as u32 });
            }
            if ended {
                return Ok(());
            }
            if !self.settings.enable_gapless {
                return Ok(());
            }
            if self.drop_leading_silence() {
                return Ok(());
            }
        }
        Err(DecoderError::DecodeError(limit_reached("the packet limit of one call was reached")))
    }

    /// Opens a source: finds its format and its default audio track, makes a
    /// decoder for the track's codec and reads the first block.
    ///
    /// The decoder plays to `output_channels` channels at `volume`. With
    /// `enable_gapless`, the silence that leads the source is dropped: the
    /// first block then starts where the first sound is, unless the source
    /// ended before any sound came. A source that told no time base gets
    /// one tick for every sample. The sample rate is zero only where the
    /// source ended before a block came, or where the codec told a rate of
    /// zero of its blocks.
    pub fn new(
        stream: symphonia::core::io::MediaSourceStream<'static>,
        extension: Option<String>,
        volume: Volume,
        output_channels: usize,
        settings: DecoderSettings,
    ) -> (r: Result<Decoder, DecoderError>)
        ensures
            r matches Ok(decoder) ==> {
                &&& decoder@.wf()
                &&& !settings.enable_gapless ==> {
                    &&& decoder@.whole_frames
                    &&& decoder@.samples_skipped == 0
                    &&& decoder@.silence_dropped == 0
                }
                &&& decoder@.volume == volume
                &&& decoder@.output_channels == output_channels
                &&& decoder@.enable_gapless == settings.enable_gapless
                &&& !decoder@.is_paused
                &&& decoder@.seek_required_ts is None
                &&& !settings.enable_gapless && !decoder@.finished ==> decoder@.current()
                    == decoder@.mixed_block()
                &&& !decoder@.finished ==> decoder@.whole_frames == decoder@.whole_block()
                &&& settings.enable_gapless ==> if decoder@.finished {
                    decoder@.samples_skipped == counted(decoder@.silence_dropped as int)
                } else {
                    decoder@.trimmed()
                }
                &&& output_channels == 2 && decoder@.dropped_whole ==> {
                    &&& decoder@.silence_dropped % 2 == 0
                    &&& decoder@.samples_skipped < usize::MAX ==> decoder@.samples_skipped % 2
                        == 0
                }
                &&& decoder@.refusal is None
                &&& decoder@.way_back is None
                &&& decoder@.time_base is None ==> decoder@.sample_rate == 0
                    || decoder@.sample_rate > u32::MAX
                &&& decoder@.sample_rate == 0 ==> decoder@.finished || decoder@.block_rate == 0
            },
            r matches Err(error) ==> error.while_opening() || error.while_reading(),
    {
        let reader = match probe(stream, &extension) {
            Ok(reader) => reader,
            Err(error) => {
                return Err(DecoderError::FormatNotFound(error));
            },
        };
        let track = match audio_track(default_audio_track(&reader)) {
            Ok(track) => track,
            Err(error) => {
                return Err(error);
            },
        };
        let codec = match make_codec(&track.params, settings.enable_gapless) {
            Ok(codec) => codec,
            Err(error) => {
                return Err(DecoderError::UnsupportedCodec(error));
            },
        };
        let mut decoder = Decoder {
            buf: Vec::new(),
            sample_buf: Vec::new(),
            codec,
            reader,
            time_base: track.time_base,
            buf_len: 0,
            volume,
            track_id: track.id,
            input_channels: 0,
            output_channels,
            timestamp: 0,
            is_paused: false,
            sample_rate: 0,
            seek_required_ts: None,
            settings,
            finished: false,
            samples_skipped: 0,
            whole_frames: Ghost(true),
            used_ts: Ghost(Seq::empty()),
            silence_dropped: Ghost(0),
            dropped_whole: Ghost(true),
            refusal: Ghost(None),
            way_back: Ghost(None),
            block_channels: Ghost(0),
            block_rate: Ghost(0),
        };
        match decoder.initialize() {
            Ok(()) => Ok(decoder),
            Err(error) => Err(error),
        }
    }

    /// Where playback stands: the time that the timestamp of the current
    /// block comes to, and the reading of the system clock beside it.
    pub fn current_position(&self) -> (r: CurrentPosition)
        requires
            self@.wf(),
        ensures
            duration_secs(r.position) == self@.position() / 1000,
            duration_subsec(r.position) == (self@.position() % 1000) * 1_000_000,
    {
        let millis = self.position_millis();
        let now = system_now();
        CurrentPosition {
            position: duration_from_millis(millis),
            retrieval_time: since_unix_epoch(&now),
        }
    }

    /// The position in milliseconds.
    fn position_millis(&self) -> (millis: u64)
        requires
            self@.wf(),
        ensures
            millis == self@.position(),
    {
        match self.time_base {
            Some(tb) => position_of(tb, self.timestamp),
            None => 0,
        }
    }

    /// Asks the demuxer to go to a time, and moves the timestamp there where
    /// it does.
    fn reader_seek(
        &mut self,
        secs: u64,
        nanos: u32,
    ) -> (r: Result<SeekedTo, symphonia::core::errors::Error>)
        requires
            old(self)@.wf(),
            nanos < 1_000_000_000,
        ensures
            final(self)@ == (DecoderView { timestamp: final(self)@.timestamp, ..old(self)@ }),
            final(self).codec == old(self).codec,
            r is Err ==> final(self)@.timestamp == old(self)@.timestamp,
            r matches Ok(seeked) ==> final(self)@.timestamp == seek_target(
                old(self)@.time_base,
                secs,
                nanos,
                seeked.required_ts,
            ),
    {
        let whole: i64 = if secs > i64::MAX as u64 {
            i64::MAX
        } else {
            secs as i64
        };
        let res = seek_to_time(&mut self.reader, whole, nanos, self.track_id);
        match &res {
            Ok(seeked) => {
                self.timestamp = timestamp_after_seek(
                    self.time_base,
                    secs,
                    nanos,
                    seeked.required_ts,
                );
            },
            Err(_) => {},
        }
        res
    }

    /// Goes to a time in the source.
    ///
    /// Where the demuxer goes there, the packets before the timestamp that the
    /// seek asks for will be passed over, and the position is the time asked
    /// for at once. Where it refuses, it is asked to go back to where
    /// playback stood, to the millisecond: where it goes there, the refusal is
    /// reported and the packets before the timestamp that going back asks for
    /// will be passed over; where it does not, that failure is reported and
    /// the decoder stands where it stood. The codec is reset either way.
    pub fn seek(&mut self, time: Duration) -> (r: Result<SeekedTo, SeekError>)
        requires
            old(self)@.wf(),
        ensures
            final(self)@.wf(),
            final(self)@ == (DecoderView {
                timestamp: final(self)@.timestamp,
                seek_required_ts: final(self)@.seek_required_ts,
                finished: final(self)@.finished,
                refusal: final(self)@.refusal,
                way_back: final(self)@.way_back,
                ..old(self)@
            }),
            r matches Ok(seeked) ==> {
                &&& final(self)@.seek_required_ts == Some(seeked.required_ts)
                &&& !final(self)@.finished
                &&& final(self)@.timestamp == seek_target(
                    old(self)@.time_base,
                    duration_secs(time),
                    duration_subsec(time),
                    seeked.required_ts,
                )
                &&& final(self)@.refusal is None
                &&& final(self)@.way_back is None
            },
            r matches Err(error) ==> {
                &&& final(self)@.refusal matches Some(refusal)
                &&& final(self)@.way_back matches Some(back)
                &&& match back {
                    Ok(seeked) => {
                        &&& error == SeekError(refusal)
                        &&& final(self)@.seek_required_ts == Some(seeked.required_ts)
                        &&& !final(self)@.finished
                        &&& final(self)@.timestamp == seek_target(
                            old(self)@.time_base,
                            old(self)@.position() / 1000,
                            (((old(self)@.position() % 1000) as u32) * 1_000_000) as u32,
                            seeked.required_ts,
                        )
                    },
                    Err(failure) => {
                        &&& error == SeekError(failure)
                        &&& final(self)@.seek_required_ts == old(self)@.seek_required_ts
                        &&& final(self)@.finished == old(self)@.finished
                        &&& final(self)@.timestamp == old(self)@.timestamp
                    },
                }
            },
    {
        let previous = self.position_millis();
        let secs = duration_as_secs(&time);
        let nanos = duration_subsec_nanos(&time);
        let result = match self.reader_seek(secs, nanos) {
            Ok(seeked) => {
                self.seek_required_ts = Some(seeked.required_ts);
                self.finished = false;
                proof {
                    self.refusal = Ghost(None);
                    self.way_back = Ghost(None);
                }
                Ok(seeked)
            },
            Err(refusal) => {
                let back = self.reader_seek(
                    previous / 1000,
                    ((previous % 1000) as u32) * 1_000_000,
                );
                proof {
                    self.refusal = Ghost(Some(refusal));
                    self.way_back = Ghost(Some(back));
                }
                let (error, marker) = settle_refused_seek(refusal, back);
                match marker {
                    Some(required_ts) => {
                        self.seek_required_ts = Some(required_ts);
                        self.finished = false;
                    },
                    None => {},
                }
                Err(error)
            },
        };
        reset_codec(&mut self.codec);
        result
    }
}

} // verus!
