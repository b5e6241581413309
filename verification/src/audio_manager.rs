//! The manager: it owns the output and the resampler, and sequences what
//! happens to them when a source starts, plays and ends.

use crate::decoder::resampler::{
    DecoderResult, ResampledDecoder, ResampledView, ResamplerSettings,
};
use crate::decoder::{Decoder, DecoderError, DecoderSettings, DecoderView, PACKET_LIMIT};
use crate::output::audio_output::{ring_size_for, AudioOutput};
use crate::output::backend::AudioBackend;
use crate::output::backend::Host;
use crate::output::builder::{chosen, closest_of, default_config_of, wanted_name, OutputBuilder};
use crate::output::types::{
    AudioOutputError, RequestedOutputConfig, SampleFormat, SampleRate, SupportedStreamConfig,
    WriteBlockingError,
};
use crate::sample::Volume;
use vstd::prelude::*;

verus! {

/// Why a block could not be played.
#[derive(Debug)]
pub enum WriteOutputError {
    DecoderError(DecoderError),
    WriteBlockingError(WriteBlockingError),
}

/// Why the output could not be set up for a source.
#[derive(Debug)]
pub enum ResetError {
    AudioOutputError(AudioOutputError),
    WriteBlockingError(WriteBlockingError),
    DecoderError(DecoderError),
}

/// How thoroughly the output is set up for a source.
#[derive(Clone, Copy, Debug, PartialEq, Eq, Structural)]
pub enum ResetMode {
    /// Only what has changed is made anew.
    Default,
    /// Everything is made anew, as after the device was lost.
    Force,
}

/// What has to be made anew for a source.
#[derive(Clone, Copy, Debug, PartialEq, Eq, Structural)]
pub struct ResetFlags {
    /// The output, because the configuration to play at is another.
    pub output_config_changed: bool,
    /// The rate that comes in is another.
    pub in_sample_rate_changed: bool,
    /// The resampler, because the rate or the channels that go out are
    /// others.
    pub resampler_config_changed: bool,
}

impl ResetFlags {
    /// Whether anything has to be made anew.
    pub open spec fn any(self) -> bool {
        self.output_config_changed || self.in_sample_rate_changed || self.resampler_config_changed
    }
}

/// What has to be made anew, as a function of where the manager stands and
/// where it is to go.
pub open spec fn flags_for(
    current: SupportedStreamConfig,
    resampler_in_rate: usize,
    resampler_out_rate: usize,
    resampler_channels: usize,
    target: SupportedStreamConfig,
    decoder_rate: usize,
    device_changed: bool,
    mode: ResetMode,
) -> ResetFlags {
    if mode == ResetMode::Force {
        ResetFlags {
            output_config_changed: true,
            in_sample_rate_changed: true,
            resampler_config_changed: true,
        }
    } else {
        ResetFlags {
            output_config_changed: target != current || device_changed,
            in_sample_rate_changed: decoder_rate != resampler_in_rate,
            resampler_config_changed: target.sample_rate.0 != resampler_out_rate || target.channels
                != resampler_channels,
        }
    }
}

/// Works out what has to be made anew for a source: the output where the
/// configuration to play at is another than the current one or another
/// device was picked, the resampler
/// where the rate or the channels that go out are others than it was made
/// for; and whether the rate that comes in is another. A forced reset makes
/// everything anew.
pub fn reset_flags(
    current: &SupportedStreamConfig,
    resampler_in_rate: usize,
    resampler_out_rate: usize,
    resampler_channels: usize,
    target: &SupportedStreamConfig,
    decoder_rate: usize,
    device_changed: bool,
    mode: ResetMode,
) -> (flags: ResetFlags)
    ensures
        flags == flags_for(
            *current,
            resampler_in_rate,
            resampler_out_rate,
            resampler_channels,
            *target,
            decoder_rate,
            device_changed,
            mode,
        ),
{
    match mode {
        ResetMode::Force => ResetFlags {
            output_config_changed: true,
            in_sample_rate_changed: true,
            resampler_config_changed: true,
        },
        ResetMode::Default => ResetFlags {
            output_config_changed: !(*target == *current) || device_changed,
            in_sample_rate_changed: decoder_rate != resampler_in_rate,
            resampler_config_changed: target.sample_rate.0 as usize != resampler_out_rate
                || target.channels as usize != resampler_channels,
        },
    }
}

/// Once the output and the resampler are made for a target and have met a
/// source, nothing has to be made anew for the same target and source: a
/// reset that is not forced finds nothing to do, and a forced one makes anew
/// what is there already.
pub proof fn lemma_reset_settles(target: SupportedStreamConfig, decoder_rate: usize)
    ensures
        !flags_for(
            target,
            decoder_rate,
            target.sample_rate.0 as usize,
            target.channels as usize,
            target,
            decoder_rate,
            false,
            ResetMode::Default,
        ).any(),
        flags_for(
            target,
            decoder_rate,
            target.sample_rate.0 as usize,
            target.channels as usize,
            target,
            decoder_rate,
            false,
            ResetMode::Force,
        ) == (ResetFlags {
            output_config_changed: true,
            in_sample_rate_changed: true,
            resampler_config_changed: true,
        }),
{
}

/// The rate to ask the output for, for a source of a rate: the rate itself,
/// or the highest that can be asked for.
pub fn requested_rate(decoder_rate: usize) -> (rate: SampleRate)
    ensures
        rate.0 == if decoder_rate > u32::MAX {
            u32::MAX
        } else {
            decoder_rate as u32
        },
{
    if decoder_rate > u32::MAX as usize {
        SampleRate(u32::MAX)
    } else {
        SampleRate(decoder_rate as u32)
    }
}

/// What the output is asked for, for a source of a rate: that rate, or the
/// highest that can be asked for; the channels that are played now; and
/// samples of sixteen bits.
pub open spec fn request_of(decoder_rate: usize, channels: u32) -> RequestedOutputConfig {
    RequestedOutputConfig {
        sample_rate: Some(
            SampleRate(
                if decoder_rate > u32::MAX {
                    u32::MAX
                } else {
                    decoder_rate as u32
                },
            ),
        ),
        channels: Some(channels),
        sample_format: Some(SampleFormat::I16),
    }
}

/// What the output is asked for, for a source of a rate: that rate, the
/// channels that are played now, and samples of sixteen bits.
pub fn request_for(decoder_rate: usize, channels: u32) -> (request: RequestedOutputConfig)
    ensures
        request == request_of(decoder_rate, channels),
{
    RequestedOutputConfig {
        sample_rate: Some(requested_rate(decoder_rate)),
        channels: Some(channels),
        sample_format: Some(SampleFormat::I16),
    }
}

/// Whether two names that may be asked for are the same.
pub fn same_names(a: &Option<String>, b: &Option<String>) -> (same: bool)
    ensures
        same == (wanted_name(*a) == wanted_name(*b)),
{
    match a {
        Some(a) => match b {
            Some(b) => *a == *b,
            None => false,
        },
        None => b.is_none(),
    }
}

/// The manager of one output.
pub struct AudioManager<B: AudioBackend> {
    output_builder: OutputBuilder<B>,
    output_config: SupportedStreamConfig,
    output: AudioOutput<B>,
    resampled: ResampledDecoder,
    device_name: Option<String>,
    resampler_settings: ResamplerSettings,
    volume: Volume,
}

impl<B: AudioBackend> AudioManager<B> {
    /// The configuration that the output plays at.
    pub closed spec fn output_config(&self) -> SupportedStreamConfig {
        self.output_config
    }

    /// The output.
    pub closed spec fn output(&self) -> AudioOutput<B> {
        self.output
    }

    /// The resampled decoder.
    pub closed spec fn resampled(&self) -> ResampledDecoder {
        self.resampled
    }

    /// The volume that decoders are made with.
    pub closed spec fn volume(&self) -> Volume {
        self.volume
    }

    /// The name of the device to play on; `None` for the default device.
    pub closed spec fn device_name(&self) -> Option<String> {
        self.device_name
    }

    /// The builder of the manager's outputs.
    pub closed spec fn builder(&self) -> OutputBuilder<B> {
        self.output_builder
    }

    /// What resamplers are set up with.
    pub closed spec fn settings(&self) -> ResamplerSettings {
        self.resampler_settings
    }

    /// Whether the manager plays through the same output as before, at the
    /// same configuration, with `more` written to it behind what was
    /// written before.
    pub open spec fn wrote(&self, before: &Self, more: Seq<i16>) -> bool {
        &&& self.output().written() == before.output().written() + more
        &&& self.output().capacity() == before.output().capacity()
        &&& self.output().made_on() == before.output().made_on()
        &&& self.output_config() == before.output_config()
        &&& self.builder() == before.builder()
    }

    /// The current block of a decoder, as the manager plays it.
    pub open spec fn current(&self, decoder: DecoderView) -> Seq<i16> {
        self.resampled()@.current(decoder)
    }

    /// Whether the ring buffer holds a block beside all that was written to
    /// the output, whatever the device has played of it.
    pub open spec fn fits(&self, block: Seq<i16>) -> bool {
        self.output().written().len() + block.len() <= self.output().capacity()
    }

    /// Whether the manager plays through the same output as before, at the
    /// same configuration, with nothing taken from what was written to it
    /// before.
    pub open spec fn added(&self, before: &Self) -> bool {
        exists|more: Seq<i16>| #[trigger] self.wrote(before, more)
    }

    /// What is written in two steps is written in one: first the one, then
    /// the other.
    pub proof fn lemma_wrote_twice(
        first: &Self,
        second: &Self,
        third: &Self,
        more: Seq<i16>,
        still_more: Seq<i16>,
    )
        requires
            second.wrote(first, more),
            third.wrote(second, still_more),
        ensures
            third.wrote(first, more + still_more),
    {
        assert(first.output().written() + more + still_more =~= first.output().written() + (more
            + still_more));
    }

    /// What `flush` writes: the block that the resampler makes of what waits
    /// in it, or nothing where nothing waits.
    pub open spec fn flushed(&self, before: &Self) -> Seq<i16> {
        if before.resampled()@.pending.len() > 0 {
            self.resampled()@.out_buf
        } else {
            Seq::<i16>::empty()
        }
    }

    /// What has to be made anew to play a source of a rate at a target
    /// configuration.
    pub open spec fn changes(
        &self,
        target: SupportedStreamConfig,
        decoder_rate: usize,
        mode: ResetMode,
    ) -> ResetFlags {
        flags_for(
            self.output_config(),
            self.resampled()@.in_sample_rate,
            self.resampled()@.out_sample_rate,
            self.resampled()@.channels,
            target,
            decoder_rate,
            self.device_changes(),
            mode,
        )
    }

    /// Whether a decoder's current block is written to the ring buffer of a
    /// target configuration before the stream is started, where the output
    /// is made anew for a decoder of the target's rate: it is, where the
    /// block is not empty and no longer than the buffer.
    pub open spec fn primes(&self, target: SupportedStreamConfig, decoder: DecoderView) -> bool {
        &&& decoder.sample_rate == target.sample_rate.0
        &&& 0 < decoder.current().len() <= ring_size_for(target)
    }

    /// Whether the first block of a new resampler is written to the ring
    /// buffer of a target configuration before the stream is started, where
    /// the output is made anew for a decoder of another rate than the
    /// target's: it is, where the resampler is made anew and its block is no
    /// longer than the buffer; unless the source ended before it filled a
    /// chunk.
    pub open spec fn chunk_primes(
        &self,
        target: SupportedStreamConfig,
        decoder: DecoderView,
        mode: ResetMode,
        made: ResampledView,
    ) -> bool {
        &&& decoder.sample_rate != target.sample_rate.0
        &&& self.changes(target, decoder.sample_rate, mode).resampler_config_changed
            || self.changes(target, decoder.sample_rate, mode).in_sample_rate_changed
        &&& 0 < made.frames_out * made.channels <= ring_size_for(target)
    }

    /// Whether the device to play on was picked anew since the output was
    /// made: the name asked for is another than the one that the builder
    /// made the last output for.
    pub open spec fn device_changes(&self) -> bool {
        wanted_name(self.device_name()) != wanted_name(self.builder().pinned_device())
    }

    /// What holds of every manager: the output and the resampler are made
    /// for the configuration that the manager plays at, the ring buffer
    /// holds what that configuration plays in the time it is made for, and
    /// the output writes into its own ring buffer.
    pub open spec fn wf(&self) -> bool {
        &&& self.resampled().wf()
        &&& self.output().linked()
        &&& self.output().config() == self.output_config()
        &&& self.output().capacity() == crate::output::audio_output::ring_size_for(
            self.output_config(),
        )
        &&& self.resampled()@.out_sample_rate == self.output_config().sample_rate.0
        &&& self.resampled()@.channels == self.output_config().channels
    }

    /// A manager on the default device of the builder's host, at the
    /// default configuration of that device.
    pub fn new(
        mut output_builder: OutputBuilder<B>,
        resampler_settings: ResamplerSettings,
    ) -> (r: Result<Self, AudioOutputError>)
        ensures
            r matches Ok(manager) ==> {
                &&& manager.wf()
                &&& manager.volume().raw == crate::sample::UNITY_GAIN
                &&& manager.device_name() is None
                &&& manager.settings() == resampler_settings
                &&& !manager.output().is_running()
                &&& manager.resampled()@.native
                &&& manager.builder().host() == output_builder.host()
                &&& default_config_of(
                    output_builder.host(),
                    Ok::<SupportedStreamConfig, AudioOutputError>(manager.output_config()),
                )
                &&& chosen(
                    output_builder.host(),
                    None,
                    Ok::<<B::Host as Host>::Device, AudioOutputError>(
                        manager.output().device_spec(),
                    ),
                )
            },
            r matches Err(error) ==> {
                ||| default_config_of(
                    output_builder.host(),
                    Err::<SupportedStreamConfig, AudioOutputError>(error),
                )
                ||| chosen(
                    output_builder.host(),
                    None,
                    Err::<<B::Host as Host>::Device, AudioOutputError>(error),
                )
                ||| error is UnsupportedConfiguration && exists|config: SupportedStreamConfig|
                    #[trigger] default_config_of(
                        output_builder.host(),
                        Ok::<SupportedStreamConfig, AudioOutputError>(config),
                    ) && !crate::output::audio_output::ring_fits(config)
            },
    {
        let output_config = match output_builder.default_output_config() {
            Ok(config) => config,
            Err(error) => {
                return Err(error);
            },
        };
        let output = match output_builder.new_output(None, output_config) {
            Ok(output) => output,
            Err(error) => {
                return Err(error);
            },
        };
        let resampled = ResampledDecoder::new(
            output_config.sample_rate.0 as usize,
            output_config.channels as usize,
            resampler_settings,
        );
        Ok(
            AudioManager {
                output_config,
                output_builder,
                output,
                resampled,
                device_name: None,
                resampler_settings,
                volume: Volume::unity(),
            },
        )
    }

    /// The configuration that the output plays at.
    pub fn config(&self) -> (config: &SupportedStreamConfig)
        ensures
            *config == self.output_config(),
    {
        &self.output_config
    }

    /// The output.
    pub fn audio_output(&self) -> (output: &AudioOutput<B>)
        ensures
            *output == self.output(),
    {
        &self.output
    }

    /// The resampled decoder.
    pub fn resampler(&self) -> (resampled: &ResampledDecoder)
        ensures
            *resampled == self.resampled(),
    {
        &self.resampled
    }

    /// What resamplers are set up with.
    pub fn resampler_settings(&self) -> (settings: &ResamplerSettings)
        ensures
            *settings == self.settings(),
    {
        &self.resampler_settings
    }

    /// Changes what the resamplers to come are set up with.
    pub fn set_resampler_settings(&mut self, settings: ResamplerSettings)
        ensures
            final(self).settings() == settings,
            final(self).output_config() == old(self).output_config(),
            final(self).output() == old(self).output(),
            final(self).builder() == old(self).builder(),
            final(self).resampled() == old(self).resampled(),
            final(self).volume() == old(self).volume(),
            final(self).device_name() == old(self).device_name(),
    {
        self.resampler_settings = settings;
    }

    /// Picks the device to play on by name, or the default device; the
    /// choice is taken up when the output is next set up.
    pub fn set_device(&mut self, device: Option<String>)
        ensures
            final(self).device_name() == device,
            final(self).output_config() == old(self).output_config(),
            final(self).output() == old(self).output(),
            final(self).builder() == old(self).builder(),
            final(self).resampled() == old(self).resampled(),
            final(self).volume() == old(self).volume(),
            final(self).settings() == old(self).settings(),
    {
        self.device_name = device;
    }

    /// The builder of the manager's outputs.
    pub fn output_builder(&self) -> (builder: &OutputBuilder<B>)
        ensures
            *builder == self.builder(),
    {
        &self.output_builder
    }

    /// Looks whether the default device is another than the one last seen,
    /// as the builder of the manager's outputs does: the owner is told where
    /// it is, unless the manager plays on a device that was picked by name,
    /// and the name to hold against the next look is returned.
    pub fn watch_default_device(&self, seen: String) -> (now: String)
        ensures
            self.builder().pinned_device() is Some ==> now == seen,
            self.builder().pinned_device() is None ==> crate::output::builder::default_name_of(
                self.builder().host(),
                now@,
            ),
    {
        self.output_builder.watch_default_device(seen)
    }

    /// Sets the volume that the decoders to come are made with.
    pub fn set_volume(&mut self, volume: Volume)
        ensures
            final(self).volume() == volume,
            final(self).output_config() == old(self).output_config(),
            final(self).output() == old(self).output(),
            final(self).builder() == old(self).builder(),
            final(self).resampled() == old(self).resampled(),
            final(self).device_name() == old(self).device_name(),
            final(self).settings() == old(self).settings(),
    {
        self.volume = volume;
    }

    /// Opens a source at the manager's volume, for the channels that the
    /// output plays, and sets the output up for it.
    ///
    /// Where the source cannot be opened, the manager is left as it was.
    /// Otherwise the output is set up as `reset` says; the resampler has
    /// then met the rate that the source told when it was opened, which is
    /// the decoder's rate unless the codec told a rate of zero of the first
    /// block.
    pub fn init_decoder(
        &mut self,
        stream: symphonia::core::io::MediaSourceStream<'static>,
        extension: Option<String>,
        decoder_settings: DecoderSettings,
    ) -> (r: Result<Decoder, ResetError>)
        requires
            old(self).wf(),
        ensures
            final(self).wf(),
            r matches Ok(decoder) ==> {
                &&& decoder@.wf()
                &&& decoder@.volume == old(self).volume()
                &&& decoder@.output_channels == old(self).output_config().channels
                &&& decoder@.enable_gapless == decoder_settings.enable_gapless
                &&& final(self).output().is_running()
                &&& final(self).resampled()@.in_sample_rate == decoder@.sample_rate
                    || final(self).resampled()@.in_sample_rate == 0
                &&& final(self).resampled()@.native == (final(self).resampled()@.in_sample_rate
                    == final(self).output_config().sample_rate.0)
                &&& closest_of(
                    old(self).builder().host(),
                    wanted_name(old(self).device_name()),
                    request_of(
                        final(self).resampled()@.in_sample_rate,
                        old(self).output_config().channels,
                    ),
                    Ok::<SupportedStreamConfig, AudioOutputError>(final(self).output_config()),
                )
                &&& !final(self).changes(
                    final(self).output_config(),
                    final(self).resampled()@.in_sample_rate,
                    ResetMode::Default,
                ).any()
            },
            r matches Err(ResetError::DecoderError(error)) && error.while_opening()
                ==> *final(self) == *old(self),
            final(self).volume() == old(self).volume(),
            final(self).device_name() == old(self).device_name(),
            final(self).settings() == old(self).settings(),
            final(self).builder().host() == old(self).builder().host(),
    {
        let opened = Decoder::new(
            stream,
            extension,
            self.volume,
            self.output_config.channels as usize,
            decoder_settings,
        );
        self.take_opened(opened)
    }

    /// Takes what came of opening a source: where it was opened, the output
    /// is set up for it as `reset` says, and the decoder is handed back;
    /// where it was not, the reason is passed on and the manager is left as
    /// it was.
    pub fn take_opened(
        &mut self,
        opened: Result<Decoder, DecoderError>,
    ) -> (r: Result<Decoder, ResetError>)
        requires
            old(self).wf(),
            opened matches Ok(decoder) ==> decoder@.wf(),
        ensures
            final(self).wf(),
            final(self).volume() == old(self).volume(),
            final(self).device_name() == old(self).device_name(),
            final(self).settings() == old(self).settings(),
            final(self).builder().host() == old(self).builder().host(),
            opened matches Err(error) ==> {
                &&& r == Err::<Decoder, ResetError>(ResetError::DecoderError(error))
                &&& *final(self) == *old(self)
            },
            opened matches Ok(decoder) ==> {
                &&& r matches Err(ResetError::DecoderError(error)) ==> error.while_reading()
                &&& r matches Ok(met) ==> {
                    &&& met@.wf()
                    &&& met@.same_setup(decoder@)
                    &&& decoder@.sample_rate != 0 ==> met@.sample_rate == decoder@.sample_rate
                    &&& !decoder@.is_paused && decoder@.finished ==> met == decoder
                    &&& final(self).output().is_running()
                    &&& final(self).resampled()@.in_sample_rate == decoder@.sample_rate
                    &&& final(self).resampled()@.native
                        == (decoder@.sample_rate == final(self).output_config().sample_rate.0)
                    &&& closest_of(
                        old(self).builder().host(),
                        wanted_name(old(self).device_name()),
                        request_of(decoder@.sample_rate, old(self).output_config().channels),
                        Ok::<SupportedStreamConfig, AudioOutputError>(
                            final(self).output_config(),
                        ),
                    )
                    &&& !final(self).changes(
                        final(self).output_config(),
                        decoder@.sample_rate,
                        ResetMode::Default,
                    ).any()
                }
            },
    {
        let mut decoder = match opened {
            Ok(decoder) => decoder,
            Err(error) => {
                return Err(ResetError::DecoderError(error));
            },
        };
        match self.reset(&mut decoder, ResetMode::Default) {
            Ok(()) => Ok(decoder),
            Err(error) => Err(error),
        }
    }

    /// Meets a decoder without setting the output up anew: what waits in the
    /// resampler is played out first where the decoder has another rate than
    /// the last.
    pub fn initialize(&mut self, decoder: &mut Decoder) -> (r: Result<(), ResetError>)
        requires
            old(self).wf(),
            old(decoder)@.wf(),
        ensures
            final(self).wf(),
            final(decoder)@.wf(),
            final(decoder)@.same_setup(old(decoder)@),
            final(self).output_config() == old(self).output_config(),
            final(self).resampled()@.in_sample_rate == old(decoder)@.sample_rate,
            old(decoder)@.sample_rate == old(self).resampled()@.in_sample_rate
                && !old(self).resampled()@.must_make(old(decoder)@.sample_rate) ==> {
                &&& r is Ok
                &&& *final(decoder) == *old(decoder)
                &&& final(self).output() == old(self).output()
            },
            r matches Err(ResetError::DecoderError(error)) ==> error.while_reading(),
            old(decoder)@.sample_rate != 0 ==> final(decoder)@.sample_rate
                == old(decoder)@.sample_rate,
            !old(decoder)@.is_paused && old(decoder)@.finished ==> *final(decoder) == *old(decoder),
    {
        let flushed = if decoder.sample_rate() != self.resampled.in_sample_rate() {
            self.flush_output()
        } else {
            Ok(())
        };
        let met = self.resampled.initialize(decoder);
        match flushed {
            Err(error) => Err(ResetError::WriteBlockingError(error)),
            Ok(()) => match met {
                Ok(()) => Ok(()),
                Err(error) => Err(ResetError::DecoderError(error)),
            },
        }
    }

    /// Sets the output up for a decoder.
    ///
    /// The configuration to play at is the one of the device that comes
    /// closest to the decoder's rate at the channels that are played now;
    /// with it, the output is set up as `reset_to` says.
    pub fn reset(&mut self, decoder: &mut Decoder, mode: ResetMode) -> (r: Result<(), ResetError>)
        requires
            old(self).wf(),
            old(decoder)@.wf(),
        ensures
            final(self).wf(),
            final(decoder)@.wf(),
            final(decoder)@.same_setup(old(decoder)@),
            final(self).volume() == old(self).volume(),
            final(self).device_name() == old(self).device_name(),
            final(self).settings() == old(self).settings(),
            final(self).builder().host() == old(self).builder().host(),
            r matches Err(ResetError::DecoderError(error)) ==> error.while_reading(),
            old(decoder)@.sample_rate != 0 ==> final(decoder)@.sample_rate
                == old(decoder)@.sample_rate,
            !old(decoder)@.is_paused && old(decoder)@.finished ==> *final(decoder) == *old(decoder),
            r is Ok ==> {
                &&& closest_of(
                    old(self).builder().host(),
                    wanted_name(old(self).device_name()),
                    request_of(old(decoder)@.sample_rate, old(self).output_config().channels),
                    Ok::<SupportedStreamConfig, AudioOutputError>(final(self).output_config()),
                )
                &&& final(self).output().is_running()
                &&& final(self).resampled()@.in_sample_rate == old(decoder)@.sample_rate
                &&& final(self).resampled()@.native == (old(decoder)@.sample_rate
                    == final(self).output_config().sample_rate.0)
                &&& !final(self).changes(
                    final(self).output_config(),
                    old(decoder)@.sample_rate,
                    ResetMode::Default,
                ).any()
            },
            r is Ok && !old(self).changes(
                final(self).output_config(),
                old(decoder)@.sample_rate,
                mode,
            ).any() ==> {
                &&& final(self).output().same_but_stream(&old(self).output())
                &&& old(decoder)@.sample_rate == final(self).output_config().sample_rate.0
                    ==> *final(decoder) == *old(decoder)
            },
            r is Ok && !old(self).changes(
                final(self).output_config(),
                old(decoder)@.sample_rate,
                mode,
            ).output_config_changed ==> final(self).output().made_on()
                == old(self).output().made_on(),
            r is Ok && old(self).changes(
                final(self).output_config(),
                old(decoder)@.sample_rate,
                mode,
            ).any() ==> final(decoder)@.finished || !final(self).fits(
                final(self).current(final(decoder)@),
            ),
            r is Ok && old(self).changes(
                final(self).output_config(),
                old(decoder)@.sample_rate,
                mode,
            ).output_config_changed ==> {
                &&& chosen(
                    old(self).builder().host(),
                    wanted_name(old(self).device_name()),
                    Ok::<<B::Host as Host>::Device, AudioOutputError>(
                        final(self).output().made_on(),
                    ),
                )
                &&& old(self).primes(final(self).output_config(), old(decoder)@)
                    ==> final(self).output().written().len() > 0
                &&& old(self).chunk_primes(
                    final(self).output_config(),
                    old(decoder)@,
                    mode,
                    final(self).resampled()@,
                ) ==> final(self).output().written().len() > 0 || final(decoder)@.finished
            },
    {
        let target = match self.closest_config(decoder.sample_rate()) {
            Ok(target) => target,
            Err(error) => {
                return Err(ResetError::AudioOutputError(error));
            },
        };
        self.reset_to(decoder, target, mode)
    }

    /// Sets the output up for a decoder, to play at a target configuration.
    ///
    /// Where nothing has changed and the reset is not forced, the resampler
    /// meets the decoder and the stream is started. Otherwise what waits is
    /// played out and the stream stopped; the output is made anew where the
    /// configuration is another or another device was named since the last
    /// output was made, on the device that is named now, and the resampler
    /// where its rate or its channels are others; the resampler meets the
    /// decoder; the ring buffer is filled with the first blocks; and the
    /// stream is started. An output that was made anew starts with the first
    /// block in its ring buffer, where the block fits.
    pub fn reset_to(
        &mut self,
        decoder: &mut Decoder,
        target: SupportedStreamConfig,
        mode: ResetMode,
    ) -> (r: Result<(), ResetError>)
        requires
            old(self).wf(),
            old(decoder)@.wf(),
        ensures
            final(self).wf(),
            final(decoder)@.wf(),
            final(decoder)@.same_setup(old(decoder)@),
            final(self).volume() == old(self).volume(),
            final(self).device_name() == old(self).device_name(),
            final(self).settings() == old(self).settings(),
            final(self).builder().host() == old(self).builder().host(),
            r matches Err(ResetError::DecoderError(error)) ==> error.while_reading(),
            old(decoder)@.sample_rate != 0 ==> final(decoder)@.sample_rate
                == old(decoder)@.sample_rate,
            !old(decoder)@.is_paused && old(decoder)@.finished ==> *final(decoder) == *old(decoder),
            final(self).output_config() == old(self).output_config()
                || final(self).output_config() == target,
            r is Ok ==> {
                &&& final(self).output_config() == target
                &&& final(self).output().is_running()
                &&& final(self).resampled()@.in_sample_rate == old(decoder)@.sample_rate
                &&& final(self).resampled()@.native == (old(decoder)@.sample_rate
                    == target.sample_rate.0)
                &&& !final(self).changes(
                    target,
                    old(decoder)@.sample_rate,
                    ResetMode::Default,
                ).any()
            },
            !old(self).changes(target, old(decoder)@.sample_rate, mode).any() ==> {
                &&& final(self).output_config() == old(self).output_config()
                &&& final(self).output().same_but_stream(&old(self).output())
                &&& old(decoder)@.sample_rate == target.sample_rate.0 ==> *final(decoder)
                    == *old(decoder)
                &&& old(decoder)@.sample_rate == target.sample_rate.0
                    && old(self).output().is_running() ==> r is Ok
            },
            !old(self).changes(target, old(decoder)@.sample_rate, mode).output_config_changed
                ==> final(self).output().made_on() == old(self).output().made_on(),
            old(self).changes(target, old(decoder)@.sample_rate, mode).any() ==> {
                &&& r is Err ==> !final(self).output().is_running()
                &&& r is Ok ==> final(decoder)@.finished || !final(self).fits(
                    final(self).current(final(decoder)@),
                )
                &&& r is Ok && !old(self).changes(
                    target,
                    old(decoder)@.sample_rate,
                    mode,
                ).output_config_changed ==> {
                    &&& final(self).added(old(self))
                    &&& old(self).resampled()@.pending.len() > 0
                        ==> final(self).output().written().len()
                            >= old(self).output().written().len()
                                + old(self).resampled()@.frames_out
                                * old(self).resampled()@.channels
                }
            },
            r is Ok && old(self).changes(
                target,
                old(decoder)@.sample_rate,
                mode,
            ).output_config_changed ==> {
                &&& chosen(
                    old(self).builder().host(),
                    wanted_name(old(self).device_name()),
                    Ok::<<B::Host as Host>::Device, AudioOutputError>(
                        final(self).output().made_on(),
                    ),
                )
                &&& old(self).primes(target, old(decoder)@)
                    ==> final(self).output().written().len() > 0
                &&& old(self).chunk_primes(target, old(decoder)@, mode, final(self).resampled()@)
                    ==> final(self).output().written().len() > 0 || final(decoder)@.finished
            },
    {
        let device_changed = !same_names(&self.device_name, self.output_builder.pinned());
        let flags = reset_flags(
            &self.output_config,
            self.resampled.in_sample_rate(),
            self.resampled.out_sample_rate(),
            self.resampled.channels(),
            &target,
            decoder.sample_rate(),
            device_changed,
            mode,
        );
        if !flags.output_config_changed && !flags.in_sample_rate_changed
            && !flags.resampler_config_changed {
            proof {
                self.output.lemma_same_as_itself();
            }
            match self.resampled.initialize(decoder) {
                Ok(()) => {},
                Err(error) => {
                    return Err(ResetError::DecoderError(error));
                },
            }
            return match self.output.start() {
                Ok(()) => Ok(()),
                Err(error) => Err(ResetError::AudioOutputError(error)),
            };
        }
        match self.flush() {
            Ok(()) => {},
            Err(error) => {
                return Err(ResetError::WriteBlockingError(error));
            },
        }
        let ghost played_out = *self;
        if flags.output_config_changed {
            let name: Option<String> = match &self.device_name {
                Some(name) => Some(name.clone()),
                None => None,
            };
            let output = match self.output_builder.new_output(name, target) {
                Ok(output) => output,
                Err(error) => {
                    return Err(ResetError::AudioOutputError(error));
                },
            };
            if flags.resampler_config_changed {
                self.resampled = ResampledDecoder::new(
                    target.sample_rate.0 as usize,
                    target.channels as usize,
                    self.resampler_settings,
                );
            }
            self.output = output;
            self.output_config = target;
        } else if flags.resampler_config_changed {
            self.resampled = ResampledDecoder::new(
                self.output_config.sample_rate.0 as usize,
                self.output_config.channels as usize,
                self.resampler_settings,
            );
        }
        let ghost made = self.resampled()@;
        match self.resampled.initialize(decoder) {
            Ok(()) => {},
            Err(error) => {
                return Err(ResetError::DecoderError(error));
            },
        }
        proof {
            if flags.output_config_changed && old(decoder)@.sample_rate != target.sample_rate.0
                && (flags.resampler_config_changed || flags.in_sample_rate_changed) {
                assert(made.must_make(old(decoder)@.sample_rate));
                assert(self.output().written().len() == 0);
                assert(self.output().capacity() == ring_size_for(target));
                assert(self.current(decoder@) == self.resampled()@.out_buf);
                assert(self.resampled()@.out_buf.len() == self.resampled()@.frames_out
                    * self.resampled()@.channels || decoder@.finished);
            }
        }
        let ghost met = *self;
        let ghost met_decoder = decoder@;
        match self.prefill(decoder) {
            Ok(()) => {},
            Err(error) => {
                return Err(ResetError::DecoderError(error));
            },
        }
        let ghost mut total: Seq<i16> = Seq::empty();
        proof {
            if !flags.output_config_changed {
                let block = played_out.flushed(old(self));
                let more = choose|more: Seq<i16>| #[trigger] self.wrote(&met, more);
                assert(met.output().written() =~= played_out.output().written()
                    + Seq::<i16>::empty());
                assert(met.wrote(&played_out, Seq::<i16>::empty()));
                Self::lemma_wrote_twice(
                    old(self),
                    &played_out,
                    &met,
                    block,
                    Seq::<i16>::empty(),
                );
                Self::lemma_wrote_twice(
                    old(self),
                    &met,
                    self,
                    block + Seq::<i16>::empty(),
                    more,
                );
                total = block + Seq::<i16>::empty() + more;
                assert(self.wrote(old(self), total));
            }
            assert(self.resampled()@.channels == met.resampled()@.channels);
            assert(self.resampled()@.frames_out == met.resampled()@.frames_out);
            if old(self).chunk_primes(target, old(decoder)@, mode, self.resampled()@)
                && flags.output_config_changed && !met_decoder.finished {
                assert(met.current(met_decoder).len() == self.resampled()@.frames_out
                    * self.resampled()@.channels);
                assert(met.fits(met.current(met_decoder)));
                assert(self.output().written().len() > 0);
            }
        }
        let started = self.output.start();
        proof {
            if !flags.output_config_changed {
                assert(self.wrote(old(self), total));
            }
        }
        match started {
            Ok(()) => Ok(()),
            Err(error) => Err(ResetError::AudioOutputError(error)),
        }
    }

    /// The configuration of the device that comes closest to what
    /// `request_for` asks for a source of a rate; the device is the one that
    /// was picked by name, or the default device.
    fn closest_config(
        &self,
        decoder_rate: usize,
    ) -> (r: Result<SupportedStreamConfig, AudioOutputError>)
        ensures
            closest_of(
                self.builder().host(),
                wanted_name(self.device_name()),
                request_of(decoder_rate, self.output_config().channels),
                r,
            ),
    {
        let wanted: Option<&str> = match &self.device_name {
            Some(name) => Some(name.as_str()),
            None => None,
        };
        self.output_builder.find_closest_config(
            wanted,
            request_for(decoder_rate, self.output_config.channels),
        )
    }

    /// Fills the ring buffer with blocks before the stream is started: block
    /// after block, as long as the next one fits and the source has more.
    fn prefill(&mut self, decoder: &mut Decoder) -> (r: Result<(), DecoderError>)
        requires
            old(self).wf(),
            old(decoder)@.wf(),
        ensures
            final(self).wf(),
            final(decoder)@.wf(),
            final(decoder)@.same_setup(old(decoder)@),
            final(self).output().is_running() == old(self).output().is_running(),
            final(self).added(old(self)),
            !(r matches Err(DecoderError::Recoverable(_))),
            r matches Err(error) ==> error.while_reading(),
            0 < old(self).current(old(decoder)@).len() && old(self).fits(
                old(self).current(old(decoder)@),
            ) ==> final(self).output().written().len() > old(self).output().written().len(),
            final(self).output_config() == old(self).output_config(),
            final(self).volume() == old(self).volume(),
            final(self).device_name() == old(self).device_name(),
            final(self).settings() == old(self).settings(),
            final(self).resampled()@.native == old(self).resampled()@.native,
            final(self).resampled()@.in_sample_rate == old(self).resampled()@.in_sample_rate,
            final(self).resampled()@.frames_out == old(self).resampled()@.frames_out,
            old(decoder)@.finished ==> final(decoder)@.finished,
            old(decoder)@.sample_rate != 0 ==> final(decoder)@.sample_rate
                == old(decoder)@.sample_rate,
            r is Ok ==> final(decoder)@.finished || !final(self).fits(
                final(self).current(final(decoder)@),
            ),
            !old(decoder)@.is_paused && old(decoder)@.finished ==> *final(decoder) == *old(decoder),
    {
        let mut budget: u64 = PACKET_LIMIT;
        let ghost owed = 0 < self.current(decoder@).len() && self.fits(self.current(decoder@));
        let ghost mut more: Seq<i16> = Seq::empty();
        assert(self.output().written() =~= old(self).output().written() + more);
        while budget > 0
            invariant
                self.wf(),
                decoder@.wf(),
                decoder@.same_setup(old(decoder)@),
                self.output().is_running() == old(self).output().is_running(),
                self.wrote(old(self), more),
                self.added(old(self)),
                old(self).wf(),
                owed ==> more.len() > 0 || (budget == PACKET_LIMIT && self.resampled()@
                    == old(self).resampled()@ && decoder@ == old(decoder)@),
                owed == (0 < old(self).current(old(decoder)@).len() && old(self).fits(
                    old(self).current(old(decoder)@),
                )),
                self.output_config() == old(self).output_config(),
                self.volume() == old(self).volume(),
                self.device_name() == old(self).device_name(),
                self.settings() == old(self).settings(),
                self.resampled()@.native == old(self).resampled()@.native,
                self.resampled()@.in_sample_rate == old(self).resampled()@.in_sample_rate,
                self.resampled()@.frames_out == old(self).resampled()@.frames_out,
                old(decoder)@.finished ==> decoder@.finished,
                old(decoder)@.sample_rate != 0 ==> decoder@.sample_rate
                    == old(decoder)@.sample_rate,
                !old(decoder)@.is_paused && old(decoder)@.finished ==> *decoder == *old(decoder),
            decreases budget,
        {
            budget -= 1;
            let fits = self.resampled.current(decoder).len()
                <= self.output.buffer_space_available();
            if !fits {
                return Ok(());
            }
            let ghost block = self.resampled()@.current(decoder@);
            let outcome = self.output.write(self.resampled.current(decoder));
            match outcome {
                Ok(n) => {
                    proof {
                        assert(old(self).output().written() + more + block.subrange(0, n as int)
                            =~= old(self).output().written() + (more + block.subrange(
                            0,
                            n as int,
                        )));
                        more = more + block.subrange(0, n as int);
                    }
                },
                Err(_) => {
                    assert(self.wrote(old(self), more));
                    return Ok(());
                },
            }
            let advanced = self.resampled.decode_next_frame(decoder);
            assert(self.wrote(old(self), more));
            match advanced {
                Ok(DecoderResult::Unfinished) => {},
                Ok(DecoderResult::Finished) => {
                    return Ok(());
                },
                Err(error) => {
                    return Err(error);
                },
            }
        }
        Err(
            DecoderError::DecodeError(
                crate::decoder::media::limit_reached("the packet limit of one call was reached"),
            ),
        )
    }

    /// Plays the current block and advances to the next. The write waits
    /// for room in the ring buffer.
    pub fn write(&mut self, decoder: &mut Decoder) -> (r: Result<DecoderResult, WriteOutputError>)
        requires
            old(self).wf(),
            old(decoder)@.wf(),
        ensures
            final(self).wf(),
            final(decoder)@.wf(),
            final(decoder)@.same_setup(old(decoder)@),
            final(self).output().is_running() == old(self).output().is_running(),
            final(self).output_config() == old(self).output_config(),
            final(self).volume() == old(self).volume(),
            final(self).device_name() == old(self).device_name(),
            final(self).settings() == old(self).settings(),
            r matches Ok(DecoderResult::Finished) ==> final(decoder)@.finished,
            !(r matches Err(WriteOutputError::WriteBlockingError(_))) ==> final(self).wrote(
                old(self),
                old(self).current(old(decoder)@),
            ),
            r matches Err(WriteOutputError::WriteBlockingError(_)) ==> {
                &&& *final(decoder) == *old(decoder)
                &&& final(self).resampled() == old(self).resampled()
                &&& exists|n: int|
                    0 <= n < old(self).current(old(decoder)@).len()
                        && #[trigger] final(self).wrote(
                        old(self),
                        old(self).current(old(decoder)@).subrange(0, n),
                    )
            },
            !(r matches Err(WriteOutputError::DecoderError(DecoderError::Recoverable(_)))),
            old(self).fits(old(self).current(old(decoder)@)) ==> !(r matches Err(
                WriteOutputError::WriteBlockingError(_),
            )),
            r matches Err(WriteOutputError::DecoderError(error)) ==> error.while_reading(),
            r matches Err(WriteOutputError::WriteBlockingError(_))
                ==> final(self).output().capacity() <= final(self).output().written().len(),
            old(self).resampled()@.native ==> final(self).resampled() == old(self).resampled(),
            old(self).fits(old(self).current(old(decoder)@)) ==> {
                &&& old(self).resampled()@.native && old(decoder)@.is_paused ==> {
                    &&& r matches Ok(DecoderResult::Unfinished)
                    &&& final(decoder)@ == old(decoder)@.silenced()
                }
                &&& !old(decoder)@.is_paused && old(decoder)@.finished ==> {
                    &&& r is Ok
                    &&& *final(decoder) == *old(decoder)
                    &&& old(self).resampled()@.native ==> r matches Ok(DecoderResult::Finished)
                }
            },
    {
        let ghost block = self.current(decoder@);
        let ghost before = self.output().written();
        match self.output.write_blocking(self.resampled.current(decoder)) {
            Ok(()) => {},
            Err(error) => {
                proof {
                    let n = choose|n: int|
                        0 <= n < block.len() && self.output().written() == before
                            + #[trigger] block.subrange(0, n);
                    assert(self.wrote(old(self), block.subrange(0, n)));
                }
                return Err(WriteOutputError::WriteBlockingError(error));
            },
        }
        match self.resampled.decode_next_frame(decoder) {
            Ok(result) => Ok(result),
            Err(error) => Err(WriteOutputError::DecoderError(error)),
        }
    }

    /// Plays a source to its end: block after block, then what waits in the
    /// resampler; the device is given the time to play what is buffered, and
    /// the stream is stopped.
    pub fn write_all(&mut self, decoder: &mut Decoder) -> (r: Result<(), WriteOutputError>)
        requires
            old(self).wf(),
            old(decoder)@.wf(),
        ensures
            final(self).wf(),
            final(decoder)@.wf(),
            final(decoder)@.same_setup(old(decoder)@),
            final(self).output_config() == old(self).output_config(),
            final(self).added(old(self)),
            r is Ok ==> {
                &&& final(decoder)@.finished
                &&& !final(self).output().is_running()
                &&& final(self).resampled()@.pending.len() == 0
            },
            r matches Err(WriteOutputError::DecoderError(error)) ==> error.while_reading(),
            r matches Err(WriteOutputError::WriteBlockingError(_))
                ==> final(self).output().capacity() <= final(self).output().written().len(),
            old(self).resampled()@.native && !old(decoder)@.is_paused && old(decoder)@.finished
                && old(self).fits(old(self).current(old(decoder)@)) ==> {
                &&& r is Ok
                &&& *final(decoder) == *old(decoder)
                &&& final(self).wrote(old(self), old(self).current(old(decoder)@))
            },
    {
        let mut budget: u64 = PACKET_LIMIT;
        let ghost mut more: Seq<i16> = Seq::empty();
        let ghost owed = self.resampled()@.native && !decoder@.is_paused && decoder@.finished
            && self.fits(self.current(decoder@));
        assert(self.output().written() =~= old(self).output().written() + more);
        assert(self.wrote(old(self), more));
        while budget > 0
            invariant
                self.wf(),
                decoder@.wf(),
                decoder@.same_setup(old(decoder)@),
                self.wrote(old(self), more),
                self.added(old(self)),
                self.output_config() == old(self).output_config(),
                budget == PACKET_LIMIT ==> *self == *old(self) && *decoder == *old(decoder)
                    && more.len() == 0,
                owed ==> budget == PACKET_LIMIT,
                owed == (old(self).resampled()@.native && !old(decoder)@.is_paused
                    && old(decoder)@.finished && old(self).fits(old(self).current(old(decoder)@))),
            decreases budget,
        {
            let ghost first = budget == PACKET_LIMIT;
            budget -= 1;
            let ghost before = *self;
            let ghost block = self.resampled()@.current(decoder@);
            match self.write(decoder) {
                Ok(DecoderResult::Finished) => {
                    let ghost played = *self;
                    proof {
                        Self::lemma_wrote_twice(old(self), &before, &played, more, block);
                        if owed {
                            assert(first);
                            played.resampled().lemma_native_holds_nothing();
                            assert(more + block =~= block);
                            assert(played.fits(Seq::<i16>::empty()));
                        }
                    }
                    return match self.flush() {
                        Ok(()) => {
                            proof {
                                Self::lemma_wrote_twice(
                                    old(self),
                                    &played,
                                    self,
                                    more + block,
                                    self.flushed(&played),
                                );
                                if owed {
                                    assert(first);
                                    played.resampled().lemma_native_holds_nothing();
                                    assert(more + block + self.flushed(&played) =~= block);
                                }
                            }
                            Ok(())
                        },
                        Err(error) => {
                            proof {
                                let n = choose|n: int|
                                    0 <= n < self.flushed(&played).len() && #[trigger] self.wrote(
                                        &played,
                                        self.flushed(&played).subrange(0, n),
                                    );
                                Self::lemma_wrote_twice(
                                    old(self),
                                    &played,
                                    self,
                                    more + block,
                                    self.flushed(&played).subrange(0, n),
                                );
                            }
                            Err(WriteOutputError::WriteBlockingError(error))
                        },
                    };
                },
                Ok(DecoderResult::Unfinished) => {
                    proof {
                        Self::lemma_wrote_twice(old(self), &before, self, more, block);
                        more = more + block;
                    }
                },
                Err(WriteOutputError::WriteBlockingError(error)) => {
                    proof {
                        let n = choose|n: int|
                            0 <= n < block.len() && #[trigger] self.wrote(
                                &before,
                                block.subrange(0, n),
                            );
                        Self::lemma_wrote_twice(
                            old(self),
                            &before,
                            self,
                            more,
                            block.subrange(0, n),
                        );
                    }
                    return Err(WriteOutputError::WriteBlockingError(error));
                },
                Err(error) => {
                    proof {
                        Self::lemma_wrote_twice(old(self), &before, self, more, block);
                    }
                    return Err(error);
                },
            }
        }
        Err(
            WriteOutputError::DecoderError(
                DecoderError::DecodeError(
                    crate::decoder::media::limit_reached(
                        "the packet limit of one call was reached",
                    ),
                ),
            ),
        )
    }

    /// Plays out what waits in the resampler, gives the device the time to
    /// play what is buffered, and stops the stream. The device is not waited
    /// for where the write failed.
    pub fn flush(&mut self) -> (r: Result<(), WriteBlockingError>)
        requires
            old(self).wf(),
        ensures
            final(self).wf(),
            !final(self).output().is_running(),
            final(self).output_config() == old(self).output_config(),
            final(self).resampled()@.pending.len() == 0,
            final(self).resampled()@.native == old(self).resampled()@.native,
            final(self).resampled()@.in_sample_rate == old(self).resampled()@.in_sample_rate,
            final(self).resampled()@.frames_out == old(self).resampled()@.frames_out,
            final(self).resampled()@.channels == old(self).resampled()@.channels,
            old(self).resampled()@.pending.len() > 0 ==> {
                &&& final(self).resampled()@.gives_block()
                &&& final(self).resampled()@.fed == old(self).resampled()@.pending + Seq::new(
                    (old(self).resampled()@.chunk_samples()
                        - old(self).resampled()@.pending.len()) as nat,
                    |i: int| crate::sample::MID,
                )
            },
            final(self).volume() == old(self).volume(),
            final(self).device_name() == old(self).device_name(),
            final(self).settings() == old(self).settings(),
            r is Ok ==> final(self).wrote(old(self), final(self).flushed(old(self))),
            old(self).fits(final(self).flushed(old(self))) ==> r is Ok,
            r is Err ==> final(self).output().capacity() <= final(self).output().written().len(),
            r is Err ==> exists|n: int|
                0 <= n < final(self).flushed(old(self)).len() && #[trigger] final(self).wrote(
                    old(self),
                    final(self).flushed(old(self)).subrange(0, n),
                ),
    {
        let res = self.flush_output();
        let ghost written = *self;
        if res.is_ok() {
            self.output.drain();
        }
        self.output.stop();
        proof {
            if res is Err {
                let n = choose|n: int|
                    0 <= n < written.flushed(old(self)).len() && #[trigger] written.wrote(
                        old(self),
                        written.flushed(old(self)).subrange(0, n),
                    );
                assert(self.wrote(old(self), self.flushed(old(self)).subrange(0, n)));
            }
        }
        res
    }

    /// Writes what waits in the resampler to the output.
    fn flush_output(&mut self) -> (r: Result<(), WriteBlockingError>)
        requires
            old(self).wf(),
        ensures
            final(self).wf(),
            final(self).output().is_running() == old(self).output().is_running(),
            final(self).output_config() == old(self).output_config(),
            r is Ok ==> final(self).wrote(old(self), final(self).flushed(old(self))),
            old(self).fits(final(self).flushed(old(self))) ==> r is Ok,
            r is Err ==> final(self).output().capacity() <= final(self).output().written().len(),
            r is Err ==> exists|n: int|
                0 <= n < final(self).flushed(old(self)).len() && #[trigger] final(self).wrote(
                    old(self),
                    final(self).flushed(old(self)).subrange(0, n),
                ),
            final(self).resampled()@.pending.len() == 0,
            final(self).resampled()@.native == old(self).resampled()@.native,
            final(self).resampled()@.in_sample_rate == old(self).resampled()@.in_sample_rate,
            final(self).resampled()@.frames_out == old(self).resampled()@.frames_out,
            final(self).resampled()@.channels == old(self).resampled()@.channels,
            old(self).resampled()@.pending.len() > 0 ==> {
                &&& final(self).resampled()@.gives_block()
                &&& final(self).resampled()@.fed == old(self).resampled()@.pending + Seq::new(
                    (old(self).resampled()@.chunk_samples()
                        - old(self).resampled()@.pending.len()) as nat,
                    |i: int| crate::sample::MID,
                )
            },
            final(self).volume() == old(self).volume(),
            final(self).device_name() == old(self).device_name(),
            final(self).settings() == old(self).settings(),
    {
        let ghost before = self.output().written();
        let block = self.resampled.flush();
        let ghost flushed = block@;
        let r = self.output.write_blocking(block);
        proof {
            if r is Err {
                let n = choose|n: int|
                    0 <= n < flushed.len() && self.output().written() == before
                        + #[trigger] flushed.subrange(0, n);
                assert(self.wrote(old(self), self.flushed(old(self)).subrange(0, n)));
            }
        }
        r
    }
}

} // verus!
