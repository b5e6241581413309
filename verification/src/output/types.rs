//! The value types of the output stage: what a device supports, what a
//! stream is opened with, and the errors of the layers below.

use std::time::Duration;
use vstd::prelude::*;

verus! {

/// A count of frames.
pub type FrameCount = u32;

/// A count of channels.
pub type ChannelCount = u32;

/// What a backend says of itself where none of the other variants fits.
#[derive(Clone, Debug)]
pub struct BackendSpecificError(pub String);

/// Why a stream could not be started or stopped.
#[derive(Debug)]
pub enum PlayStreamError {
    DeviceNotAvailable,
    BackendSpecific(BackendSpecificError),
}

/// Why the name of a device could not be read.
#[derive(Debug)]
pub enum DeviceNameError {
    BackendSpecific(BackendSpecificError),
}

/// Why the configurations that a device supports could not be listed.
#[derive(Debug)]
pub enum SupportedStreamConfigsError {
    DeviceNotAvailable,
    InvalidArgument,
    BackendSpecific(BackendSpecificError),
}

/// Why the default configuration of a device could not be read.
#[derive(Debug)]
pub enum DefaultStreamConfigError {
    DeviceNotAvailable,
    StreamTypeNotSupported,
    BackendSpecific(BackendSpecificError),
}

/// Why a stream could not be opened.
#[derive(Debug)]
pub enum BuildStreamError {
    DeviceNotAvailable,
    StreamConfigNotSupported,
    InvalidArgument,
    StreamIdOverflow,
    BackendSpecific(BackendSpecificError),
}

/// What a running stream reports.
#[derive(Debug)]
pub enum StreamError {
    /// The device is gone.
    DeviceNotAvailable,
    /// The stream is no longer valid, as after a change of the device's
    /// configuration.
    StreamInvalidated,
    /// The backend failed in a way of its own.
    BackendSpecific(BackendSpecificError),
    /// The device delivered input faster than it was taken.
    InputOverflow,
    /// The device ran out of samples to play.
    BufferUnderrun,
}

/// Why the devices of a host could not be listed.
#[derive(Debug)]
pub enum DevicesError {
    BackendSpecific(BackendSpecificError),
}

/// Why a host is not available.
#[derive(Debug)]
pub enum HostUnavailableError {
    HostUnavailable,
}

/// The format of one sample as a device takes it.
#[derive(PartialEq, Eq, Structural, Debug, Clone, Copy)]
pub enum SampleFormat {
    I8,
    I16,
    I24,
    I32,
    I64,
    U8,
    U16,
    U24,
    U32,
    U64,
    F32,
    F64,
}

/// The buffer sizes that a device supports.
#[derive(PartialEq, Eq, Structural, Debug, Clone, Copy)]
pub enum SupportedBufferSize {
    Range { min: FrameCount, max: FrameCount },
    /// The platform gives no way to know before a stream is started.
    Unknown,
}

/// A sample rate in hertz.
#[derive(PartialEq, Eq, Structural, PartialOrd, Ord, Debug, Clone, Copy)]
pub struct SampleRate(pub u32);

/// The identifier of a host.
#[derive(PartialEq, Eq, Structural, PartialOrd, Ord, Debug, Clone, Copy)]
pub struct HostId(pub u32);

/// The buffer size that a stream is opened with.
#[derive(PartialEq, Eq, Structural, PartialOrd, Ord, Debug, Clone, Copy)]
pub enum BufferSize {
    Default,
    Fixed(FrameCount),
}

/// One configuration that a device supports.
#[derive(PartialEq, Eq, Structural, Debug, Clone, Copy)]
pub struct SupportedStreamConfig {
    pub channels: ChannelCount,
    pub sample_rate: SampleRate,
    pub buffer_size: SupportedBufferSize,
    pub sample_format: SampleFormat,
}

/// What a stream is opened with.
#[derive(PartialEq, Eq, Structural, Debug, Clone, Copy)]
pub struct StreamConfig {
    pub channels: ChannelCount,
    pub sample_rate: SampleRate,
    pub buffer_size: BufferSize,
}

/// A range of configurations that a device supports: all sample rates from
/// the lowest to the highest, both included.
#[derive(PartialEq, Eq, Structural, Debug, Clone, Copy)]
pub struct SupportedStreamConfigRange {
    pub channels: ChannelCount,
    pub min_sample_rate: SampleRate,
    pub max_sample_rate: SampleRate,
    pub buffer_size: SupportedBufferSize,
    pub sample_format: SampleFormat,
}

/// Why an output could not be set up.
#[derive(Debug)]
pub enum AudioOutputError {
    NoDefaultDevice,
    OutputDeviceConfigError(DefaultStreamConfigError),
    OpenStreamError(BuildStreamError),
    StartStreamError(PlayStreamError),
    UnsupportedConfiguration(String),
    LoadDevicesError(DevicesError),
    LoadConfigsError(SupportedStreamConfigsError),
}

/// What a caller asks of the output; what is left open is taken from the
/// device's default.
#[derive(PartialEq, Eq, Structural, Debug, Clone, Copy)]
pub struct RequestedOutputConfig {
    pub sample_rate: Option<SampleRate>,
    pub channels: Option<ChannelCount>,
    pub sample_format: Option<SampleFormat>,
}

/// How the output behaves.
#[derive(Clone, Copy)]
pub struct OutputSettings {
    /// How long a blocking write waits for room before it gives up, and how
    /// long the device is given to play out what is buffered.
    pub buffer_duration: Duration,
}

/// Why a blocking write gave up.
#[derive(PartialEq, Eq, Structural, Debug, Clone, Copy)]
pub enum WriteBlockingError {
    OutputStalled,
}

impl SupportedStreamConfig {
    /// The configuration with these parts.
    pub fn new(
        channels: ChannelCount,
        sample_rate: SampleRate,
        buffer_size: SupportedBufferSize,
        sample_format: SampleFormat,
    ) -> (config: SupportedStreamConfig)
        ensures
            config == (SupportedStreamConfig { channels, sample_rate, buffer_size, sample_format }),
    {
        SupportedStreamConfig { channels, sample_rate, buffer_size, sample_format }
    }

    pub fn channels(&self) -> (channels: ChannelCount)
        ensures
            channels == self.channels,
    {
        self.channels
    }

    pub fn sample_rate(&self) -> (rate: SampleRate)
        ensures
            rate == self.sample_rate,
    {
        self.sample_rate
    }

    pub fn buffer_size(&self) -> (size: &SupportedBufferSize)
        ensures
            *size == self.buffer_size,
    {
        &self.buffer_size
    }

    pub fn sample_format(&self) -> (format: SampleFormat)
        ensures
            format == self.sample_format,
    {
        self.sample_format
    }
}

impl SupportedStreamConfigRange {
    /// The range with these parts.
    pub fn new(
        channels: ChannelCount,
        min_sample_rate: SampleRate,
        max_sample_rate: SampleRate,
        buffer_size: SupportedBufferSize,
        sample_format: SampleFormat,
    ) -> (range: SupportedStreamConfigRange)
        ensures
            range == (SupportedStreamConfigRange {
                channels,
                min_sample_rate,
                max_sample_rate,
                buffer_size,
                sample_format,
            }),
    {
        SupportedStreamConfigRange {
            channels,
            min_sample_rate,
            max_sample_rate,
            buffer_size,
            sample_format,
        }
    }

    /// The configuration of this range at one sample rate.
    pub fn with_sample_rate(self, sample_rate: SampleRate) -> (config: SupportedStreamConfig)
        ensures
            config == self.at_rate(sample_rate),
    {
        SupportedStreamConfig {
            channels: self.channels,
            sample_rate,
            buffer_size: self.buffer_size,
            sample_format: self.sample_format,
        }
    }

    /// The configuration of this range at one sample rate.
    pub open spec fn at_rate(self, sample_rate: SampleRate) -> SupportedStreamConfig {
        SupportedStreamConfig {
            channels: self.channels,
            sample_rate,
            buffer_size: self.buffer_size,
            sample_format: self.sample_format,
        }
    }

    /// Whether the range offers these channels and this format at this rate.
    pub open spec fn offers(
        self,
        channels: ChannelCount,
        sample_rate: SampleRate,
        sample_format: SampleFormat,
    ) -> bool {
        &&& self.channels == channels
        &&& self.sample_format == sample_format
        &&& self.min_sample_rate.0 <= sample_rate.0 <= self.max_sample_rate.0
    }
}

impl Default for OutputSettings {
    fn default() -> (settings: OutputSettings)
        ensures
            crate::decoder::time::duration_secs(settings.buffer_duration) == 0,
            crate::decoder::time::duration_subsec(settings.buffer_duration) == 200_000_000,
    {
        OutputSettings { buffer_duration: crate::decoder::time::duration_from_millis(200) }
    }
}

} // verus!
