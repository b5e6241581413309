//! The output stage: the devices of a host, the stream that plays, and the
//! ring buffer between the writer and the stream.

pub mod audio_output;
pub mod backend;
pub mod builder;
pub mod config;
pub mod mock;
pub mod ring;
pub mod types;

pub use crate::output::audio_output::{AudioOutput, BufferLevels, WriteStep};
pub use crate::output::backend::{
    AudioBackend, Device, Host, OutputEvents, Stream, StreamErrorAction, StreamFeed,
};
pub use crate::output::builder::OutputBuilder;
pub use crate::output::mock::{MockDevice, MockHost, MockOutput, MockStream, NoEvents};
pub use crate::output::types::{
    AudioOutputError, BackendSpecificError, BufferSize, BuildStreamError, ChannelCount,
    DefaultStreamConfigError, DeviceNameError, DevicesError, FrameCount, HostId,
    HostUnavailableError, OutputSettings, PlayStreamError, RequestedOutputConfig, SampleFormat,
    SampleRate, StreamConfig, StreamError, SupportedBufferSize, SupportedStreamConfig,
    SupportedStreamConfigRange, SupportedStreamConfigsError, WriteBlockingError,
};
