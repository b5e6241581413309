//! What a backend has to offer: hosts, devices, streams, and what a stream
//! is fed from.

use crate::output::ring::ring_read;
use crate::output::types::{
    BackendSpecificError, BuildStreamError, DefaultStreamConfigError, DeviceNameError,
    DevicesError, PlayStreamError, StreamConfig, StreamError, SupportedStreamConfig,
    SupportedStreamConfigRange, SupportedStreamConfigsError,
};
use crate::sample::MID;
use std::sync::Arc;
use std::time::Duration;
use vstd::prelude::*;

verus! {

/// Where the output tells its owner what happened to the stream.
pub trait OutputEvents: Send + Sync {
    /// The device is gone or its configuration changed: the output has to be
    /// set up anew.
    fn configuration_changed(&self);

    /// The backend reported a failure of its own.
    fn failed(&self, error: BackendSpecificError);
}

/// A stream that plays what it is fed.
pub trait Stream {
    fn play(&mut self) -> Result<(), PlayStreamError>;

    fn stop(&mut self) -> Result<(), PlayStreamError>;

    /// Gives the device the time to play out what is buffered.
    fn drain(&mut self, duration: Duration);
}

/// An output device.
pub trait Device {
    type Stream: Stream;

    fn default_output_config(&self) -> Result<SupportedStreamConfig, DefaultStreamConfigError>;

    fn name(&self) -> Result<String, DeviceNameError>;

    fn supported_output_configs(
        &self,
    ) -> Result<Vec<SupportedStreamConfigRange>, SupportedStreamConfigsError>;

    /// Opens a stream. Whenever the device wants samples it calls `fill` on
    /// the feed, and whatever the stream reports it hands to `on_error`.
    fn build_output_stream(
        &mut self,
        config: &StreamConfig,
        feed: StreamFeed,
    ) -> Result<Self::Stream, BuildStreamError>;
}

/// A host and its devices.
pub trait Host {
    type Device: Device;

    fn default_output_device(&self) -> Option<Self::Device>;

    fn output_devices(&self) -> Result<Vec<Self::Device>, DevicesError>;
}

/// A backend: where hosts come from.
pub trait AudioBackend {
    type Host: Host;

    fn default_host(&self) -> Self::Host;
}

/// What is done about something that a stream reports.
#[derive(Debug)]
pub enum StreamErrorAction {
    /// The owner is told that the output has to be set up anew.
    Reconfigure,
    /// The owner is told of the failure.
    Report(BackendSpecificError),
    /// Nothing is done.
    Ignore,
}

/// Decides what is done about something that a stream reports: a device that
/// is gone and a stream that is no longer valid ask for a new setup, a
/// failure of the backend is passed on, and an overflow or underrun is let
/// go.
pub fn stream_error_action(error: StreamError) -> (action: StreamErrorAction)
    ensures
        action == match error {
            StreamError::DeviceNotAvailable => StreamErrorAction::Reconfigure,
            StreamError::StreamInvalidated => StreamErrorAction::Reconfigure,
            StreamError::BackendSpecific(failure) => StreamErrorAction::Report(failure),
            StreamError::InputOverflow => StreamErrorAction::Ignore,
            StreamError::BufferUnderrun => StreamErrorAction::Ignore,
        },
{
    match error {
        StreamError::DeviceNotAvailable => StreamErrorAction::Reconfigure,
        StreamError::StreamInvalidated => StreamErrorAction::Reconfigure,
        StreamError::BackendSpecific(failure) => StreamErrorAction::Report(failure),
        StreamError::InputOverflow => StreamErrorAction::Ignore,
        StreamError::BufferUnderrun => StreamErrorAction::Ignore,
    }
}

/// Overwrites what lies behind the first `written` samples with silence.
pub fn mute_tail(data: &mut [i16], written: usize)
    ensures
        final(data)@.len() == old(data)@.len(),
        forall|i: int| 0 <= i < old(data)@.len() ==> #[trigger] final(data)@[i] == if i < written {
            old(data)@[i]
        } else {
            MID
        },
{
    let n = data.len();
    let mut i: usize = written;
    while i < n
        invariant
            n == data@.len(),
            data@.len() == old(data)@.len(),
            i >= written,
            forall|j: int|
                0 <= j < n ==> #[trigger] data@[j] == if j < written || j >= i {
                    old(data)@[j]
                } else {
                    MID
                },
        decreases n - i,
    {
        data[i] = MID;
        i += 1;
    }
}

/// `Arc::clone`: another handle to the same value.
#[verifier::external_body]
pub(crate) fn share_events(
    events: &Arc<Box<dyn OutputEvents>>,
) -> (shared: Arc<Box<dyn OutputEvents>>)
    ensures
        shared == *events,
{
    Arc::clone(events)
}

/// What a stream is fed from: the reading end of the ring buffer, and the
/// owner's ear for what the stream reports.
pub struct StreamFeed {
    pub(crate) consumer: rb::Consumer<i16>,
    pub(crate) events: Arc<Box<dyn OutputEvents>>,
}

impl StreamFeed {
    /// Fills what the device asks for: as many samples as the ring buffer
    /// has, then silence. Returns how many samples came from the buffer.
    pub fn fill(&self, data: &mut [i16]) -> (written: usize)
        ensures
            final(data)@.len() == old(data)@.len(),
            written <= old(data)@.len(),
            forall|i: int| written <= i < old(data)@.len() ==> #[trigger] final(data)@[i] == MID,
    {
        let written = match ring_read(&self.consumer, data) {
            Ok(written) => written,
            Err(_) => 0,
        };
        mute_tail(data, written);
        written
    }

    /// Takes what the stream reports and tells the owner what concerns it.
    pub fn on_error(&self, error: StreamError) {
        match stream_error_action(error) {
            StreamErrorAction::Reconfigure => {
                self.events.configuration_changed();
            },
            StreamErrorAction::Report(failure) => {
                self.events.failed(failure);
            },
            StreamErrorAction::Ignore => {},
        }
    }
}

} // verus!
