//! A backend without hardware: devices made of plain values, and a stream
//! that asks for samples when it is told to.

use crate::output::backend::{AudioBackend, Device, Host, OutputEvents, Stream, StreamFeed};
use crate::output::types::{
    BackendSpecificError, BuildStreamError, DefaultStreamConfigError, DeviceNameError,
    DevicesError, PlayStreamError, SampleFormat, SampleRate, StreamConfig, SupportedBufferSize,
    SupportedStreamConfig, SupportedStreamConfigRange, SupportedStreamConfigsError,
};
use crate::sample::MID;
use std::time::Duration;
use vstd::prelude::*;

verus! {

/// How many samples the mock device asks for at a time.
pub const CALLBACK_SAMPLES: usize = 1024;

/// An owner that does not listen.
pub struct NoEvents;

impl OutputEvents for NoEvents {
    fn configuration_changed(&self) {
    }

    fn failed(&self, error: BackendSpecificError) {
    }
}

/// The stream of a mock device.
pub struct MockStream {
    pub started: bool,
}

impl MockStream {
    /// Whether the stream was told to play and not since to stop.
    pub fn is_started(&self) -> (b: bool)
        ensures
            b == self.started,
    {
        self.started
    }
}

impl Stream for MockStream {
    fn play(&mut self) -> (r: Result<(), PlayStreamError>)
        ensures
            r is Ok,
            final(self).started,
    {
        self.started = true;
        Ok(())
    }

    fn stop(&mut self) -> (r: Result<(), PlayStreamError>)
        ensures
            r is Ok,
            !final(self).started,
    {
        self.started = false;
        Ok(())
    }

    fn drain(&mut self, duration: Duration)
        ensures
            *final(self) == *old(self),
    {
    }
}

/// A device made of plain values.
pub struct MockDevice {
    pub name: String,
    pub default_config: SupportedStreamConfig,
    pub default_min_sample_rate: SampleRate,
    pub default_max_sample_rate: SampleRate,
    pub additional_configs: Vec<SupportedStreamConfigRange>,
    /// What the stream is fed from, once one was opened.
    pub feed: Option<StreamFeed>,
}

impl MockDevice {
    /// A device with a name, a default configuration, the range of sample
    /// rates at which the default configuration is supported, and further
    /// supported ranges.
    pub fn new(
        name: String,
        default_config: SupportedStreamConfig,
        default_min_sample_rate: SampleRate,
        default_max_sample_rate: SampleRate,
        additional_configs: Vec<SupportedStreamConfigRange>,
    ) -> (device: MockDevice)
        ensures
            device.name == name,
            device.default_config == default_config,
            device.default_min_sample_rate == default_min_sample_rate,
            device.default_max_sample_rate == default_max_sample_rate,
            device.additional_configs == additional_configs,
            !device.has_stream(),
    {
        MockDevice {
            name,
            default_config,
            default_min_sample_rate,
            default_max_sample_rate,
            additional_configs,
            feed: None,
        }
    }

    /// Whether two devices are made of the same values, whatever streams
    /// were opened on them.
    pub open spec fn like(&self, other: &MockDevice) -> bool {
        &&& self.name@ == other.name@
        &&& self.default_config == other.default_config
        &&& self.default_min_sample_rate == other.default_min_sample_rate
        &&& self.default_max_sample_rate == other.default_max_sample_rate
        &&& self.additional_configs@ == other.additional_configs@
    }

    /// Whether a stream was opened on this device.
    pub open spec fn has_stream(&self) -> bool {
        self.feed is Some
    }

    /// The ranges that the device supports: the default configuration over
    /// its range of sample rates, then the further ranges.
    pub open spec fn supported(&self) -> Seq<SupportedStreamConfigRange> {
        seq![
            SupportedStreamConfigRange {
                channels: self.default_config.channels,
                min_sample_rate: self.default_min_sample_rate,
                max_sample_rate: self.default_max_sample_rate,
                buffer_size: self.default_config.buffer_size,
                sample_format: self.default_config.sample_format,
            },
        ] + self.additional_configs@
    }

    /// The same device without a stream.
    pub fn duplicate(&self) -> (device: MockDevice)
        ensures
            device.like(self),
            !device.has_stream(),
    {
        let mut additional_configs: Vec<SupportedStreamConfigRange> = Vec::new();
        let mut i: usize = 0;
        while i < self.additional_configs.len()
            invariant
                i <= self.additional_configs@.len(),
                additional_configs@ == self.additional_configs@.subrange(0, i as int),
            decreases self.additional_configs@.len() - i,
        {
            additional_configs.push(self.additional_configs[i]);
            assert(additional_configs@ =~= self.additional_configs@.subrange(0, i + 1));
            i += 1;
        }
        assert(additional_configs@ =~= self.additional_configs@);
        MockDevice {
            name: self.name.clone(),
            default_config: self.default_config,
            default_min_sample_rate: self.default_min_sample_rate,
            default_max_sample_rate: self.default_max_sample_rate,
            additional_configs,
            feed: None,
        }
    }

    /// Asks the stream for samples as a device would, once, and returns what
    /// it was given: what the ring buffer held, then silence.
    pub fn trigger_callback(&self) -> (samples: Vec<i16>)
        requires
            self.has_stream(),
        ensures
            samples@.len() == CALLBACK_SAMPLES,
    {
        let mut samples: Vec<i16> = Vec::new();
        samples.resize(CALLBACK_SAMPLES, MID);
        match &self.feed {
            Some(feed) => {
                let _ = feed.fill(samples.as_mut_slice());
            },
            None => {},
        }
        samples
    }

    /// Reports to the stream's owner as a device would.
    pub fn trigger_error(&self, error: crate::output::types::StreamError)
        requires
            self.has_stream(),
    {
        match &self.feed {
            Some(feed) => {
                feed.on_error(error);
            },
            None => {},
        }
    }
}

impl Device for MockDevice {
    type Stream = MockStream;

    fn default_output_config(&self) -> (r: Result<SupportedStreamConfig, DefaultStreamConfigError>)
        ensures
            r == Ok::<SupportedStreamConfig, DefaultStreamConfigError>(self.default_config),
    {
        Ok(self.default_config)
    }

    fn name(&self) -> (r: Result<String, DeviceNameError>)
        ensures
            r matches Ok(name) && name@ == self.name@,
    {
        Ok(self.name.clone())
    }

    fn supported_output_configs(
        &self,
    ) -> (r: Result<Vec<SupportedStreamConfigRange>, SupportedStreamConfigsError>)
        ensures
            r matches Ok(ranges) && ranges@ == self.supported(),
    {
        let mut ranges: Vec<SupportedStreamConfigRange> = Vec::new();
        ranges.push(
            SupportedStreamConfigRange {
                channels: self.default_config.channels,
                min_sample_rate: self.default_min_sample_rate,
                max_sample_rate: self.default_max_sample_rate,
                buffer_size: self.default_config.buffer_size,
                sample_format: self.default_config.sample_format,
            },
        );
        let mut i: usize = 0;
        while i < self.additional_configs.len()
            invariant
                i <= self.additional_configs@.len(),
                ranges@ == self.supported().subrange(0, i + 1),
            decreases self.additional_configs@.len() - i,
        {
            ranges.push(self.additional_configs[i]);
            assert(ranges@ =~= self.supported().subrange(0, i + 2));
            i += 1;
        }
        assert(ranges@ =~= self.supported());
        Ok(ranges)
    }

    fn build_output_stream(
        &mut self,
        config: &StreamConfig,
        feed: StreamFeed,
    ) -> (r: Result<MockStream, BuildStreamError>)
        ensures
            r is Ok,
            final(self).has_stream(),
    {
        self.feed = Some(feed);
        Ok(MockStream { started: false })
    }
}

/// A host made of mock devices.
pub struct MockHost {
    pub default_device: MockDevice,
    pub additional_devices: Vec<MockDevice>,
}

impl MockHost {
    /// Whether two hosts have the same devices, whatever streams were opened
    /// on them.
    pub open spec fn like(&self, other: &MockHost) -> bool {
        &&& self.default_device.like(&other.default_device)
        &&& self.additional_devices@.len() == other.additional_devices@.len()
        &&& forall|i: int|
            0 <= i < self.additional_devices@.len() ==> (
            #[trigger] self.additional_devices@[i]).like(&other.additional_devices@[i])
    }

    /// Whether no stream was opened on a device of the host.
    pub open spec fn fresh(&self) -> bool {
        &&& !self.default_device.has_stream()
        &&& forall|i: int|
            0 <= i < self.additional_devices@.len() ==> !(
            #[trigger] self.additional_devices@[i]).has_stream()
    }

    /// The devices of the host as they are listed: the default device, then
    /// the others.
    pub open spec fn listed(&self) -> Seq<MockDevice> {
        seq![self.default_device] + self.additional_devices@
    }

    /// The same host, its devices without streams.
    pub fn duplicate(&self) -> (host: MockHost)
        ensures
            host.like(self),
            host.fresh(),
    {
        let mut additional_devices: Vec<MockDevice> = Vec::new();
        let mut i: usize = 0;
        while i < self.additional_devices.len()
            invariant
                i <= self.additional_devices@.len(),
                additional_devices@.len() == i,
                forall|k: int|
                    0 <= k < i ==> (#[trigger] additional_devices@[k]).like(
                        &self.additional_devices@[k],
                    ) && !additional_devices@[k].has_stream(),
            decreases self.additional_devices@.len() - i,
        {
            additional_devices.push(self.additional_devices[i].duplicate());
            i += 1;
        }
        MockHost { default_device: self.default_device.duplicate(), additional_devices }
    }
}

impl Default for MockHost {
    /// A host with one nameless stereo device at 44.1 kHz.
    fn default() -> (host: MockHost)
        ensures
            host.default_device.name@.len() == 0,
            host.default_device.default_config == (SupportedStreamConfig {
                channels: 2,
                sample_rate: SampleRate(44100),
                buffer_size: SupportedBufferSize::Range { min: 0, max: 9999 },
                sample_format: SampleFormat::F32,
            }),
            host.default_device.default_min_sample_rate == SampleRate(1024),
            host.default_device.default_max_sample_rate == SampleRate(192000),
            host.default_device.additional_configs@.len() == 0,
            host.additional_devices@.len() == 0,
    {
        MockHost {
            default_device: MockDevice::new(
                String::new(),
                SupportedStreamConfig {
                    channels: 2,
                    sample_rate: SampleRate(44100),
                    buffer_size: SupportedBufferSize::Range { min: 0, max: 9999 },
                    sample_format: SampleFormat::F32,
                },
                SampleRate(1024),
                SampleRate(192000),
                Vec::new(),
            ),
            additional_devices: Vec::new(),
        }
    }
}

impl Host for MockHost {
    type Device = MockDevice;

    fn default_output_device(&self) -> (r: Option<MockDevice>)
        ensures
            r matches Some(device) && device.like(&self.default_device) && !device.has_stream(),
    {
        Some(self.default_device.duplicate())
    }

    fn output_devices(&self) -> (r: Result<Vec<MockDevice>, DevicesError>)
        ensures
            r matches Ok(devices) && devices@.len() == self.listed().len() && forall|i: int|
                0 <= i < devices@.len() ==> (#[trigger] devices@[i]).like(&self.listed()[i])
                    && !devices@[i].has_stream(),
    {
        let mut devices: Vec<MockDevice> = Vec::new();
        devices.push(self.default_device.duplicate());
        let mut i: usize = 0;
        while i < self.additional_devices.len()
            invariant
                i <= self.additional_devices@.len(),
                devices@.len() == i + 1,
                forall|k: int|
                    0 <= k < i + 1 ==> (#[trigger] devices@[k]).like(&self.listed()[k])
                        && !devices@[k].has_stream(),
            decreases self.additional_devices@.len() - i,
        {
            devices.push(self.additional_devices[i].duplicate());
            i += 1;
        }
        Ok(devices)
    }
}

/// A backend whose host is given.
pub struct MockOutput {
    pub default_host: MockHost,
}

impl AudioBackend for MockOutput {
    type Host = MockHost;

    fn default_host(&self) -> (host: MockHost)
        ensures
            host.like(&self.default_host),
            host.fresh(),
    {
        self.default_host.duplicate()
    }
}

} // verus!
