//! The output: a ring buffer that the writer fills and a stream that plays
//! what is in it.

use crate::output::backend::{
    share_events, AudioBackend, Device, Host, OutputEvents, Stream, StreamFeed,
};
use crate::decoder::time::{
    duration_as_secs, duration_from_millis, duration_secs, duration_subsec,
};
use crate::output::ring::{
    produced, ring_capacity, ring_consumer, ring_count, ring_is_full, ring_new, ring_of,
    ring_size, ring_slots_free, ring_write, ring_write_blocking_timeout, wait_is_bounded,
    WAIT_LIMIT_SECS,
};
use crate::output::types::{
    AudioOutputError, BufferSize, BuildStreamError, OutputSettings, StreamConfig,
    SupportedStreamConfig, WriteBlockingError,
};
use std::sync::Arc;
use std::time::Duration;
use vstd::prelude::*;

verus! {

/// The time that the ring buffer holds, in milliseconds.
pub const RING_MILLIS: u64 = 200;

/// The most rounds in a row that a blocking write goes without writing a
/// sample before it takes the output to have stalled.
pub const IDLE_LIMIT: u64 = u64::MAX;

/// The samples that the ring buffer of a configuration holds: what the
/// device plays in the time the buffer is made for, frames rounded down.
pub open spec fn ring_size_for(config: SupportedStreamConfig) -> int {
    ((RING_MILLIS * config.sample_rate.0) / 1000) * config.channels
}

/// Whether the ring buffer of a configuration can be allocated: its samples
/// and one more take no more than half the address space.
pub open spec fn ring_fits(config: SupportedStreamConfig) -> bool {
    4 * (ring_size_for(config) + 1) <= usize::MAX
}

/// How full the ring buffer was at one moment.
#[derive(PartialEq, Eq, Structural, Debug, Clone, Copy)]
pub struct BufferLevels {
    /// The samples that waited to be played.
    pub size: usize,
    /// The samples that could be written.
    pub space_available: usize,
    /// The samples that the buffer holds at most.
    pub capacity: usize,
}

/// What a blocking write does next.
#[derive(PartialEq, Eq, Structural, Debug, Clone, Copy)]
pub enum WriteStep {
    /// So many samples are left to write.
    Continue(usize),
    /// All samples are written.
    Done,
    /// The output took no sample in time.
    Stalled,
}

/// Decides how a blocking write goes on after one round, from how many
/// samples were left before it and what the ring buffer said: it goes on
/// with what is left, it is done when the buffer says that there was nothing
/// to write, and it has stalled when the buffer gave no room in time.
pub fn after_write(
    remaining: usize,
    outcome: &Result<Option<usize>, rb::RbError>,
) -> (step: WriteStep)
    ensures
        step == match *outcome {
            Ok(Some(written)) => WriteStep::Continue(
                if written <= remaining {
                    (remaining - written) as usize
                } else {
                    0
                },
            ),
            Ok(None) => WriteStep::Done,
            Err(_) => WriteStep::Stalled,
        },
{
    match outcome {
        Ok(Some(written)) => WriteStep::Continue(
            if *written <= remaining {
                remaining - *written
            } else {
                0
            },
        ),
        Ok(None) => WriteStep::Done,
        Err(_) => WriteStep::Stalled,
    }
}

/// What a stream is opened with for a configuration: its channels and its
/// rate, and the buffer size that the device prefers.
pub open spec fn opened_with(config: SupportedStreamConfig) -> StreamConfig {
    StreamConfig {
        channels: config.channels,
        sample_rate: config.sample_rate,
        buffer_size: BufferSize::Default,
    }
}

/// What a stream is opened with for a configuration: its channels and its
/// rate, and the buffer size that the device prefers.
pub fn stream_config(config: &SupportedStreamConfig) -> (opened: StreamConfig)
    ensures
        opened == opened_with(*config),
{
    StreamConfig {
        channels: config.channels,
        sample_rate: config.sample_rate,
        buffer_size: BufferSize::Default,
    }
}

/// An output on one device.
pub struct AudioOutput<B: AudioBackend> {
    ring_buf_producer: rb::Producer<i16>,
    ring_buf: rb::SpscRb<i16>,
    stream: Option<<<B::Host as Host>::Device as Device>::Stream>,
    events: Arc<Box<dyn OutputEvents>>,
    device: <B::Host as Host>::Device,
    config: SupportedStreamConfig,
    settings: OutputSettings,
    made_on: Ghost<<B::Host as Host>::Device>,
}

impl<B: AudioBackend> AudioOutput<B> {
    /// Whether the producer of the output writes into its ring buffer, as it
    /// does in every output that `new` made.
    pub closed spec fn linked(&self) -> bool {
        ring_of(self.ring_buf_producer) == self.ring_buf
    }

    /// Whether a stream is open.
    pub closed spec fn is_running(&self) -> bool {
        self.stream is Some
    }

    /// The samples that the ring buffer holds at most.
    pub closed spec fn capacity(&self) -> nat {
        ring_capacity(self.ring_buf)
    }

    /// The configuration that the output was made for.
    pub closed spec fn config(&self) -> SupportedStreamConfig {
        self.config
    }

    /// The samples that were written to the output since it was made, in
    /// the order in which they were written.
    pub closed spec fn written(&self) -> Seq<i16> {
        produced(self.ring_buf_producer)
    }

    /// The ring buffer of the output.
    pub closed spec fn ring(&self) -> rb::SpscRb<i16> {
        self.ring_buf
    }

    /// The stream of the output, where one is open.
    pub closed spec fn stream_spec(&self) -> Option<<<B::Host as Host>::Device as Device>::Stream> {
        self.stream
    }

    /// Where the output tells what happened to the stream.
    pub closed spec fn events_spec(&self) -> Arc<Box<dyn OutputEvents>> {
        self.events
    }

    /// Whether an output is another in nothing but what was written to it.
    pub open spec fn same_but_written(&self, other: &Self) -> bool {
        &&& self.ring() == other.ring()
        &&& self.stream_spec() == other.stream_spec()
        &&& self.events_spec() == other.events_spec()
        &&& self.device_spec() == other.device_spec()
        &&& self.made_on() == other.made_on()
        &&& self.config() == other.config()
        &&& self.settings_spec() == other.settings_spec()
        &&& self.capacity() == other.capacity()
        &&& self.is_running() == other.is_running()
        &&& self.linked() == other.linked()
    }

    /// How the output behaves.
    pub closed spec fn settings_spec(&self) -> OutputSettings {
        self.settings
    }

    /// The device that the output plays on.
    pub closed spec fn device_spec(&self) -> <B::Host as Host>::Device {
        self.device
    }

    /// The device that the output plays on, as it was when the output was
    /// made on it, before any stream was opened.
    pub closed spec fn made_on(&self) -> <B::Host as Host>::Device {
        self.made_on@
    }

    /// Whether two outputs differ in nothing but the stream, and the device
    /// as a stream that was opened on it has left it.
    pub open spec fn same_but_stream(&self, other: &Self) -> bool {
        &&& self.written() == other.written()
        &&& self.ring() == other.ring()
        &&& self.events_spec() == other.events_spec()
        &&& self.made_on() == other.made_on()
        &&& self.config() == other.config()
        &&& self.settings_spec() == other.settings_spec()
        &&& self.capacity() == other.capacity()
        &&& self.linked() == other.linked()
    }

    /// An output differs from itself in nothing.
    pub proof fn lemma_same_as_itself(&self)
        ensures
            self.same_but_stream(self),
    {
    }

    /// Makes an output on a device, with an empty ring buffer and no stream.
    ///
    /// It is refused where the ring buffer of the configuration would be
    /// larger than can be allocated.
    pub fn new(
        device: <B::Host as Host>::Device,
        config: SupportedStreamConfig,
        events: Arc<Box<dyn OutputEvents>>,
        settings: OutputSettings,
    ) -> (r: Result<Self, AudioOutputError>)
        ensures
            r is Ok <==> ring_fits(config),
            r matches Ok(output) ==> {
                &&& output.capacity() == ring_size_for(config)
                &&& output.config() == config
                &&& output.device_spec() == device
                &&& output.made_on() == device
                &&& output.settings_spec() == settings
                &&& output.written() == Seq::<i16>::empty()
                &&& output.linked()
                &&& !output.is_running()
            },
            r matches Err(error) ==> error is UnsupportedConfiguration,
    {
        let frames: u64 = (RING_MILLIS * config.sample_rate.0 as u64) / 1000;
        assert(frames * config.channels as u64 <= 0xffff_ffff * 0xffff_ffff) by (nonlinear_arith)
            requires
                frames <= 0xffff_ffff,
                config.channels as u64 <= 0xffff_ffff,
        ;
        let samples: u64 = frames * config.channels as u64;
        if samples >= (usize::MAX / 4) as u64 {
            return Err(
                AudioOutputError::UnsupportedConfiguration(
                    "The ring buffer of this configuration is too large".to_owned(),
                ),
            );
        }
        let (ring_buf, ring_buf_producer) = ring_new(samples as usize);
        Ok(
            AudioOutput {
                ring_buf_producer,
                ring_buf,
                stream: None,
                events,
                made_on: Ghost(device),
                device,
                config,
                settings,
            },
        )
    }

    /// Opens a stream on the device and lets it play. Nothing is done where
    /// one is open already.
    pub fn start(&mut self) -> (r: Result<(), AudioOutputError>)
        ensures
            final(self).same_but_stream(old(self)),
            final(self).capacity() == old(self).capacity(),
            final(self).config() == old(self).config(),
            final(self).written() == old(self).written(),
            final(self).linked() == old(self).linked(),
            final(self).made_on() == old(self).made_on(),
            old(self).is_running() ==> r is Ok && *final(self) == *old(self),
            r is Ok ==> final(self).is_running(),
            r is Err ==> !final(self).is_running(),
            r matches Err(error) ==> error is OpenStreamError || error is StartStreamError,
            r matches Err(AudioOutputError::OpenStreamError(error)) ==> exists|
                opened: &mut <B::Host as Host>::Device,
                feed: StreamFeed,
            |
                {
                    &&& #[trigger] call_ensures(
                        <<B::Host as Host>::Device as Device>::build_output_stream,
                        (opened, &opened_with(old(self).config()), feed),
                        Err(error),
                    )
                    &&& mut_ref_current(opened) == old(self).device_spec()
                    &&& mut_ref_future(opened) == final(self).device_spec()
                },
            !old(self).is_running() && !(r matches Err(AudioOutputError::OpenStreamError(_)))
                ==> exists|
                opened: &mut <B::Host as Host>::Device,
                feed: StreamFeed,
                stream: <<B::Host as Host>::Device as Device>::Stream,
            |
                {
                    &&& #[trigger] call_ensures(
                        <<B::Host as Host>::Device as Device>::build_output_stream,
                        (opened, &opened_with(old(self).config()), feed),
                        Ok(stream),
                    )
                    &&& mut_ref_current(opened) == old(self).device_spec()
                    &&& mut_ref_future(opened) == final(self).device_spec()
                },
    {
        if self.stream.is_some() {
            return Ok(());
        }
        let mut stream = match self.create_stream() {
            Ok(stream) => stream,
            Err(error) => {
                return Err(error);
            },
        };
        match stream.play() {
            Ok(()) => {},
            Err(error) => {
                return Err(AudioOutputError::StartStreamError(error));
            },
        }
        self.stream = Some(stream);
        Ok(())
    }

    /// Stops the stream, if one is open, and lets go of it.
    pub fn stop(&mut self)
        ensures
            !final(self).is_running(),
            final(self).same_but_stream(old(self)),
            final(self).capacity() == old(self).capacity(),
            final(self).config() == old(self).config(),
            final(self).written() == old(self).written(),
            final(self).linked() == old(self).linked(),
            final(self).made_on() == old(self).made_on(),
    {
        match self.stream.take() {
            Some(mut stream) => {
                let _ = stream.stop();
            },
            None => {},
        }
    }

    /// The time that a blocking write waits for room at a time: the time
    /// that the settings give, or, where that is too long to be waited for,
    /// the longest time that can be counted in milliseconds.
    pub fn wait_time(&self) -> (time: Duration)
        ensures
            wait_is_bounded(time),
            wait_is_bounded(self.settings_spec().buffer_duration) ==> time
                == self.settings_spec().buffer_duration,
            !wait_is_bounded(self.settings_spec().buffer_duration) ==> {
                &&& duration_secs(time) == WAIT_LIMIT_SECS
                &&& duration_subsec(time) == (u64::MAX % 1000) * 1_000_000
            },
    {
        if duration_as_secs(&self.settings.buffer_duration) <= WAIT_LIMIT_SECS {
            self.settings.buffer_duration
        } else {
            duration_from_millis(u64::MAX)
        }
    }

    /// The time that the device is given to play out what is buffered.
    pub fn drain_time(&self) -> (time: Duration)
        ensures
            time == self.settings_spec().buffer_duration,
    {
        self.settings.buffer_duration
    }

    /// Gives the device the time that `drain_time` says to play out what is
    /// buffered, where a stream is open.
    pub fn drain(&mut self)
        ensures
            final(self).is_running() == old(self).is_running(),
            final(self).same_but_stream(old(self)),
            final(self).capacity() == old(self).capacity(),
            final(self).config() == old(self).config(),
            final(self).written() == old(self).written(),
            final(self).linked() == old(self).linked(),
            final(self).made_on() == old(self).made_on(),
    {
        match self.stream.take() {
            Some(mut stream) => {
                stream.drain(self.drain_time());
                self.stream = Some(stream);
            },
            None => {},
        }
    }

    /// Whether the ring buffer had no room when it was looked at.
    ///
    /// A full buffer has been written to as much as it holds; a buffer that
    /// holds nothing is always full.
    pub fn is_buffer_full(&self) -> (full: bool)
        ensures
            self.linked() ==> (full ==> self.capacity() <= self.written().len()),
            self.capacity() == 0 ==> full,
    {
        ring_is_full(&self.ring_buf, &self.ring_buf_producer)
    }

    /// How many samples waited in the ring buffer when it was looked at:
    /// never more than it holds, and never more than were written to it.
    pub fn buffer_size(&self) -> (n: usize)
        ensures
            n <= self.capacity(),
            self.linked() ==> n <= self.written().len(),
    {
        ring_count(&self.ring_buf, &self.ring_buf_producer)
    }

    /// How many samples the ring buffer holds at most.
    pub fn buffer_capacity(&self) -> (n: usize)
        ensures
            n == self.capacity(),
    {
        ring_size(&self.ring_buf)
    }

    /// How many samples the ring buffer had room for when it was looked at:
    /// never more than it holds, and never less than it holds beyond what
    /// was written to it.
    pub fn buffer_space_available(&self) -> (n: usize)
        ensures
            n <= self.capacity(),
            self.linked() ==> n + self.written().len() >= self.capacity(),
    {
        ring_slots_free(&self.ring_buf, &self.ring_buf_producer)
    }

    /// How full the ring buffer was at one moment: what waited and what
    /// could be written make up what it holds.
    pub fn buffer_levels(&self) -> (levels: BufferLevels)
        ensures
            levels.size + levels.space_available == levels.capacity,
            levels.capacity == self.capacity(),
            self.linked() ==> levels.size <= self.written().len(),
    {
        let capacity = ring_size(&self.ring_buf);
        let space_available = ring_slots_free(&self.ring_buf, &self.ring_buf_producer);
        BufferLevels { size: capacity - space_available, space_available, capacity }
    }

    /// Writes as many of the samples as the ring buffer has room for, without
    /// waiting, from the front and in their order, and says how many; an
    /// error where it has room for none.
    pub fn write(&mut self, samples: &[i16]) -> (r: Result<usize, rb::RbError>)
        ensures
            final(self).same_but_written(old(self)),
            final(self).linked() == old(self).linked(),
            final(self).made_on() == old(self).made_on(),
            final(self).is_running() == old(self).is_running(),
            final(self).capacity() == old(self).capacity(),
            final(self).config() == old(self).config(),
            r matches Ok(n) ==> n <= samples@.len() && final(self).written() == old(self).written()
                + samples@.subrange(0, n as int),
            r matches Ok(n) ==> (n == 0 <==> samples@.len() == 0),
            r matches Ok(n) ==> (old(self).linked() ==> n == samples@.len() || old(self).capacity()
                <= final(self).written().len()),
            old(self).linked() && old(self).written().len() + samples@.len() <= old(self).capacity()
                ==> r == Ok::<usize, rb::RbError>(samples@.len() as usize),
            r is Err ==> final(self).written() == old(self).written(),
            r is Err && old(self).linked() ==> old(self).capacity() <= old(self).written().len(),
            samples@.len() == 0 ==> r is Ok,
    {
        ring_write(&mut self.ring_buf_producer, samples)
    }

    /// How the output behaves.
    pub fn settings(&self) -> (settings: &OutputSettings)
        ensures
            *settings == self.settings_spec(),
    {
        &self.settings
    }

    /// The device of the output.
    pub fn device(&self) -> (device: &<B::Host as Host>::Device)
        ensures
            *device == self.device_spec(),
    {
        &self.device
    }

    /// Writes all the samples, in their order, waiting for room where the
    /// ring buffer is full. It gives up where no room comes within the time
    /// that `wait_time` says; what was written until then stays written.
    pub fn write_blocking(&mut self, samples: &[i16]) -> (r: Result<(), WriteBlockingError>)
        ensures
            final(self).same_but_written(old(self)),
            final(self).linked() == old(self).linked(),
            final(self).made_on() == old(self).made_on(),
            final(self).is_running() == old(self).is_running(),
            final(self).capacity() == old(self).capacity(),
            final(self).config() == old(self).config(),
            r is Ok ==> final(self).written() == old(self).written() + samples@,
            r is Err ==> exists|n: int|
                0 <= n < samples@.len() && final(self).written() == old(self).written()
                    + #[trigger] samples@.subrange(0, n),
            r is Err && old(self).linked() ==> old(self).capacity() <= final(self).written().len(),
            old(self).linked() && old(self).written().len() + samples@.len() <= old(self).capacity()
                ==> r is Ok,
            samples@.len() == 0 ==> r is Ok,
    {
        let total = samples.len();
        let timeout = self.wait_time();
        let mut offset: usize = 0;
        let mut idle: u64 = IDLE_LIMIT;
        assert(self.written() =~= old(self).written() + samples@.subrange(0, 0));
        while offset < total
            invariant
                offset <= total,
                total == samples@.len(),
                self.same_but_written(old(self)),
                self.linked() == old(self).linked(),
                self.made_on() == old(self).made_on(),
                self.is_running() == old(self).is_running(),
                self.capacity() == old(self).capacity(),
                self.config() == old(self).config(),
                self.written() == old(self).written() + samples@.subrange(0, offset as int),
                wait_is_bounded(timeout),
            decreases total - offset, idle,
        {
            let rest = vstd::slice::slice_subrange(samples, offset, total);
            let ghost before = self.written();
            let outcome = ring_write_blocking_timeout(
                &mut self.ring_buf_producer,
                rest,
                timeout,
            );
            match after_write(total - offset, &outcome) {
                WriteStep::Continue(remaining) => {
                    if remaining == total - offset {
                        assert(self.written() =~= before) by {
                            assert(rest@.subrange(0, 0) =~= Seq::<i16>::empty());
                        }
                        if idle == 0 {
                            return Err(WriteBlockingError::OutputStalled);
                        }
                        idle -= 1;
                    } else {
                        let ghost taken = total - offset - remaining;
                        assert(samples@.subrange(0, offset as int) + rest@.subrange(0, taken)
                            =~= samples@.subrange(0, offset + taken));
                        offset = total - remaining;
                        idle = IDLE_LIMIT;
                    }
                },
                WriteStep::Done => {
                    return Ok(());
                },
                WriteStep::Stalled => {
                    return Err(WriteBlockingError::OutputStalled);
                },
            }
        }
        assert(samples@.subrange(0, total as int) =~= samples@);
        Ok(())
    }

    /// Opens a stream that is fed from the ring buffer, with what
    /// `stream_config` gives for the output's configuration.
    fn create_stream(
        &mut self,
    ) -> (r: Result<<<B::Host as Host>::Device as Device>::Stream, AudioOutputError>)
        ensures
            final(self).same_but_stream(old(self)),
            final(self).made_on() == old(self).made_on(),
            final(self).written() == old(self).written(),
            final(self).linked() == old(self).linked(),
            final(self).stream == old(self).stream,
            final(self).capacity() == old(self).capacity(),
            final(self).config() == old(self).config(),
            r matches Err(error) ==> error is OpenStreamError,
            exists|
                opened: &mut <B::Host as Host>::Device,
                feed: StreamFeed,
                built: Result<<<B::Host as Host>::Device as Device>::Stream, BuildStreamError>,
            |
                {
                    &&& #[trigger] call_ensures(
                        <<B::Host as Host>::Device as Device>::build_output_stream,
                        (opened, &opened_with(old(self).config()), feed),
                        built,
                    )
                    &&& mut_ref_current(opened) == old(self).device_spec()
                    &&& mut_ref_future(opened) == final(self).device_spec()
                    &&& r == match built {
                        Ok(stream) => Ok::<
                            <<B::Host as Host>::Device as Device>::Stream,
                            AudioOutputError,
                        >(stream),
                        Err(error) => Err(AudioOutputError::OpenStreamError(error)),
                    }
                },
    {
        let config = stream_config(&self.config);
        let feed = StreamFeed {
            consumer: ring_consumer(&self.ring_buf),
            events: share_events(&self.events),
        };
        let built = self.device.build_output_stream(&config, feed);
        match built {
            Ok(stream) => Ok(stream),
            Err(error) => Err(AudioOutputError::OpenStreamError(error)),
        }
    }
}

} // verus!
