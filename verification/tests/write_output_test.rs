use decal::output::audio_output::{after_write, WriteStep};
use decal::output::backend::{mute_tail, stream_error_action};
use decal::output::{
    AudioOutputError, BackendSpecificError, Device, MockDevice, MockHost, MockOutput, NoEvents, OutputBuilder, OutputEvents,
    OutputSettings, SampleFormat, SampleRate, Stream, StreamError, StreamErrorAction,
    SupportedBufferSize, SupportedStreamConfig, WriteBlockingError,
};
use std::sync::atomic::{AtomicUsize, Ordering};
use std::sync::{Arc, Mutex};
use std::time::Duration;

fn builder_at(
    rate: u32,
    channels: u32,
    settings: OutputSettings,
    events: Arc<Box<dyn OutputEvents>>,
) -> OutputBuilder<MockOutput> {
    OutputBuilder::new(
        MockOutput {
            default_host: MockHost {
                default_device: MockDevice::new(
                    "test-device".to_owned(),
                    SupportedStreamConfig {
                        channels,
                        sample_rate: SampleRate(rate),
                        buffer_size: SupportedBufferSize::Range { min: 0, max: 9999 },
                        sample_format: SampleFormat::I16,
                    },
                    SampleRate(1024),
                    SampleRate(192000),
                    vec![],
                ),
                additional_devices: vec![],
            },
        },
        settings,
        events,
    )
}

#[test]
fn test_write_output() {
    let mut output_builder = OutputBuilder::new(
        MockOutput {
            default_host: MockHost {
                default_device: MockDevice::new(
                    "test-device".to_owned(),
                    SupportedStreamConfig {
                        channels: 2,
                        sample_rate: SampleRate(44100),
                        buffer_size: SupportedBufferSize::Range { min: 0, max: 9999 },
                        sample_format: SampleFormat::F32,
                    },
                    SampleRate(1024),
                    SampleRate(192000),
                    vec![],
                ),
                additional_devices: vec![],
            },
        },
        Default::default(),
        Arc::new(Box::new(NoEvents)),
    );

    let config = output_builder.default_output_config().unwrap();
    let mut output = output_builder.new_output(None, config).unwrap();

    output.start().unwrap();
    output.write_blocking(&[1; 1024]).unwrap();
    let written = output.device().trigger_callback();
    assert_eq!([1; 1024], written.as_slice());
}

#[test]
fn ring_buffer_holds_two_hundred_milliseconds() {
    let mut builder = builder_at(44100, 2, OutputSettings::default(), Arc::new(Box::new(NoEvents)));
    let config = builder.default_output_config().unwrap();
    let mut output = builder.new_output(None, config).unwrap();
    assert_eq!(output.buffer_capacity(), 17640);
    assert_eq!(output.buffer_size(), 0);
    assert_eq!(output.buffer_space_available(), 17640);
    assert!(!output.is_buffer_full());

    let mut builder = builder_at(22051, 1, OutputSettings::default(), Arc::new(Box::new(NoEvents)));
    let config = builder.default_output_config().unwrap();
    let mut output = builder.new_output(None, config).unwrap();
    assert_eq!(output.buffer_capacity(), 4410);
}

#[test]
fn buffer_levels_add_up_to_the_capacity() {
    let mut builder = builder_at(8000, 2, OutputSettings::default(), Arc::new(Box::new(NoEvents)));
    let config = builder.default_output_config().unwrap();
    let mut output = builder.new_output(None, config).unwrap();
    assert_eq!(output.buffer_capacity(), 3200);
    for written in [0usize, 1, 1000, 2199] {
        let block = vec![7i16; written];
        assert_eq!(output.write(&block).unwrap(), written);
        let levels = output.buffer_levels();
        assert_eq!(levels.size + levels.space_available, levels.capacity);
        assert_eq!(levels.capacity, 3200);
        assert_eq!(
            output.buffer_size() + output.buffer_space_available(),
            output.buffer_capacity()
        );
    }
    assert_eq!(output.buffer_size(), 3200);
    assert!(output.is_buffer_full());
    assert!(output.write(&[1, 2, 3]).is_err());
    assert_eq!(output.write(&[]).unwrap(), 0);
}

#[test]
fn a_write_that_does_not_fit_is_cut() {
    let mut builder = builder_at(1000, 1, OutputSettings::default(), Arc::new(Box::new(NoEvents)));
    let config = builder.default_output_config().unwrap();
    let mut output = builder.new_output(None, config).unwrap();
    assert_eq!(output.buffer_capacity(), 200);
    let block: Vec<i16> = (0..300).collect();
    assert_eq!(output.write(&block).unwrap(), 200);
    assert_eq!(output.buffer_space_available(), 0);
}

#[test]
fn the_callback_plays_what_was_written_in_order_then_silence() {
    let mut builder = builder_at(44100, 2, OutputSettings::default(), Arc::new(Box::new(NoEvents)));
    let config = builder.default_output_config().unwrap();
    let mut output = builder.new_output(None, config).unwrap();
    output.start().unwrap();
    let block: Vec<i16> = (1..=1500).collect();
    output.write_blocking(&block).unwrap();
    let first = output.device().trigger_callback();
    assert_eq!(first, (1..=1024).collect::<Vec<i16>>());
    let second = output.device().trigger_callback();
    let mut expected: Vec<i16> = (1025..=1500).collect();
    expected.resize(1024, 0);
    assert_eq!(second, expected);
    let third = output.device().trigger_callback();
    assert_eq!(third, vec![0i16; 1024]);
    assert_eq!(output.buffer_size(), 0);
}

#[test]
fn start_is_idempotent_and_stop_lets_the_stream_go() {
    let mut builder = builder_at(44100, 2, OutputSettings::default(), Arc::new(Box::new(NoEvents)));
    let config = builder.default_output_config().unwrap();
    let mut output = builder.new_output(None, config).unwrap();
    output.start().unwrap();
    output.write(&[5, 6]).unwrap();
    output.start().unwrap();
    assert_eq!(output.buffer_size(), 2);
    output.stop();
    output.stop();
    output.start().unwrap();
    assert_eq!(&output.device().trigger_callback()[..3], &[5, 6, 0]);
}

#[test]
fn a_blocking_write_stalls_when_nothing_plays() {
    let settings = OutputSettings {
        buffer_duration: Duration::from_millis(20),
    };
    let mut builder = builder_at(1000, 1, settings, Arc::new(Box::new(NoEvents)));
    let config = builder.default_output_config().unwrap();
    let mut output = builder.new_output(None, config).unwrap();
    assert_eq!(output.write_blocking(&[0; 200]), Ok(()));
    assert_eq!(
        output.write_blocking(&[0; 1]),
        Err(WriteBlockingError::OutputStalled)
    );
    assert_eq!(output.write_blocking(&[]), Ok(()));
}

#[test]
fn a_blocking_write_of_more_than_fits_stalls_after_filling() {
    let settings = OutputSettings {
        buffer_duration: Duration::from_millis(20),
    };
    let mut builder = builder_at(1000, 1, settings, Arc::new(Box::new(NoEvents)));
    let config = builder.default_output_config().unwrap();
    let mut output = builder.new_output(None, config).unwrap();
    assert_eq!(
        output.write_blocking(&[3; 250]),
        Err(WriteBlockingError::OutputStalled)
    );
    assert_eq!(output.buffer_size(), 200);
}

#[test]
fn a_configuration_whose_ring_cannot_be_counted_is_refused() {
    let mut builder = builder_at(1, 1, OutputSettings::default(), Arc::new(Box::new(NoEvents)));
    let config = SupportedStreamConfig::new(
        u32::MAX,
        SampleRate(u32::MAX),
        SupportedBufferSize::Unknown,
        SampleFormat::I16,
    );
    if usize::BITS < 64 {
        assert!(matches!(
            builder.new_output(None, config),
            Err(AudioOutputError::UnsupportedConfiguration(_))
        ));
    }
    let config = SupportedStreamConfig::new(
        0,
        SampleRate(44100),
        SupportedBufferSize::Unknown,
        SampleFormat::I16,
    );
    assert_eq!(builder.new_output(None, config).unwrap().buffer_capacity(), 0);
}

#[test]
fn after_write_goes_on_with_what_is_left() {
    assert_eq!(after_write(10, &Ok(Some(4))), WriteStep::Continue(6));
    assert_eq!(after_write(10, &Ok(Some(10))), WriteStep::Continue(0));
    assert_eq!(after_write(10, &Ok(Some(0))), WriteStep::Continue(10));
    assert_eq!(after_write(10, &Ok(Some(11))), WriteStep::Continue(0));
    assert_eq!(after_write(0, &Ok(None)), WriteStep::Done);
    assert_eq!(after_write(3, &Err(rb::RbError::TimedOut)), WriteStep::Stalled);
    assert_eq!(after_write(3, &Err(rb::RbError::Full)), WriteStep::Stalled);
}

#[test]
fn mute_tail_keeps_the_front() {
    let mut data = [1i16, 2, 3, 4, 5];
    mute_tail(&mut data, 2);
    assert_eq!(data, [1, 2, 0, 0, 0]);
    mute_tail(&mut data, 9);
    assert_eq!(data, [1, 2, 0, 0, 0]);
    mute_tail(&mut data, 0);
    assert_eq!(data, [0; 5]);
    let mut none: [i16; 0] = [];
    mute_tail(&mut none, 0);
}

struct Counting {
    changed: AtomicUsize,
    failures: Mutex<Vec<String>>,
}

struct Shared(Arc<Counting>);

impl OutputEvents for Shared {
    fn configuration_changed(&self) {
        self.0.changed.fetch_add(1, Ordering::SeqCst);
    }

    fn failed(&self, error: BackendSpecificError) {
        self.0.failures.lock().unwrap().push(error.0);
    }
}

#[test]
fn stream_errors_reach_the_owner_where_they_concern_it() {
    assert!(matches!(
        stream_error_action(StreamError::DeviceNotAvailable),
        StreamErrorAction::Reconfigure
    ));
    assert!(matches!(
        stream_error_action(StreamError::StreamInvalidated),
        StreamErrorAction::Reconfigure
    ));
    assert!(matches!(
        stream_error_action(StreamError::InputOverflow),
        StreamErrorAction::Ignore
    ));
    assert!(matches!(
        stream_error_action(StreamError::BufferUnderrun),
        StreamErrorAction::Ignore
    ));
    match stream_error_action(StreamError::BackendSpecific(BackendSpecificError(
        "xrun".to_owned(),
    ))) {
        StreamErrorAction::Report(failure) => assert_eq!(failure.0, "xrun"),
        other => panic!("unexpected action {other:?}"),
    }

    let counting = Arc::new(Counting {
        changed: AtomicUsize::new(0),
        failures: Mutex::new(vec![]),
    });
    let mut builder = builder_at(
        44100,
        2,
        OutputSettings::default(),
        Arc::new(Box::new(Shared(counting.clone()))),
    );
    let config = builder.default_output_config().unwrap();
    let mut output = builder.new_output(None, config).unwrap();
    output.start().unwrap();
    output.device().trigger_error(StreamError::BufferUnderrun);
    output.device().trigger_error(StreamError::InputOverflow);
    assert_eq!(counting.changed.load(Ordering::SeqCst), 0);
    output.device().trigger_error(StreamError::DeviceNotAvailable);
    output.device().trigger_error(StreamError::StreamInvalidated);
    assert_eq!(counting.changed.load(Ordering::SeqCst), 2);
    output
        .device()
        .trigger_error(StreamError::BackendSpecific(BackendSpecificError(
            "lost".to_owned(),
        )));
    assert_eq!(*counting.failures.lock().unwrap(), vec!["lost".to_owned()]);
    assert_eq!(counting.changed.load(Ordering::SeqCst), 2);
}

#[test]
fn the_mock_stream_follows_play_and_stop() {
    let mut builder = builder_at(44100, 2, OutputSettings::default(), Arc::new(Box::new(NoEvents)));
    let config = builder.default_output_config().unwrap();
    let mut output = builder.new_output(None, config).unwrap();
    let device = output.device().duplicate();
    assert_eq!(device.name().unwrap(), "test-device");
    assert_eq!(device.supported_output_configs().unwrap().len(), 1);
    let mut stream = decal::output::MockStream { started: false };
    stream.play().unwrap();
    assert!(stream.is_started());
    stream.drain(Duration::from_millis(1));
    assert!(stream.is_started());
    stream.stop().unwrap();
    assert!(!stream.is_started());
}

#[test]
fn the_default_mock_host_has_one_stereo_device() {
    let host = MockHost::default();
    assert_eq!(host.default_device.name, "");
    assert_eq!(host.default_device.default_config.channels(), 2);
    assert_eq!(
        host.default_device.default_config.sample_rate(),
        SampleRate(44100)
    );
    assert!(host.additional_devices.is_empty());
    let copy = host.duplicate();
    assert_eq!(copy.default_device.default_max_sample_rate, SampleRate(192000));
}

#[test]
fn the_device_is_given_the_buffer_duration_to_drain() {
    let settings = OutputSettings {
        buffer_duration: Duration::from_millis(35),
    };
    let mut builder = builder_at(44100, 2, settings, Arc::new(Box::new(NoEvents)));
    let config = builder.default_output_config().unwrap();
    let mut output = builder.new_output(None, config).unwrap();
    assert_eq!(output.drain_time(), Duration::from_millis(35));
    assert_eq!(output.settings().buffer_duration, Duration::from_millis(35));
    assert_eq!(output.device().name, "test-device");
    output.drain();
    output.start().unwrap();
    output.write(&[3, 4]).unwrap();
    output.drain();
    assert_eq!(output.buffer_size(), 2);
}

#[test]
fn the_mock_host_hands_out_its_devices_as_they_are() {
    let device = MockDevice::new(
        "left".to_owned(),
        SupportedStreamConfig::new(
            1,
            SampleRate(8000),
            SupportedBufferSize::Unknown,
            SampleFormat::U8,
        ),
        SampleRate(4000),
        SampleRate(16000),
        vec![],
    );
    let other = MockDevice::new(
        "right".to_owned(),
        SupportedStreamConfig::new(
            2,
            SampleRate(96000),
            SupportedBufferSize::Unknown,
            SampleFormat::I32,
        ),
        SampleRate(96000),
        SampleRate(96000),
        vec![],
    );
    let backend = MockOutput {
        default_host: MockHost {
            default_device: device,
            additional_devices: vec![other],
        },
    };
    let host = decal::output::AudioBackend::default_host(&backend);
    assert_eq!(host.default_device.name, "left");
    assert_eq!(host.additional_devices.len(), 1);
    assert_eq!(host.additional_devices[0].name, "right");
    let default_device = decal::output::Host::default_output_device(&host).unwrap();
    assert_eq!(default_device.name, "left");
    assert_eq!(default_device.default_config.sample_rate(), SampleRate(8000));
    assert_eq!(default_device.default_min_sample_rate, SampleRate(4000));
    assert!(default_device.feed.is_none());
    let devices = decal::output::Host::output_devices(&host).unwrap();
    assert_eq!(devices.len(), 2);
    assert_eq!(devices[0].name, "left");
    assert_eq!(devices[1].name, "right");
    assert_eq!(devices[1].default_config.sample_format(), SampleFormat::I32);
}

#[test]
fn a_write_takes_the_whole_block_or_fills_the_buffer() {
    let mut builder = builder_at(8000, 2, OutputSettings::default(), Arc::new(Box::new(NoEvents)));
    let config = builder.default_output_config().unwrap();
    let mut output = builder.new_output(None, config).unwrap();
    assert_eq!(output.write(&vec![3i16; 3000]).unwrap(), 3000);
    assert_eq!(output.buffer_space_available(), 200);
    assert_eq!(output.write(&vec![4i16; 200]).unwrap(), 200);
    assert!(output.is_buffer_full());

    let mut output = builder.new_output(None, config).unwrap();
    assert_eq!(output.write(&vec![3i16; 3000]).unwrap(), 3000);
    assert_eq!(output.write(&vec![4i16; 500]).unwrap(), 200);
    assert!(output.is_buffer_full());
    assert_eq!(output.buffer_size(), output.buffer_capacity());
}

#[test]
fn a_blocking_write_never_waits_without_end() {
    let settings = OutputSettings {
        buffer_duration: Duration::from_millis(20),
    };
    let mut builder = builder_at(8000, 2, settings, Arc::new(Box::new(NoEvents)));
    let config = builder.default_output_config().unwrap();
    let output = builder.new_output(None, config).unwrap();
    assert_eq!(output.wait_time(), Duration::from_millis(20));
    assert_eq!(output.drain_time(), Duration::from_millis(20));

    builder.set_settings(OutputSettings {
        buffer_duration: Duration::MAX,
    });
    let output = builder.new_output(None, config).unwrap();
    assert_eq!(output.wait_time(), Duration::from_millis(u64::MAX));
    assert!(output.wait_time() < Duration::MAX);
    assert_eq!(output.drain_time(), Duration::MAX);

    builder.set_settings(OutputSettings {
        buffer_duration: Duration::new(u64::MAX / 1000, 999_999_999),
    });
    let output = builder.new_output(None, config).unwrap();
    assert_eq!(
        output.wait_time(),
        Duration::new(u64::MAX / 1000, 999_999_999)
    );

    builder.set_settings(OutputSettings {
        buffer_duration: Duration::new(u64::MAX / 1000 + 1, 0),
    });
    let output = builder.new_output(None, config).unwrap();
    assert_eq!(output.wait_time(), Duration::from_millis(u64::MAX));
}

#[test]
fn a_stream_is_open_on_the_device_once_the_output_has_started() {
    let mut builder = builder_at(8000, 1, OutputSettings::default(), Arc::new(Box::new(NoEvents)));
    let config = builder.default_output_config().unwrap();
    let mut output = builder.new_output(None, config).unwrap();
    assert!(output.device().feed.is_none());
    output.start().unwrap();
    assert!(output.device().feed.is_some());
    output.write_blocking(&[5, 6, 7]).unwrap();
    let heard = output.device().trigger_callback();
    assert_eq!(&heard[..4], &[5, 6, 7, 0]);
    output.stop();
    assert!(output.device().feed.is_some());
}
