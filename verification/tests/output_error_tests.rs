use decal::output::{
    AudioBackend, AudioOutputError, BackendSpecificError, BuildStreamError,
    DefaultStreamConfigError, Device, DeviceNameError, DevicesError, Host, NoEvents,
    OutputBuilder, OutputSettings, PlayStreamError, RequestedOutputConfig, SampleFormat,
    SampleRate, Stream, StreamConfig, StreamFeed, SupportedBufferSize, SupportedStreamConfig,
    SupportedStreamConfigRange, SupportedStreamConfigsError,
};
use std::sync::Arc;
use std::time::Duration;

#[derive(Clone, Copy, PartialEq)]
enum Fault {
    Nothing,
    NoDefaultDevice,
    DefaultConfig,
    Devices,
    Configs,
    Build,
    Play,
    Name,
}

struct FaultyStream {
    fault: Fault,
}

impl Stream for FaultyStream {
    fn play(&mut self) -> Result<(), PlayStreamError> {
        if self.fault == Fault::Play {
            Err(PlayStreamError::DeviceNotAvailable)
        } else {
            Ok(())
        }
    }

    fn stop(&mut self) -> Result<(), PlayStreamError> {
        Err(PlayStreamError::BackendSpecific(BackendSpecificError(
            "already stopped".to_owned(),
        )))
    }

    fn drain(&mut self, _duration: Duration) {}
}

struct FaultyDevice {
    fault: Fault,
    name: &'static str,
    rate: u32,
}

impl Device for FaultyDevice {
    type Stream = FaultyStream;

    fn default_output_config(&self) -> Result<SupportedStreamConfig, DefaultStreamConfigError> {
        if self.fault == Fault::DefaultConfig {
            return Err(DefaultStreamConfigError::StreamTypeNotSupported);
        }
        Ok(SupportedStreamConfig::new(
            2,
            SampleRate(self.rate),
            SupportedBufferSize::Unknown,
            SampleFormat::I16,
        ))
    }

    fn name(&self) -> Result<String, DeviceNameError> {
        if self.fault == Fault::Name {
            return Err(DeviceNameError::BackendSpecific(BackendSpecificError(
                "nameless".to_owned(),
            )));
        }
        Ok(self.name.to_owned())
    }

    fn supported_output_configs(
        &self,
    ) -> Result<Vec<SupportedStreamConfigRange>, SupportedStreamConfigsError> {
        if self.fault == Fault::Configs {
            return Err(SupportedStreamConfigsError::InvalidArgument);
        }
        Ok(vec![])
    }

    fn build_output_stream(
        &mut self,
        _config: &StreamConfig,
        _feed: StreamFeed,
    ) -> Result<FaultyStream, BuildStreamError> {
        if self.fault == Fault::Build {
            return Err(BuildStreamError::StreamConfigNotSupported);
        }
        Ok(FaultyStream { fault: self.fault })
    }
}

struct FaultyHost {
    fault: Fault,
}

impl Host for FaultyHost {
    type Device = FaultyDevice;

    fn default_output_device(&self) -> Option<FaultyDevice> {
        if self.fault == Fault::NoDefaultDevice {
            return None;
        }
        Some(FaultyDevice {
            fault: self.fault,
            name: "default",
            rate: 44100,
        })
    }

    fn output_devices(&self) -> Result<Vec<FaultyDevice>, DevicesError> {
        if self.fault == Fault::Devices {
            return Err(DevicesError::BackendSpecific(BackendSpecificError(
                "no list".to_owned(),
            )));
        }
        Ok(vec![
            FaultyDevice {
                fault: self.fault,
                name: "default",
                rate: 44100,
            },
            FaultyDevice {
                fault: self.fault,
                name: "other",
                rate: 96000,
            },
        ])
    }
}

struct FaultyBackend {
    fault: Fault,
}

impl AudioBackend for FaultyBackend {
    type Host = FaultyHost;

    fn default_host(&self) -> FaultyHost {
        FaultyHost { fault: self.fault }
    }
}

fn builder(fault: Fault) -> OutputBuilder<FaultyBackend> {
    OutputBuilder::new(
        FaultyBackend { fault },
        OutputSettings::default(),
        Arc::new(Box::new(NoEvents)),
    )
}

fn open_request() -> RequestedOutputConfig {
    RequestedOutputConfig {
        sample_rate: None,
        channels: None,
        sample_format: None,
    }
}

fn config() -> SupportedStreamConfig {
    SupportedStreamConfig::new(
        2,
        SampleRate(44100),
        SupportedBufferSize::Unknown,
        SampleFormat::I16,
    )
}

#[test]
fn a_host_without_a_default_device_is_an_error() {
    let mut builder = builder(Fault::NoDefaultDevice);
    assert!(matches!(
        builder.default_output_config(),
        Err(AudioOutputError::NoDefaultDevice)
    ));
    assert!(matches!(
        builder.find_closest_config(None, open_request()),
        Err(AudioOutputError::NoDefaultDevice)
    ));
    assert!(matches!(
        builder.find_closest_config(Some("other"), open_request()),
        Err(AudioOutputError::NoDefaultDevice)
    ));
    assert!(matches!(
        builder.new_output(None, config()),
        Err(AudioOutputError::NoDefaultDevice)
    ));
    assert!(builder.default_output_device().is_none());
    assert_eq!(builder.watch_default_device("old".to_owned()), "");
}

#[test]
fn a_device_without_a_default_configuration_is_an_error() {
    let builder = builder(Fault::DefaultConfig);
    assert!(matches!(
        builder.default_output_config(),
        Err(AudioOutputError::OutputDeviceConfigError(
            DefaultStreamConfigError::StreamTypeNotSupported
        ))
    ));
    assert!(matches!(
        builder.find_closest_config(None, open_request()),
        Err(AudioOutputError::OutputDeviceConfigError(_))
    ));
}

#[test]
fn devices_that_cannot_be_listed_are_an_error_only_for_a_named_device() {
    let mut builder = builder(Fault::Devices);
    assert!(builder.find_closest_config(None, open_request()).is_ok());
    assert!(matches!(
        builder.find_closest_config(Some("other"), open_request()),
        Err(AudioOutputError::LoadDevicesError(_))
    ));
    assert!(builder.new_output(None, config()).is_ok());
    assert!(matches!(
        builder.new_output(Some("other".to_owned()), config()),
        Err(AudioOutputError::LoadDevicesError(_))
    ));
    assert!(builder.output_devices().is_err());
}

#[test]
fn configurations_that_cannot_be_listed_are_an_error_only_when_they_are_needed() {
    let builder = builder(Fault::Configs);
    assert_eq!(
        builder.find_closest_config(None, open_request()).unwrap(),
        config()
    );
    let request = RequestedOutputConfig {
        sample_rate: Some(SampleRate(48000)),
        channels: None,
        sample_format: None,
    };
    assert!(matches!(
        builder.find_closest_config(None, request),
        Err(AudioOutputError::LoadConfigsError(
            SupportedStreamConfigsError::InvalidArgument
        ))
    ));
}

#[test]
fn a_stream_that_cannot_be_opened_or_started_leaves_the_output_stopped() {
    let mut failing = builder(Fault::Build);
    let mut output = failing.new_output(None, config()).unwrap();
    assert!(matches!(
        output.start(),
        Err(AudioOutputError::OpenStreamError(
            BuildStreamError::StreamConfigNotSupported
        ))
    ));
    output.stop();

    let mut failing = builder(Fault::Play);
    let mut output = failing.new_output(None, config()).unwrap();
    assert!(matches!(
        output.start(),
        Err(AudioOutputError::StartStreamError(
            PlayStreamError::DeviceNotAvailable
        ))
    ));
    assert!(matches!(
        output.start(),
        Err(AudioOutputError::StartStreamError(_))
    ));

    let mut working = builder(Fault::Nothing);
    let mut output = working.new_output(None, config()).unwrap();
    output.start().unwrap();
    output.start().unwrap();
    output.drain();
    output.stop();
    output.drain();
    output.start().unwrap();
}

#[test]
fn a_device_whose_name_cannot_be_read_is_not_chosen_by_name() {
    let named = builder(Fault::Nothing);
    assert_eq!(
        named
            .find_closest_config(Some(" other "), open_request())
            .unwrap()
            .sample_rate(),
        SampleRate(96000)
    );
    let nameless = builder(Fault::Name);
    assert_eq!(
        nameless
            .find_closest_config(Some("other"), open_request())
            .unwrap()
            .sample_rate(),
        SampleRate(44100)
    );
    assert_eq!(nameless.watch_default_device("x".to_owned()), "");
}
