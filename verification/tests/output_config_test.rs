use decal::output::{
    MockDevice, MockHost, MockOutput, NoEvents, OutputBuilder, OutputEvents, OutputSettings,
    RequestedOutputConfig, SampleFormat, SampleRate, SupportedBufferSize, SupportedStreamConfig,
    SupportedStreamConfigRange,
};
use decal::output::builder::default_device_changed;
use decal::output::config::{
    closest_config, default_matches, first_offer, name_matches, resolve,
};
use std::sync::Arc;

fn no_events() -> Arc<Box<dyn OutputEvents>> {
    Arc::new(Box::new(NoEvents))
}

#[test]
fn find_closest_config_default() {
    let output_builder = OutputBuilder::new(
        MockOutput {
            default_host: MockHost {
                default_device: MockDevice::new(
                    "test-device".to_owned(),
                    SupportedStreamConfig::new(
                        2,
                        SampleRate(44100),
                        SupportedBufferSize::Range { min: 0, max: 9999 },
                        SampleFormat::F32,
                    ),
                    SampleRate(1024),
                    SampleRate(192000),
                    vec![],
                ),
                additional_devices: vec![],
            },
        },
        Default::default(),
        no_events(),
    );
    let config = output_builder
        .find_closest_config(
            None,
            RequestedOutputConfig {
                sample_rate: None,
                channels: None,
                sample_format: None,
            },
        )
        .unwrap();

    assert_eq!(
        SupportedBufferSize::Range { min: 0, max: 9999 },
        *config.buffer_size()
    );
    assert_eq!(2, config.channels());
    assert_eq!(SampleFormat::F32, config.sample_format());
    assert_eq!(SampleRate(44100), config.sample_rate());
}

#[test]
fn find_closest_config_sample_rate() {
    let output_builder = OutputBuilder::new(
        MockOutput {
            default_host: MockHost {
                default_device: MockDevice::new(
                    "test-device".to_owned(),
                    SupportedStreamConfig::new(
                        2,
                        SampleRate(44100),
                        SupportedBufferSize::Range { min: 0, max: 9999 },
                        SampleFormat::F32,
                    ),
                    SampleRate(1024),
                    SampleRate(192000),
                    vec![],
                ),
                additional_devices: vec![],
            },
        },
        Default::default(),
        no_events(),
    );
    let config = output_builder
        .find_closest_config(
            None,
            RequestedOutputConfig {
                sample_rate: Some(SampleRate(48000)),
                channels: None,
                sample_format: None,
            },
        )
        .unwrap();

    assert_eq!(
        SupportedBufferSize::Range { min: 0, max: 9999 },
        *config.buffer_size()
    );
    assert_eq!(2, config.channels());
    assert_eq!(SampleFormat::F32, config.sample_format());
    assert_eq!(SampleRate(48000), config.sample_rate());
}

#[test]
fn find_closest_config_channel_mismatch() {
    let output_builder = OutputBuilder::new(
        MockOutput {
            default_host: MockHost {
                default_device: MockDevice::new(
                    "test-device".to_owned(),
                    SupportedStreamConfig::new(
                        2,
                        SampleRate(44100),
                        SupportedBufferSize::Range { min: 0, max: 9999 },
                        SampleFormat::F32,
                    ),
                    SampleRate(1024),
                    SampleRate(192000),
                    vec![],
                ),
                additional_devices: vec![MockDevice::new(
                    "second-device".to_owned(),
                    SupportedStreamConfig::new(
                        1,
                        SampleRate(48000),
                        SupportedBufferSize::Range { min: 0, max: 9999 },
                        SampleFormat::F32,
                    ),
                    SampleRate(1024),
                    SampleRate(192000),
                    vec![],
                )],
            },
        },
        Default::default(),
        no_events(),
    );
    let config = output_builder
        .find_closest_config(
            None,
            RequestedOutputConfig {
                sample_rate: Some(SampleRate(48000)),
                channels: Some(2),
                sample_format: None,
            },
        )
        .unwrap();

    assert_eq!(
        SupportedBufferSize::Range { min: 0, max: 9999 },
        *config.buffer_size()
    );
    assert_eq!(2, config.channels());
    assert_eq!(SampleFormat::F32, config.sample_format());
    assert_eq!(SampleRate(48000), config.sample_rate());
}

#[test]
fn find_closest_config_sample_rate_mismatch() {
    let output_builder = OutputBuilder::new(
        MockOutput {
            default_host: MockHost {
                default_device: MockDevice::new(
                    "test-device".to_owned(),
                    SupportedStreamConfig::new(
                        2,
                        SampleRate(44100),
                        SupportedBufferSize::Range { min: 0, max: 9999 },
                        SampleFormat::F32,
                    ),
                    SampleRate(44100),
                    SampleRate(44100),
                    vec![],
                ),
                additional_devices: vec![MockDevice::new(
                    "second-device".to_owned(),
                    SupportedStreamConfig::new(
                        1,
                        SampleRate(48000),
                        SupportedBufferSize::Range { min: 0, max: 9999 },
                        SampleFormat::F32,
                    ),
                    SampleRate(1024),
                    SampleRate(192000),
                    vec![],
                )],
            },
        },
        Default::default(),
        no_events(),
    );
    let config = output_builder
        .find_closest_config(
            None,
            RequestedOutputConfig {
                sample_rate: Some(SampleRate(48000)),
                channels: Some(2),
                sample_format: None,
            },
        )
        .unwrap();

    assert_eq!(
        SupportedBufferSize::Range { min: 0, max: 9999 },
        *config.buffer_size()
    );
    assert_eq!(2, config.channels());
    assert_eq!(SampleFormat::F32, config.sample_format());
    assert_eq!(SampleRate(44100), config.sample_rate());
}

#[test]
fn find_closest_config_non_default_device() {
    let output_builder = OutputBuilder::new(
        MockOutput {
            default_host: MockHost {
                default_device: MockDevice::new(
                    "test-device".to_owned(),
                    SupportedStreamConfig::new(
                        2,
                        SampleRate(44100),
                        SupportedBufferSize::Range { min: 0, max: 9999 },
                        SampleFormat::F32,
                    ),
                    SampleRate(1024),
                    SampleRate(192000),
                    vec![],
                ),
                additional_devices: vec![MockDevice::new(
                    "second-device".to_owned(),
                    SupportedStreamConfig::new(
                        2,
                        SampleRate(48000),
                        SupportedBufferSize::Range { min: 0, max: 9999 },
                        SampleFormat::F32,
                    ),
                    SampleRate(1024),
                    SampleRate(192000),
                    vec![],
                )],
            },
        },
        Default::default(),
        no_events(),
    );
    let config = output_builder
        .find_closest_config(
            Some("second-device"),
            RequestedOutputConfig {
                sample_rate: None,
                channels: None,
                sample_format: None,
            },
        )
        .unwrap();

    assert_eq!(
        SupportedBufferSize::Range { min: 0, max: 9999 },
        *config.buffer_size()
    );
    assert_eq!(2, config.channels());
    assert_eq!(SampleFormat::F32, config.sample_format());
    assert_eq!(SampleRate(48000), config.sample_rate());
}

fn two_devices() -> OutputBuilder<MockOutput> {
    OutputBuilder::new(
        MockOutput {
            default_host: MockHost {
                default_device: MockDevice::new(
                    "first".to_owned(),
                    SupportedStreamConfig::new(
                        2,
                        SampleRate(44100),
                        SupportedBufferSize::Unknown,
                        SampleFormat::I16,
                    ),
                    SampleRate(8000),
                    SampleRate(96000),
                    vec![
                        SupportedStreamConfigRange::new(
                            1,
                            SampleRate(8000),
                            SampleRate(48000),
                            SupportedBufferSize::Range { min: 16, max: 64 },
                            SampleFormat::I16,
                        ),
                        SupportedStreamConfigRange::new(
                            1,
                            SampleRate(22050),
                            SampleRate(22050),
                            SupportedBufferSize::Range { min: 1, max: 2 },
                            SampleFormat::I16,
                        ),
                    ],
                ),
                additional_devices: vec![MockDevice::new(
                    "  second ".to_owned(),
                    SupportedStreamConfig::new(
                        1,
                        SampleRate(32000),
                        SupportedBufferSize::Unknown,
                        SampleFormat::U8,
                    ),
                    SampleRate(32000),
                    SampleRate(32000),
                    vec![],
                )],
            },
        },
        OutputSettings::default(),
        no_events(),
    )
}

#[test]
fn closest_config_takes_the_first_range_that_offers() {
    let builder = two_devices();
    let config = builder
        .find_closest_config(
            None,
            RequestedOutputConfig {
                sample_rate: Some(SampleRate(22050)),
                channels: Some(1),
                sample_format: None,
            },
        )
        .unwrap();
    assert_eq!(
        config,
        SupportedStreamConfig::new(
            1,
            SampleRate(22050),
            SupportedBufferSize::Range { min: 16, max: 64 },
            SampleFormat::I16
        )
    );
}

#[test]
fn closest_config_includes_both_ends_of_a_range() {
    let builder = two_devices();
    for rate in [8000u32, 96000] {
        let config = builder
            .find_closest_config(
                None,
                RequestedOutputConfig {
                    sample_rate: Some(SampleRate(rate)),
                    channels: None,
                    sample_format: None,
                },
            )
            .unwrap();
        assert_eq!(config.sample_rate(), SampleRate(rate));
    }
    for rate in [7999u32, 96001] {
        let config = builder
            .find_closest_config(
                None,
                RequestedOutputConfig {
                    sample_rate: Some(SampleRate(rate)),
                    channels: None,
                    sample_format: None,
                },
            )
            .unwrap();
        assert_eq!(config.sample_rate(), SampleRate(44100));
    }
}

#[test]
fn closest_config_falls_back_to_the_default_for_an_unknown_format() {
    let builder = two_devices();
    let config = builder
        .find_closest_config(
            None,
            RequestedOutputConfig {
                sample_rate: Some(SampleRate(48000)),
                channels: Some(2),
                sample_format: Some(SampleFormat::F32),
            },
        )
        .unwrap();
    assert_eq!(config.sample_rate(), SampleRate(44100));
    assert_eq!(config.sample_format(), SampleFormat::I16);
}

#[test]
fn device_names_are_compared_without_surrounding_whitespace() {
    let builder = two_devices();
    let request = RequestedOutputConfig {
        sample_rate: None,
        channels: None,
        sample_format: None,
    };
    let config = builder.find_closest_config(Some("second"), request).unwrap();
    assert_eq!(config.sample_rate(), SampleRate(32000));
    let config = builder.find_closest_config(Some("\tsecond\n"), request).unwrap();
    assert_eq!(config.sample_rate(), SampleRate(32000));
    let config = builder.find_closest_config(Some("sec ond"), request).unwrap();
    assert_eq!(config.sample_rate(), SampleRate(44100));
    let config = builder.find_closest_config(Some("third"), request).unwrap();
    assert_eq!(config.sample_rate(), SampleRate(44100));
}

#[test]
fn pure_config_choice_matches_the_builder() {
    let default_config = SupportedStreamConfig::new(
        2,
        SampleRate(44100),
        SupportedBufferSize::Unknown,
        SampleFormat::I16,
    );
    let ranges = vec![
        SupportedStreamConfigRange::new(
            2,
            SampleRate(48000),
            SampleRate(48000),
            SupportedBufferSize::Unknown,
            SampleFormat::I32,
        ),
        SupportedStreamConfigRange::new(
            2,
            SampleRate(8000),
            SampleRate(48000),
            SupportedBufferSize::Range { min: 1, max: 9 },
            SampleFormat::I16,
        ),
    ];
    let request = RequestedOutputConfig {
        sample_rate: Some(SampleRate(48000)),
        channels: None,
        sample_format: None,
    };
    assert_eq!(
        resolve(&request, &default_config),
        (2, SampleRate(48000), SampleFormat::I16)
    );
    assert!(!default_matches(&request, &default_config));
    assert_eq!(
        first_offer(&ranges, 2, SampleRate(48000), SampleFormat::I16),
        Some(SupportedStreamConfig::new(
            2,
            SampleRate(48000),
            SupportedBufferSize::Range { min: 1, max: 9 },
            SampleFormat::I16
        ))
    );
    assert_eq!(first_offer(&ranges, 1, SampleRate(48000), SampleFormat::I16), None);
    assert_eq!(
        closest_config(&request, default_config, &ranges).buffer_size,
        SupportedBufferSize::Range { min: 1, max: 9 }
    );
    let open = RequestedOutputConfig {
        sample_rate: None,
        channels: None,
        sample_format: None,
    };
    assert!(default_matches(&open, &default_config));
    assert_eq!(closest_config(&open, default_config, &ranges), default_config);
}

#[test]
fn default_output_config_is_the_default_device_s() {
    let builder = two_devices();
    let config = builder.default_output_config().unwrap();
    assert_eq!(config.sample_rate(), SampleRate(44100));
    assert_eq!(builder.output_devices().unwrap().len(), 2);
    assert_eq!(builder.default_output_device().unwrap().name, "first");
}

#[test]
fn settings_can_be_changed() {
    let mut builder = two_devices();
    assert_eq!(
        builder.settings().buffer_duration,
        std::time::Duration::from_millis(200)
    );
    builder.set_settings(OutputSettings {
        buffer_duration: std::time::Duration::from_millis(50),
    });
    assert_eq!(
        builder.settings().buffer_duration,
        std::time::Duration::from_millis(50)
    );
}

#[test]
fn a_changed_default_device_concerns_only_an_unpinned_output() {
    let a = "speakers".to_owned();
    let b = "headphones".to_owned();
    assert!(default_device_changed(&None, &a, &b));
    assert!(!default_device_changed(&None, &a, &a));
    assert!(!default_device_changed(&Some("usb".to_owned()), &a, &b));
    let builder = two_devices();
    assert_eq!(builder.watch_default_device(String::new()), "first");
    assert_eq!(builder.watch_default_device("first".to_owned()), "first");
}

#[test]
fn a_pinned_output_keeps_the_name_that_was_last_seen() {
    let mut builder = two_devices();
    builder.set_settings(OutputSettings {
        buffer_duration: std::time::Duration::from_millis(50),
    });
    let config = SupportedStreamConfig::new(
        1,
        SampleRate(32000),
        SupportedBufferSize::Unknown,
        SampleFormat::I16,
    );
    let output = builder.new_output(Some("second".to_owned()), config).unwrap();
    assert_eq!(output.device().name, "  second ");
    assert_eq!(
        output.settings().buffer_duration,
        std::time::Duration::from_millis(50)
    );
    assert_eq!(builder.watch_default_device("gone".to_owned()), "gone");
    assert_eq!(builder.watch_default_device(String::new()), "");
    let output = builder.new_output(None, config).unwrap();
    assert_eq!(output.device().name, "first");
    assert_eq!(builder.watch_default_device("gone".to_owned()), "first");
}

#[test]
fn white_space_at_either_end_of_a_name_is_left_aside() {
    assert!(name_matches(&Ok("second".to_owned()), "second"));
    assert!(name_matches(&Ok("  second\t\n".to_owned()), "second"));
    assert!(name_matches(&Ok("second".to_owned()), "\u{a0}second\u{3000}"));
    assert!(name_matches(&Ok("\u{2003}\u{85}two words\u{1680}".to_owned()), "two words"));
    assert!(name_matches(&Ok(" \u{2028}".to_owned()), ""));
    assert!(!name_matches(&Ok("two  words".to_owned()), "two words"));
    assert!(!name_matches(&Ok("\u{200b}second".to_owned()), "second"));
    assert!(!name_matches(&Ok("second_".to_owned()), "second"));
}
