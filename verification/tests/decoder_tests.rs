use decal::decoder::mix::{
    adjust_buffer_size, first_sound, mix_into, silence, trim_leading_silence,
};
use decal::decoder::time::{position_of, TimeBase};
use decal::decoder::media::{BlockSpec, PacketHead, TrackInfo};
use decal::decoder::{
    accept_channels, audio_track, decode_failure, packet_choice, read_failure,
    settle_refused_seek, timestamp_after_seek, Decoder, DecoderError, DecoderSettings,
    PacketChoice, SeekedTo,
};
use decal::sample::Volume;
use std::io::Cursor;
use std::time::Duration;

fn wav(channels: u16, rate: u32, samples: &[i16]) -> Vec<u8> {
    let data_len = (samples.len() * 2) as u32;
    let mut bytes = Vec::with_capacity(44 + samples.len() * 2);
    bytes.extend_from_slice(b"RIFF");
    bytes.extend_from_slice(&(36 + data_len).to_le_bytes());
    bytes.extend_from_slice(b"WAVE");
    bytes.extend_from_slice(b"fmt ");
    bytes.extend_from_slice(&16u32.to_le_bytes());
    bytes.extend_from_slice(&1u16.to_le_bytes());
    bytes.extend_from_slice(&channels.to_le_bytes());
    bytes.extend_from_slice(&rate.to_le_bytes());
    bytes.extend_from_slice(&(rate * channels as u32 * 2).to_le_bytes());
    bytes.extend_from_slice(&(channels * 2).to_le_bytes());
    bytes.extend_from_slice(&16u16.to_le_bytes());
    bytes.extend_from_slice(b"data");
    bytes.extend_from_slice(&data_len.to_le_bytes());
    for sample in samples {
        bytes.extend_from_slice(&sample.to_le_bytes());
    }
    bytes
}

fn stream(bytes: Vec<u8>) -> symphonia::core::io::MediaSourceStream<'static> {
    symphonia::core::io::MediaSourceStream::new(Box::new(Cursor::new(bytes)), Default::default())
}

fn open(
    channels: u16,
    rate: u32,
    samples: &[i16],
    volume: Volume,
    output_channels: usize,
    gapless: bool,
) -> Decoder {
    Decoder::new(
        stream(wav(channels, rate, samples)),
        Some("wav".to_owned()),
        volume,
        output_channels,
        DecoderSettings {
            enable_gapless: gapless,
        },
    )
    .unwrap()
}

fn ramp(len: usize) -> Vec<i16> {
    (0..len).map(|i| ((i * 37 + 11) % 20011) as i16 - 10000).collect()
}

fn drain(decoder: &mut Decoder) -> Vec<i16> {
    let mut all = decoder.current().to_vec();
    while let Some(block) = decoder.next().unwrap() {
        all.extend_from_slice(block);
    }
    all
}

#[test]
fn equal_channels_hand_out_the_source_times_the_volume() {
    let source = ramp(20000);
    let mut decoder = open(2, 44100, &source, Volume::unity(), 2, false);
    assert_eq!(decoder.sample_rate(), 44100);
    assert_eq!(drain(&mut decoder), source);

    let mut decoder = open(2, 44100, &source, Volume::from_raw(32768), 2, false);
    let expected: Vec<i16> = source.iter().map(|s| s / 2).collect();
    assert_eq!(drain(&mut decoder), expected);

    let mut decoder = open(1, 8000, &source, Volume::from_percent(25), 1, false);
    let expected: Vec<i16> = source
        .iter()
        .map(|s| ((*s as i64 * 16384) / 65536) as i16)
        .collect();
    assert_eq!(drain(&mut decoder), expected);
}

#[test]
fn a_mono_source_plays_the_same_on_both_channels() {
    let source = ramp(9000);
    let mut decoder = open(1, 22050, &source, Volume::unity(), 2, false);
    let played = drain(&mut decoder);
    assert_eq!(played.len(), 2 * source.len());
    for (frame, sample) in source.iter().enumerate() {
        assert_eq!(played[2 * frame], *sample);
        assert_eq!(played[2 * frame + 1], *sample);
    }
}

#[test]
fn a_stereo_source_is_averaged_for_one_channel() {
    let source = ramp(9000);
    let mut decoder = open(2, 22050, &source, Volume::unity(), 1, false);
    let played = drain(&mut decoder);
    assert_eq!(played.len(), source.len() / 2);
    for (frame, sample) in played.iter().enumerate() {
        let sum = source[2 * frame] as i32 + source[2 * frame + 1] as i32;
        assert_eq!(*sample as i32, sum / 2);
    }
    let mut decoder = open(2, 22050, &[1000, 3000, -7, -8], Volume::from_raw(32768), 1, false);
    assert_eq!(drain(&mut decoder), vec![1000, -3]);
}

#[test]
fn blocks_for_two_channels_are_made_of_pairs() {
    let source = ramp(30001);
    let mut decoder = open(1, 44100, &source, Volume::unity(), 2, false);
    assert_eq!(decoder.current().len() % 2, 0);
    while let Some(block) = decoder.next().unwrap() {
        assert_eq!(block.len() % 2, 0);
    }
    let mut decoder = open(2, 44100, &source[..30000], Volume::unity(), 2, true);
    assert_eq!(decoder.current().len() % 2, 0);
    while let Some(block) = decoder.next().unwrap() {
        assert_eq!(block.len() % 2, 0);
    }
}

#[test]
fn the_end_of_the_source_is_told_again_and_again() {
    let source = ramp(5000);
    let mut decoder = open(1, 8000, &source, Volume::unity(), 1, false);
    let mut blocks = 1;
    while decoder.next().unwrap().is_some() {
        blocks += 1;
    }
    assert!(blocks >= 1);
    let last = decoder.current().to_vec();
    for _ in 0..3 {
        assert!(decoder.next().unwrap().is_none());
        assert_eq!(decoder.current(), last.as_slice());
    }
}

#[test]
fn leading_silence_is_dropped_for_gapless_playback() {
    let mut source = vec![0i16; 2048];
    source.extend(ramp(6000).iter().map(|s| if *s == 0 { 1 } else { *s }));
    let mut decoder = open(1, 44100, &source, Volume::unity(), 1, true);
    assert_eq!(decoder.samples_skipped(), 2048);
    assert_eq!(decoder.current()[0], source[2048]);
    assert_eq!(drain(&mut decoder), source[2048..].to_vec());

    let mut decoder = open(1, 44100, &source, Volume::unity(), 1, false);
    assert_eq!(decoder.samples_skipped(), 0);
    assert_eq!(decoder.current()[0], 0);
    assert_eq!(drain(&mut decoder), source);
}

#[test]
fn gapless_trimming_keeps_stereo_pairs_together() {
    let mut source = vec![0i16; 2048];
    source.push(0);
    source.push(500);
    source.extend_from_slice(&[7, 8, 9, 10]);
    let mut decoder = open(2, 44100, &source, Volume::unity(), 2, true);
    assert_eq!(decoder.samples_skipped(), 2048);
    assert_eq!(&decoder.current()[..4], &[0, 500, 7, 8]);
    assert_eq!(drain(&mut decoder), vec![0, 500, 7, 8, 9, 10]);

    let mut source = vec![0i16; 2048];
    source.extend_from_slice(&[500, 0, 7, 8]);
    let decoder = open(2, 44100, &source, Volume::unity(), 2, true);
    assert_eq!(decoder.samples_skipped(), 2048);
    assert_eq!(decoder.current(), &[500, 0, 7, 8]);
}

#[test]
fn gapless_trimming_scales_what_it_keeps() {
    let mut source = vec![0i16; 100];
    source.extend_from_slice(&[4000, 8000, -4000]);
    let decoder = open(1, 44100, &source, Volume::from_raw(32768), 1, true);
    assert_eq!(decoder.samples_skipped(), 100);
    assert_eq!(decoder.current(), &[1000, 2000, -1000]);
}

#[test]
fn a_silent_source_ends_gapless_setup_at_its_end() {
    let source = vec![0i16; 30000];
    let mut decoder = open(1, 44100, &source, Volume::unity(), 1, true);
    assert_eq!(decoder.samples_skipped(), 30000);
    assert!(decoder.next().unwrap().is_none());
    assert!(decoder.current().iter().all(|s| *s == 0));
}

#[test]
fn more_than_two_channels_are_refused() {
    let source = ramp(3000);
    let result = Decoder::new(
        stream(wav(3, 44100, &source)),
        Some("wav".to_owned()),
        Volume::unity(),
        2,
        DecoderSettings::default(),
    );
    assert!(matches!(result, Err(DecoderError::UnsupportedFormat(_))));
    assert!(accept_channels(0).is_ok());
    assert!(accept_channels(1).is_ok());
    assert!(accept_channels(2).is_ok());
    assert!(matches!(
        accept_channels(3),
        Err(DecoderError::UnsupportedFormat(_))
    ));
}

#[test]
fn bytes_that_are_no_audio_are_refused() {
    let result = Decoder::new(
        stream(vec![0x55; 4096]),
        None,
        Volume::unity(),
        2,
        DecoderSettings::default(),
    );
    assert!(matches!(result, Err(DecoderError::FormatNotFound(_))));
}

#[test]
fn an_empty_source_opens_and_ends_at_once() {
    let mut decoder = open(2, 44100, &[], Volume::unity(), 2, false);
    assert_eq!(decoder.current().len(), 0);
    assert!(decoder.next().unwrap().is_none());
    assert_eq!(decoder.sample_rate(), 0);
}

#[test]
fn a_paused_decoder_hands_out_silence_and_reads_nothing() {
    let source = ramp(40000);
    let mut reference = open(1, 8000, &source, Volume::unity(), 1, false);
    let expected = drain(&mut reference);

    let mut decoder = open(1, 8000, &source, Volume::unity(), 1, false);
    let mut played = decoder.current().to_vec();
    played.extend_from_slice(decoder.next().unwrap().unwrap());
    assert!(!decoder.is_paused());
    decoder.pause();
    assert!(decoder.is_paused());
    let len = decoder.current().len();
    for _ in 0..5 {
        let block = decoder.next().unwrap().unwrap();
        assert_eq!(block.len(), len);
        assert!(block.iter().all(|s| *s == 0));
    }
    decoder.resume();
    assert!(!decoder.is_paused());
    while let Some(block) = decoder.next().unwrap() {
        played.extend_from_slice(block);
    }
    assert_eq!(played, expected);
}

#[test]
fn the_volume_can_be_changed_between_blocks() {
    let source = ramp(40000);
    let mut decoder = open(1, 8000, &source, Volume::unity(), 1, false);
    assert_eq!(decoder.volume(), Volume::unity());
    let first = decoder.current().to_vec();
    assert_eq!(first.as_slice(), &source[..first.len()]);
    decoder.set_volume(Volume::from_raw(0));
    assert_eq!(decoder.volume().raw(), 0);
    let second = decoder.next().unwrap().unwrap();
    assert!(!second.is_empty());
    assert!(second.iter().all(|s| *s == 0));
}

#[test]
fn a_seek_goes_to_the_time_and_passes_over_what_lies_before() {
    let rate = 8000u32;
    let source: Vec<i16> = (0..rate as usize * 8).map(|i| (i / 8) as i16).collect();
    let mut decoder = open(1, rate, &source, Volume::unity(), 1, false);
    for _ in 0..4 {
        decoder.next().unwrap().unwrap();
    }
    let seeked = decoder.seek(Duration::from_secs(5)).unwrap();
    assert_eq!(seeked.required_ts, 40000);
    assert!(seeked.actual_ts <= seeked.required_ts);
    assert_eq!(decoder.current_position().position, Duration::from_secs(5));
    let block = decoder.next().unwrap().unwrap().to_vec();
    let position = decoder.current_position().position;
    assert!(position >= Duration::from_secs(5));
    assert!(position < Duration::from_secs(5) + Duration::from_millis(1000));
    let start = (position.as_millis() as usize) * rate as usize / 1000;
    assert_eq!(block[0], source[start]);
    assert!(block[0] >= 5000);
}

#[test]
fn a_refused_seek_leaves_the_decoder_where_it_was() {
    let rate = 8000u32;
    let source: Vec<i16> = (0..rate as usize * 2).map(|i| (i / 8) as i16).collect();
    let mut decoder = open(1, rate, &source, Volume::unity(), 1, false);
    decoder.next().unwrap().unwrap();
    let before = decoder.current_position().position;
    assert!(decoder.seek(Duration::from_secs(3600)).is_err());
    let after = decoder.current_position().position;
    assert!(after <= before);
    assert!(before - after < Duration::from_millis(1));
    let block = decoder.next().unwrap().unwrap().to_vec();
    let position = decoder.current_position().position;
    let start = (position.as_millis() as usize) * rate as usize / 1000;
    assert_eq!(block[0], source[start]);
}

#[test]
fn a_seek_after_the_end_plays_again() {
    let rate = 8000u32;
    let source: Vec<i16> = (0..rate as usize * 2).map(|i| (i / 8) as i16).collect();
    let mut decoder = open(1, rate, &source, Volume::unity(), 1, false);
    while decoder.next().unwrap().is_some() {}
    assert!(decoder.next().unwrap().is_none());
    decoder.seek(Duration::from_secs(1)).unwrap();
    let block = decoder.next().unwrap().unwrap().to_vec();
    let position = decoder.current_position().position;
    assert!(position >= Duration::from_secs(1));
    let start = (position.as_millis() as usize) * rate as usize / 1000;
    assert_eq!(block[0], source[start]);
    assert!(block[0] >= 1000);
}

#[test]
fn the_position_is_the_time_of_the_timestamp() {
    let source = ramp(44100);
    let mut decoder = open(1, 44100, &source, Volume::unity(), 1, false);
    let position = decoder.current_position();
    assert_eq!(position.position, Duration::ZERO);
    assert!(position.retrieval_time.is_some());
    let first_len = decoder.current().len() as u64;
    decoder.next().unwrap().unwrap();
    assert_eq!(
        decoder.current_position().position,
        Duration::from_millis(first_len * 1000 / 44100)
    );
}

#[test]
fn timestamps_become_milliseconds_rounded_toward_zero() {
    let tb = TimeBase {
        numer: 1,
        denom: 44100,
    };
    assert_eq!(position_of(tb, 0), 0);
    assert_eq!(position_of(tb, 44100), 1000);
    assert_eq!(position_of(tb, 44099), 999);
    assert_eq!(position_of(tb, 45), 1);
    assert_eq!(position_of(tb, 44), 0);
    assert_eq!(position_of(tb, -44100), 0);
    let tb = TimeBase { numer: 3, denom: 7 };
    assert_eq!(position_of(tb, 10), 4285);
    let tb = TimeBase {
        numer: u32::MAX,
        denom: 1,
    };
    assert_eq!(position_of(tb, i64::MAX), u64::MAX);
    assert_eq!(position_of(tb, i64::MIN), 0);
    let tb = TimeBase {
        numer: 1000,
        denom: 1,
    };
    assert_eq!(position_of(tb, 9_000_000_000_000_000), u64::MAX);
    assert_eq!(position_of(tb, 9_000_000_000), 9_000_000_000_000_000);
}

#[test]
fn packets_of_other_tracks_and_before_a_seek_are_passed_over() {
    assert_eq!(packet_choice(1, None, 1, 0), PacketChoice::Use);
    assert_eq!(packet_choice(1, None, 2, 0), PacketChoice::Skip);
    assert_eq!(packet_choice(1, Some(100), 1, 99), PacketChoice::Skip);
    assert_eq!(packet_choice(1, Some(100), 1, 100), PacketChoice::Use);
    assert_eq!(packet_choice(1, Some(100), 1, 101), PacketChoice::Use);
    assert_eq!(packet_choice(1, Some(100), 2, 101), PacketChoice::Skip);
    assert_eq!(packet_choice(0, Some(-5), 0, -6), PacketChoice::Skip);
}

#[test]
fn mixing_fills_the_front_of_a_buffer_that_only_grows() {
    let mut buf = vec![9i16; 3];
    let n = mix_into(&mut buf, &vec![1, -2], 1, 2, Volume::unity());
    assert_eq!(n, 4);
    assert_eq!(buf, vec![1, 1, -2, -2]);
    let n = mix_into(&mut buf, &vec![10, 20, 31, 40, 5], 2, 1, Volume::unity());
    assert_eq!(n, 2);
    assert_eq!(buf, vec![15, 35, -2, -2]);
    let n = mix_into(&mut buf, &vec![3, 4, 5], 2, 2, Volume::from_raw(2 * 65536));
    assert_eq!(n, 3);
    assert_eq!(buf, vec![6, 8, 10, -2]);
    let n = mix_into(&mut buf, &vec![], 1, 1, Volume::unity());
    assert_eq!(n, 0);
    assert_eq!(buf, vec![6, 8, 10, -2]);
    let n = mix_into(&mut buf, &vec![1, 2, 3, 4, 5], 0, 7, Volume::unity());
    assert_eq!(n, 5);
    assert_eq!(buf, vec![1, 2, 3, 4, 5]);
}

#[test]
fn buffers_grow_as_silence_and_never_shrink() {
    let mut buf = vec![1i16, 2, 3];
    adjust_buffer_size(&mut buf, 2);
    assert_eq!(buf, vec![1, 2, 3]);
    adjust_buffer_size(&mut buf, 3);
    assert_eq!(buf, vec![1, 2, 3]);
    adjust_buffer_size(&mut buf, 5);
    assert_eq!(buf, vec![0; 5]);
    silence(&mut buf);
    assert_eq!(buf, vec![0; 5]);
    let mut buf = vec![4i16, 5];
    silence(&mut buf);
    assert_eq!(buf, vec![0, 0]);
}

#[test]
fn the_first_sound_is_found_and_trimming_starts_on_a_pair() {
    assert_eq!(first_sound(&[0, 0, 3, 0]), Some(2));
    assert_eq!(first_sound(&[0, 0, 0]), None);
    assert_eq!(first_sound(&[]), None);
    assert_eq!(first_sound(&[-1]), Some(0));

    let mut buf = vec![0i16, 0, 0, 5, 6, 7, 99];
    assert_eq!(
        trim_leading_silence(&mut buf, 6, 2, Volume::unity()),
        Some((2, 4))
    );
    assert_eq!(buf, vec![0, 5, 6, 7, 6, 7, 99]);

    let mut buf = vec![0i16, 0, 0, 5, 6, 7, 99];
    assert_eq!(
        trim_leading_silence(&mut buf, 6, 1, Volume::from_raw(32768)),
        Some((3, 3))
    );
    assert_eq!(buf, vec![2, 3, 3, 5, 6, 7, 99]);

    let mut buf = vec![0i16, 0, 0, 5];
    assert_eq!(trim_leading_silence(&mut buf, 3, 2, Volume::unity()), None);
    assert_eq!(buf, vec![0, 0, 0, 5]);

    let mut buf = vec![4i16, 5];
    assert_eq!(
        trim_leading_silence(&mut buf, 2, 2, Volume::unity()),
        Some((0, 2))
    );
    assert_eq!(buf, vec![4, 5]);
}

fn io_error() -> symphonia::core::errors::Error {
    symphonia::core::errors::Error::IoError(std::io::Error::other("gone"))
}

#[test]
fn failures_of_the_demuxer_are_resets_or_decode_errors() {
    assert!(matches!(
        read_failure(symphonia::core::errors::Error::ResetRequired),
        DecoderError::ResetRequired
    ));
    assert!(matches!(
        read_failure(symphonia::core::errors::Error::DecodeError("bad")),
        DecoderError::DecodeError(symphonia::core::errors::Error::DecodeError("bad"))
    ));
    assert!(matches!(
        read_failure(io_error()),
        DecoderError::DecodeError(symphonia::core::errors::Error::IoError(_))
    ));
    assert!(matches!(
        read_failure(symphonia::core::errors::Error::Unsupported("x")),
        DecoderError::DecodeError(symphonia::core::errors::Error::Unsupported("x"))
    ));
}

#[test]
fn failures_of_the_codec_can_be_got_over_where_data_was_malformed() {
    assert!(matches!(
        decode_failure(symphonia::core::errors::Error::DecodeError("bad frame")),
        DecoderError::Recoverable("bad frame")
    ));
    assert!(matches!(
        decode_failure(symphonia::core::errors::Error::ResetRequired),
        DecoderError::ResetRequired
    ));
    assert!(matches!(
        decode_failure(io_error()),
        DecoderError::DecodeError(symphonia::core::errors::Error::IoError(_))
    ));
    assert!(matches!(
        decode_failure(symphonia::core::errors::Error::LimitError("much")),
        DecoderError::DecodeError(symphonia::core::errors::Error::LimitError("much"))
    ));
}

#[test]
fn a_refused_seek_reports_the_refusal_unless_going_back_failed_too() {
    let seeked = SeekedTo {
        track_id: 0,
        required_ts: 77,
        actual_ts: 70,
    };
    let (error, marker) = settle_refused_seek(
        symphonia::core::errors::Error::Unsupported("first"),
        Ok(seeked),
    );
    assert!(matches!(
        error.0,
        symphonia::core::errors::Error::Unsupported("first")
    ));
    assert_eq!(marker, Some(77));
    let (error, marker) = settle_refused_seek(
        symphonia::core::errors::Error::Unsupported("first"),
        Err(symphonia::core::errors::Error::LimitError("second")),
    );
    assert!(matches!(
        error.0,
        symphonia::core::errors::Error::LimitError("second")
    ));
    assert_eq!(marker, None);
}

#[test]
fn a_source_that_is_cut_short_plays_what_is_there() {
    let source = ramp(5000);
    let mut bytes = wav(1, 8000, &source);
    bytes.truncate(44 + 2 * 3000);
    let mut decoder = Decoder::new(
        stream(bytes),
        Some("wav".to_owned()),
        Volume::unity(),
        1,
        DecoderSettings::default(),
    )
    .unwrap();
    let mut played = decoder.current().to_vec();
    loop {
        match decoder.next() {
            Ok(Some(block)) => played.extend_from_slice(block),
            Ok(None) => break,
            Err(error) => {
                assert!(matches!(error, DecoderError::DecodeError(_)));
                break;
            }
        }
    }
    assert!(played.len() <= 3000);
    assert_eq!(played.as_slice(), &source[..played.len()]);
}

#[test]
fn a_block_that_the_codec_made_becomes_the_current_block() {
    let source = ramp(40000);
    let mut decoder = open(1, 8000, &source, Volume::unity(), 2, false);
    let first = decoder.current().to_vec();
    assert!(matches!(
        decoder.take_block(Err(symphonia::core::errors::Error::DecodeError("torn"))),
        Err(DecoderError::Recoverable("torn"))
    ));
    assert_eq!(decoder.current(), first.as_slice());
    assert!(matches!(
        decoder.take_block(Err(symphonia::core::errors::Error::ResetRequired)),
        Err(DecoderError::ResetRequired)
    ));
    assert!(matches!(
        decoder.take_block(Err(io_error())),
        Err(DecoderError::DecodeError(_))
    ));
    assert_eq!(decoder.current(), first.as_slice());
    decoder.set_volume(Volume::from_raw(32768));
    let block = BlockSpec {
        rate: 8000,
        channels: 5,
        frames: first.len() / 2,
    };
    decoder.take_block(Ok(block)).unwrap();
    assert_eq!(decoder.sample_rate(), 8000);
    let halved: Vec<i16> = first.iter().map(|s| s / 2).collect();
    assert_eq!(decoder.current(), halved.as_slice());
}

#[test]
fn the_timestamp_after_a_seek_is_the_time_in_ticks() {
    let tb = TimeBase {
        numer: 1,
        denom: 44100,
    };
    assert_eq!(timestamp_after_seek(Some(tb), 5, 0, 17), 220500);
    assert_eq!(timestamp_after_seek(Some(tb), 0, 500_000_000, 17), 22050);
    assert_eq!(timestamp_after_seek(Some(tb), 1, 999_999_999, 17), 88199);
    assert_eq!(timestamp_after_seek(None, 5, 0, 17), 17);
    assert_eq!(timestamp_after_seek(Some(tb), u64::MAX, 0, 17), 17);
    assert_eq!(timestamp_after_seek(Some(tb), 5, 1_000_000_000, 17), 17);
    let broken = TimeBase { numer: 0, denom: 1 };
    assert_eq!(timestamp_after_seek(Some(broken), 5, 0, -3), -3);
    let slow = TimeBase { numer: 3, denom: 2 };
    assert_eq!(timestamp_after_seek(Some(slow), 10, 0, 0), 6);
}

#[test]
fn a_source_without_an_audio_track_is_refused() {
    assert!(matches!(audio_track(None), Err(DecoderError::NoTracks)));
    assert!(matches!(
        audio_track(Some(TrackInfo {
            id: 3,
            time_base: None,
            params: None,
        })),
        Err(DecoderError::InvalidTrackType)
    ));
    let track = audio_track(Some(TrackInfo {
        id: 3,
        time_base: Some(TimeBase {
            numer: 1,
            denom: 44100,
        }),
        params: Some(symphonia::core::codecs::audio::AudioCodecParameters::new()),
    }))
    .unwrap();
    assert_eq!(track.id, 3);
    assert_eq!(
        track.time_base,
        Some(TimeBase {
            numer: 1,
            denom: 44100
        })
    );
}

fn packet(track_id: u32, ts: i64, samples: &[i16]) -> PacketHead {
    let bytes: Vec<u8> = samples.iter().flat_map(|s| s.to_le_bytes()).collect();
    PacketHead {
        track_id,
        ts,
        packet: symphonia::core::packet::Packet::new(
            track_id,
            symphonia::core::units::Timestamp::new(ts),
            symphonia::core::units::Duration::new(samples.len() as u64),
            bytes,
        ),
    }
}

#[test]
fn a_packet_that_is_taken_moves_the_timestamp_and_makes_the_block() {
    let mut decoder = open(1, 8000, &ramp(4000), Volume::unity(), 1, false);
    let first = decoder.current().to_vec();
    assert_eq!(decoder.current_position().position, Duration::ZERO);
    assert!(!decoder.take_packet(&packet(5, 4000, &[7, -9, 11])).unwrap());
    assert_eq!(decoder.current(), &first[..]);
    assert_eq!(decoder.current_position().position, Duration::ZERO);
    assert!(decoder.take_packet(&packet(0, 4000, &[7, -9, 11])).unwrap());
    assert_eq!(decoder.current(), &[7, -9, 11][..]);
    assert_eq!(
        decoder.current_position().position,
        Duration::from_millis(500)
    );
    decoder.seek(Duration::from_millis(100)).unwrap();
    assert!(!decoder.take_packet(&packet(0, 0, &[1, 2])).unwrap());
    assert_eq!(decoder.current(), &[7, -9, 11][..]);
    assert!(decoder.take_packet(&packet(0, 2400, &[1, 2])).unwrap());
    assert_eq!(decoder.current(), &[1, 2][..]);
    assert_eq!(
        decoder.current_position().position,
        Duration::from_millis(300)
    );
}

#[test]
fn the_count_of_skipped_samples_holds_whole_blocks_and_the_trim() {
    let mut source = vec![0i16; 2 * 3000];
    source.extend_from_slice(&[0, 0, 0, 9, 5, 5]);
    let decoder = open(2, 8000, &source, Volume::unity(), 2, true);
    assert_eq!(decoder.samples_skipped(), 6002);
    assert_eq!(decoder.samples_skipped() % 2, 0);
    assert_eq!(decoder.current().len() % 2, 0);
    assert_eq!(&decoder.current()[..2], &[0, 9][..]);
    let plain = open(2, 8000, &source, Volume::unity(), 2, false);
    assert_eq!(plain.samples_skipped(), 0);
}

#[test]
fn a_seek_that_is_refused_goes_back_to_the_millisecond() {
    let rate = 8000u32;
    let source: Vec<i16> = (0..rate as usize * 2).map(|i| (i / 8) as i16).collect();
    let mut decoder = open(1, rate, &source, Volume::unity(), 1, false);
    decoder.seek(Duration::from_millis(750)).unwrap();
    decoder.next().unwrap().unwrap();
    let before = decoder.current_position().position;
    assert!(before >= Duration::from_millis(750));
    assert!(decoder.seek(Duration::from_secs(3600)).is_err());
    let after = decoder.current_position().position;
    assert_eq!(after.as_millis(), before.as_millis());
    assert_eq!(
        timestamp_after_seek(
            Some(TimeBase {
                numer: 1,
                denom: rate
            }),
            (before.as_millis() / 1000) as u64,
            ((before.as_millis() % 1000) as u32) * 1_000_000,
            0
        ),
        (before.as_millis() as i64) * 8
    );
}

#[test]
fn going_back_to_a_position_never_goes_forward() {
    let tb = TimeBase {
        numer: 1,
        denom: 44100,
    };
    for millis in [0u64, 1, 2, 999, 1000, 1234, 59_999] {
        let ts = timestamp_after_seek(
            Some(tb),
            millis / 1000,
            ((millis % 1000) as u32) * 1_000_000,
            -1,
        );
        assert!(ts >= 0);
        assert!(position_of(tb, ts) <= millis);
        assert!(millis - position_of(tb, ts) <= 1);
    }
    assert_eq!(timestamp_after_seek(Some(tb), 0, 1_000_000, -1), 44);
    assert_eq!(position_of(tb, 44), 0);
}
