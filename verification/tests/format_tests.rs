use transcriber::clip::AudioClip;
use transcriber::error::{ErrorKind, TranscriptionError};
use transcriber::format::{AudioFormat, REQUIRED_CHANNELS, REQUIRED_SAMPLE_RATE, SAMPLE_SCALE};
use transcriber::text::decimal_text;

fn format(sample_rate: u32, channels: u16) -> AudioFormat {
    AudioFormat { sample_rate, channels }
}

#[test]
fn engine_format_is_sixteen_kilohertz_mono() {
    assert_eq!(REQUIRED_SAMPLE_RATE, 16000);
    assert_eq!(REQUIRED_CHANNELS, 1);
    assert!(format(16000, 1).is_supported());
    assert_eq!(format(16000, 1).validate(), Ok(()));
}

#[test]
fn other_sample_rates_are_refused() {
    for rate in [0u32, 8000, 15999, 16001, 22050, 44100, 48000, u32::MAX] {
        assert!(!format(rate, 1).is_supported());
        assert_eq!(
            format(rate, 1).validate(),
            Err(TranscriptionError::UnsupportedAudioFormat { sample_rate: rate, channels: 1 })
        );
    }
}

#[test]
fn other_channel_counts_are_refused() {
    for channels in [0u16, 2, 6, u16::MAX] {
        assert!(!format(16000, channels).is_supported());
        assert_eq!(
            format(16000, channels).validate(),
            Err(TranscriptionError::UnsupportedAudioFormat { sample_rate: 16000, channels })
        );
    }
}

#[test]
fn refusal_carries_both_declared_values() {
    assert_eq!(
        format(44100, 2).validate(),
        Err(TranscriptionError::UnsupportedAudioFormat { sample_rate: 44100, channels: 2 })
    );
}

#[test]
fn sample_scale_maps_samples_into_the_unit_range() {
    assert_eq!(SAMPLE_SCALE, 32768);
    let scale = SAMPLE_SCALE as f32;
    assert_eq!(i16::MIN as f32 / scale, -1.0);
    assert_eq!(0i16 as f32 / scale, 0.0);
    assert_eq!(16384i16 as f32 / scale, 0.5);
    assert_eq!(-8192i16 as f32 / scale, -0.25);
    assert_eq!(i16::MAX as f32 / scale, 0.999969482421875);
    assert!(i16::MAX as f32 / scale < 1.0);
}

#[test]
fn every_sample_scales_into_the_half_open_unit_range() {
    let scale = SAMPLE_SCALE as f32;
    for sample in i16::MIN..=i16::MAX {
        let scaled = sample as f32 / scale;
        assert!(-1.0 <= scaled && scaled < 1.0);
        assert_eq!(scaled as f64, sample as f64 / 32768.0);
    }
}

#[test]
fn clip_is_made_only_in_the_engine_format() {
    let clip = AudioClip::new(format(16000, 1), vec![1, -2, 3]).unwrap();
    assert_eq!(clip.format(), format(16000, 1));
    assert_eq!(clip.samples(), &vec![1i16, -2, 3]);
    assert_eq!(clip.len(), 3);

    let refused = AudioClip::new(format(48000, 1), vec![1, -2, 3]);
    assert_eq!(
        refused,
        Err(TranscriptionError::UnsupportedAudioFormat { sample_rate: 48000, channels: 1 })
    );
}

#[test]
fn clip_may_be_empty() {
    let clip = AudioClip::new(format(16000, 1), Vec::new()).unwrap();
    assert_eq!(clip.len(), 0);
    assert!(clip.samples().is_empty());
}

#[test]
fn decimal_text_of_small_and_large_numbers() {
    assert_eq!(decimal_text(0), "0");
    assert_eq!(decimal_text(7), "7");
    assert_eq!(decimal_text(9), "9");
    assert_eq!(decimal_text(10), "10");
    assert_eq!(decimal_text(16000), "16000");
    assert_eq!(decimal_text(44100), "44100");
    assert_eq!(decimal_text(1234567890), "1234567890");
    assert_eq!(decimal_text(u32::MAX), "4294967295");
}

#[test]
fn decimal_text_agrees_with_the_standard_rendering() {
    for n in (0u32..100000).step_by(37) {
        assert_eq!(decimal_text(n), n.to_string());
    }
}

#[test]
fn message_of_each_kind_of_failure() {
    let load = TranscriptionError::ModelLoad { reason: "no such file".to_string() };
    assert_eq!(load.message(), "Failed to load model: no such file");
    assert_eq!(load.kind(), ErrorKind::ModelLoad);

    let open = TranscriptionError::AudioOpen { reason: "not found".to_string() };
    assert_eq!(open.message(), "Failed to open audio: not found");
    assert_eq!(open.kind(), ErrorKind::AudioOpen);

    let format = TranscriptionError::UnsupportedAudioFormat { sample_rate: 44100, channels: 2 };
    assert_eq!(
        format.message(),
        "Audio must be 16kHz mono, but got 44100kHz with 2 channels."
    );
    assert_eq!(format.kind(), ErrorKind::UnsupportedAudioFormat);

    let decode = TranscriptionError::AudioDecode { reason: "truncated".to_string() };
    assert_eq!(decode.message(), "Failed to decode audio: truncated");
    assert_eq!(decode.kind(), ErrorKind::AudioDecode);

    let inference = TranscriptionError::Inference { reason: "out of memory".to_string() };
    assert_eq!(inference.message(), "Inference failed: out of memory");
    assert_eq!(inference.kind(), ErrorKind::Inference);
}

#[test]
fn message_with_an_empty_reason_is_the_bare_phrase() {
    let open = TranscriptionError::AudioOpen { reason: String::new() };
    assert_eq!(open.message(), "Failed to open audio: ");
}

#[test]
fn message_of_extreme_format_values() {
    let format = TranscriptionError::UnsupportedAudioFormat { sample_rate: 0, channels: 0 };
    assert_eq!(format.message(), "Audio must be 16kHz mono, but got 0kHz with 0 channels.");
    let format =
        TranscriptionError::UnsupportedAudioFormat { sample_rate: u32::MAX, channels: u16::MAX };
    assert_eq!(
        format.message(),
        "Audio must be 16kHz mono, but got 4294967295kHz with 65535 channels."
    );
}

#[test]
fn messages_of_different_kinds_differ_even_with_equal_reasons() {
    let reason = "it broke".to_string();
    let messages = vec![
        TranscriptionError::ModelLoad { reason: reason.clone() }.message(),
        TranscriptionError::AudioOpen { reason: reason.clone() }.message(),
        TranscriptionError::AudioDecode { reason: reason.clone() }.message(),
        TranscriptionError::Inference { reason: reason.clone() }.message(),
        TranscriptionError::UnsupportedAudioFormat { sample_rate: 8000, channels: 1 }.message(),
    ];
    for i in 0..messages.len() {
        for j in 0..messages.len() {
            if i != j {
                assert_ne!(messages[i], messages[j]);
            }
        }
    }
}
