use audio_redirect::config::{SampleFormat, StreamConfig, SupportedConfigRange, is_supported};
use audio_redirect::errors::AudioError;
use audio_redirect::frames::{FrameBatch, convert};
use audio_redirect::negotiate::negotiate;

#[test]
fn membership_in_supported_ranges() {
    let ranges = vec![
        SupportedConfigRange::new(8000, 48000, 2, SampleFormat::F32),
        SupportedConfigRange::new(44100, 44100, 1, SampleFormat::I16),
    ];
    assert!(is_supported(&ranges, &StreamConfig::new(48000, 2, SampleFormat::F32)));
    assert!(is_supported(&ranges, &StreamConfig::new(44100, 1, SampleFormat::I16)));
    assert!(!is_supported(&ranges, &StreamConfig::new(48000, 1, SampleFormat::F32)));
    assert!(!is_supported(&ranges, &StreamConfig::new(96000, 2, SampleFormat::F32)));
}

#[test]
fn zero_conversion_when_sink_supports_source() {
    let source = StreamConfig::new(48000, 2, SampleFormat::F32);
    let supported = vec![SupportedConfigRange::new(8000, 96000, 2, SampleFormat::F32)];
    let n = negotiate(&source, &None, &supported).expect("negotiation");
    assert_eq!(n.config, source);
    assert!(!n.conversion_required);
}

#[test]
fn sink_only_config_wins_and_requires_conversion() {
    let source = StreamConfig::new(48000, 2, SampleFormat::F32);
    let supported = vec![SupportedConfigRange::new(44100, 44100, 2, SampleFormat::I16)];
    let n = negotiate(&source, &None, &supported).expect("negotiation");
    assert_eq!(n.config, StreamConfig::new(44100, 2, SampleFormat::I16));
    assert!(n.conversion_required);
}

#[test]
fn supported_sink_default_wins_over_closest() {
    let source = StreamConfig::new(48000, 2, SampleFormat::F32);
    let supported = vec![
        SupportedConfigRange::new(8000, 96000, 2, SampleFormat::I16),
        SupportedConfigRange::new(8000, 96000, 1, SampleFormat::I16),
    ];
    let sink_default = Some(StreamConfig::new(22050, 1, SampleFormat::I16));
    let n = negotiate(&source, &sink_default, &supported).expect("negotiation");
    assert_eq!(n.config, StreamConfig::new(22050, 1, SampleFormat::I16));
    assert!(n.conversion_required);
}

#[test]
fn closest_prefers_channel_match_then_nearest_rate() {
    let source = StreamConfig::new(48000, 2, SampleFormat::F32);
    let supported = vec![
        SupportedConfigRange::new(47999, 47999, 1, SampleFormat::F32),
        SupportedConfigRange::new(8000, 16000, 2, SampleFormat::I16),
        SupportedConfigRange::new(8000, 22050, 2, SampleFormat::I16),
    ];
    let n = negotiate(&source, &None, &supported).expect("negotiation");
    assert_eq!(n.config, StreamConfig::new(22050, 2, SampleFormat::I16));
    assert!(n.conversion_required);
}

#[test]
fn closest_ties_resolve_to_the_earliest_range() {
    let source = StreamConfig::new(48000, 2, SampleFormat::F32);
    let supported = vec![
        SupportedConfigRange::new(44100, 44100, 2, SampleFormat::I16),
        SupportedConfigRange::new(44100, 44100, 2, SampleFormat::U16),
    ];
    let n = negotiate(&source, &None, &supported).expect("negotiation");
    assert_eq!(n.config, StreamConfig::new(44100, 2, SampleFormat::I16));
}

#[test]
fn empty_sink_fails_negotiation() {
    let source = StreamConfig::new(48000, 2, SampleFormat::F32);
    let supported: Vec<SupportedConfigRange> = vec![];
    assert_eq!(
        negotiate(&source, &None, &supported).unwrap_err(),
        AudioError::NegotiationFailed
    );
}

#[test]
fn downsampling_halves_the_frames() {
    let src_cfg = StreamConfig::new(48000, 2, SampleFormat::F32);
    let batch = FrameBatch::new(src_cfg, vec![10, 11, 20, 21, 30, 31, 40, 41]);
    let target = StreamConfig::new(24000, 2, SampleFormat::I16);
    let out = convert(&batch, &target);
    assert_eq!(out.config, target);
    assert_eq!(out.samples, vec![10, 11, 30, 31]);
}

#[test]
fn upmixing_repeats_the_last_channel() {
    let src_cfg = StreamConfig::new(44100, 1, SampleFormat::I16);
    let batch = FrameBatch::new(src_cfg, vec![5, 6]);
    let target = StreamConfig::new(44100, 2, SampleFormat::I16);
    let out = convert(&batch, &target);
    assert_eq!(out.samples, vec![5, 5, 6, 6]);
    assert_eq!(out.frames(), 2);
}

#[test]
fn downmixing_drops_trailing_channels() {
    let src_cfg = StreamConfig::new(44100, 2, SampleFormat::I16);
    let batch = FrameBatch::new(src_cfg, vec![1, 2, 3, 4]);
    let target = StreamConfig::new(44100, 1, SampleFormat::I16);
    let out = convert(&batch, &target);
    assert_eq!(out.samples, vec![1, 3]);
}

#[test]
fn format_change_only_retags() {
    let src_cfg = StreamConfig::new(44100, 2, SampleFormat::F32);
    let batch = FrameBatch::new(src_cfg, vec![7, 8]);
    let target = StreamConfig::new(44100, 2, SampleFormat::I16);
    let out = convert(&batch, &target);
    assert_eq!(out.config.format, SampleFormat::I16);
    assert_eq!(out.samples, vec![7, 8]);
}

#[test]
fn upsampling_repeats_frames() {
    let src_cfg = StreamConfig::new(22050, 1, SampleFormat::I16);
    let batch = FrameBatch::new(src_cfg, vec![9]);
    let target = StreamConfig::new(44100, 1, SampleFormat::I16);
    let out = convert(&batch, &target);
    assert_eq!(out.samples, vec![9, 9]);
}
