use libavcodec::{
    audio_stream_params, get_out_samples, plane_bytes, plane_lines, predicted_output_samples, AVChannelOrder,
    AVSampleFormat, ChannelLayout, Rational, ResampleAlgorithm, ResampleOption, ResamplerConfig,
};

#[test]
fn two_seconds_at_44100_become_32000_samples_at_16000() {
    assert_eq!(predicted_output_samples(44100, 16000, 0, 88200), Some(32000));
    assert_eq!(get_out_samples(88200, 44100, 16000), Some(32000));
}

#[test]
fn prediction_includes_the_resampler_delay_and_rounds_up() {
    // 1024 input samples at 44100 Hz are 371.52 samples at 16000 Hz.
    assert_eq!(predicted_output_samples(44100, 16000, 0, 1024), Some(372));
    // 16 buffered samples add to the input before converting.
    assert_eq!(predicted_output_samples(44100, 16000, 16, 1024), Some(378));
    assert_eq!(predicted_output_samples(48000, 48000, 5, 0), Some(5));
    assert_eq!(predicted_output_samples(44100, 16000, 0, 0), Some(0));
}

#[test]
fn prediction_is_the_ceiling_for_many_inputs() {
    for (in_rate, out_rate) in [(44100i64, 16000i64), (8000, 48000), (48000, 44100), (22050, 22050)] {
        for delay in [0i64, 1, 17, 255] {
            for n in [0i64, 1, 160, 1024, 1152, 4096, 88200] {
                let p = predicted_output_samples(in_rate, out_rate, delay, n).unwrap();
                let total = (delay + n) * out_rate;
                assert!(p * in_rate >= total);
                assert!((p - 1) * in_rate < total);
            }
        }
    }
}

#[test]
fn prediction_refuses_counts_beyond_i64() {
    assert_eq!(predicted_output_samples(1, 2, i64::MAX, 1), None);
    assert_eq!(predicted_output_samples(1, 2, i64::MAX / 2 + 1, 0), None);
}

#[test]
fn algorithm_option_settings() {
    assert_eq!(
        ResampleAlgorithm::Linear.settings(),
        vec![(ResampleOption::LinearInterp, 1), (ResampleOption::FilterType, 0)]
    );
    assert_eq!(
        ResampleAlgorithm::Cubic.settings(),
        vec![(ResampleOption::LinearInterp, 0), (ResampleOption::FilterType, 0)]
    );
    assert_eq!(
        ResampleAlgorithm::Sinc { quality: 5 }.settings(),
        vec![
            (ResampleOption::LinearInterp, 0),
            (ResampleOption::FilterType, 1),
            (ResampleOption::FilterSize, 56)
        ]
    );
}

#[test]
fn sinc_quality_is_clamped() {
    assert_eq!(ResampleAlgorithm::Sinc { quality: -3 }.settings()[2], (ResampleOption::FilterSize, 16));
    assert_eq!(ResampleAlgorithm::Sinc { quality: 10 }.settings()[2], (ResampleOption::FilterSize, 96));
    assert_eq!(ResampleAlgorithm::Sinc { quality: 99 }.settings()[2], (ResampleOption::FilterSize, 96));
}

#[test]
fn option_keys() {
    assert_eq!(ResampleOption::LinearInterp.key(), "linear_interp");
    assert_eq!(ResampleOption::FilterType.key(), "filter_type");
    assert_eq!(ResampleOption::FilterSize.key(), "filter_size");
}

#[test]
fn resampler_config_defaults_to_cubic() {
    let c = ResamplerConfig::new(44100, AVSampleFormat::Fltp, 2, 16000, AVSampleFormat::S16, 1);
    assert_eq!(c.algorithm, ResampleAlgorithm::Cubic);
    assert_eq!(c.in_sample_rate, 44100);
    assert_eq!(c.out_sample_rate, 16000);
    assert_eq!(c.in_channel_layout.count(), 2);
    assert_eq!(c.out_channel_layout.count(), 1);
    assert_eq!(c.in_channel_layout.order(), AVChannelOrder::Unspecified);
    assert_eq!(c.out_channel_layout.order(), AVChannelOrder::Unspecified);
    let s = ResamplerConfig::with_algorithm(
        8000,
        AVSampleFormat::U8,
        1,
        48000,
        AVSampleFormat::Dbl,
        6,
        ResampleAlgorithm::Sinc { quality: 2 },
    );
    assert_eq!(s.algorithm, ResampleAlgorithm::Sinc { quality: 2 });
    assert_eq!(s.out_channel_layout.raw_count(), 6);
}

#[test]
fn channel_layout_count_and_order() {
    let mut l = ChannelLayout::unspecified(2);
    assert_eq!(l.count(), 2);
    l.set_count(6);
    assert_eq!(l.count(), 6);
    assert_eq!(l.raw_count(), 6);
    l.set_order(AVChannelOrder::Native);
    assert_eq!(l.order(), AVChannelOrder::Native);
    assert_eq!(l.count(), 6);
    assert_eq!(AVChannelOrder::Ambisonic.raw(), 3);
    assert_eq!(AVChannelOrder::from_raw(1), Some(AVChannelOrder::Native));
    assert_eq!(AVChannelOrder::from_raw(4), None);
}

#[test]
fn sample_formats() {
    assert_eq!(AVSampleFormat::S16.raw(), 1);
    assert_eq!(AVSampleFormat::Unspecified.raw(), -1);
    assert_eq!(AVSampleFormat::from_raw(8), Some(AVSampleFormat::Fltp));
    assert_eq!(AVSampleFormat::from_raw(12), None);
    assert_eq!(AVSampleFormat::from_raw(-2), None);
    assert!(AVSampleFormat::S16p.is_planar());
    assert!(!AVSampleFormat::S16.is_planar());
    assert_eq!(AVSampleFormat::S16.bytes_per_sample(), 2);
    assert_eq!(AVSampleFormat::Dblp.bytes_per_sample(), 8);
    assert_eq!(AVSampleFormat::Unspecified.bytes_per_sample(), 0);
}

#[test]
fn audio_stream_parameters() {
    let p = audio_stream_params(16000, 1, AVSampleFormat::S16);
    assert_eq!(p.sample_rate, 16000);
    assert_eq!(p.channel_count, 1);
    assert_eq!(p.bit_rate, 256000);
    assert_eq!(p.time_base, Rational::new(1, 16000));
    assert_eq!(p.sample_fmt, AVSampleFormat::S16);
}

#[test]
fn plane_sizes() {
    // 4:2:0 chroma planes hold half the lines, rounded up.
    assert_eq!(plane_lines(1080, 1, 0), 1080);
    assert_eq!(plane_lines(1080, 1, 1), 540);
    assert_eq!(plane_lines(1081, 1, 2), 541);
    assert_eq!(plane_lines(1081, 1, 3), 1081);
    assert_eq!(plane_lines(7, 2, 1), 2);
    assert_eq!(plane_lines(7, 0, 1), 7);
    assert_eq!(plane_lines(7, 40, 1), 1);
    assert_eq!(plane_lines(0, 40, 1), 0);
    assert_eq!(plane_bytes(1920, 1080), Some(1920 * 1080));
    assert_eq!(plane_bytes(-1920, 1080), None);
    assert_eq!(plane_bytes(0, 10), None);
    assert_eq!(plane_bytes(64, -1), None);
    assert_eq!(plane_bytes(4096, 1), Some(4096));
}
