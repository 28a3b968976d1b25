use vstd::prelude::*;
use crate::rational::Rational;
use crate::sample_format::AVSampleFormat;

verus! {

/// The codec parameters and clock of an audio output stream.
#[derive(Debug, Clone, Copy, PartialEq, Eq, Structural)]
pub struct AudioStreamParams {
    pub sample_rate: i32,
    pub sample_fmt: AVSampleFormat,
    pub channel_count: i32,
    /// Bits per second: 16 bits for each sample.
    pub bit_rate: i64,
    /// One tick per sample.
    pub time_base: Rational,
}

/// The parameters of an audio stream of `channels` channels at `sample_rate`
/// samples per second in `sample_fmt`. Both numbers must fit the library's C `int`.
pub fn audio_stream_params(sample_rate: usize, channels: usize, sample_fmt: AVSampleFormat) -> (r:
    AudioStreamParams)
    requires
        sample_rate <= i32::MAX,
        channels <= i32::MAX,
    ensures
        r.sample_rate == sample_rate,
        r.sample_fmt == sample_fmt,
        r.channel_count == channels,
        r.bit_rate == sample_rate * 16,
        r.time_base == (Rational { num: 1, den: sample_rate as i32 }),
{
    AudioStreamParams {
        sample_rate: sample_rate as i32,
        sample_fmt,
        channel_count: channels as i32,
        bit_rate: (sample_rate as i64) * 16,
        time_base: Rational::new(1, sample_rate as i32),
    }
}

} // verus!
