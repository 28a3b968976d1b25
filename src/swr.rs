use vstd::prelude::*;
use crate::channel_layout::ChannelLayout;
use crate::rational::{div_round, fits_i64, rescale_rnd, Rounding};
use crate::sample_format::AVSampleFormat;

verus! {

/// Specifies the resampling algorithm to use.
#[derive(Debug, Clone, Copy, PartialEq, Eq, Structural)]
pub enum ResampleAlgorithm {
    /// Fast but lower quality (linear interpolation).
    Linear,
    /// Balanced quality and speed (cubic interpolation).
    Cubic,
    /// Windowed sinc; `quality` from 0 (lowest) to 10 (highest) sets the filter size.
    Sinc { quality: i32 },
}

/// The resampler options through which an algorithm is chosen.
#[derive(Debug, Clone, Copy, PartialEq, Eq, Structural)]
pub enum ResampleOption {
    LinearInterp,
    FilterType,
    FilterSize,
}

/// The option's key in the resampler's option table.
pub open spec fn option_key(o: ResampleOption) -> Seq<char> {
    match o {
        ResampleOption::LinearInterp => "linear_interp"@,
        ResampleOption::FilterType => "filter_type"@,
        ResampleOption::FilterSize => "filter_size"@,
    }
}

impl ResampleOption {
    pub fn key(self) -> (r: &'static str)
        ensures
            r@ == option_key(self),
    {
        match self {
            ResampleOption::LinearInterp => "linear_interp",
            ResampleOption::FilterType => "filter_type",
            ResampleOption::FilterSize => "filter_size",
        }
    }
}

/// `quality` brought into 0..=10.
pub open spec fn clamp_quality(quality: int) -> int {
    if quality < 0 {
        0
    } else if quality > 10 {
        10
    } else {
        quality
    }
}

/// The option settings that select each algorithm, in the order they are applied.
/// Filter type 0 is cubic and 1 is Blackman-Nuttall windowed sinc.
pub open spec fn algorithm_settings(a: ResampleAlgorithm) -> Seq<(ResampleOption, i64)> {
    match a {
        ResampleAlgorithm::Linear => seq![
            (ResampleOption::LinearInterp, 1i64),
            (ResampleOption::FilterType, 0i64),
        ],
        ResampleAlgorithm::Cubic => seq![
            (ResampleOption::LinearInterp, 0i64),
            (ResampleOption::FilterType, 0i64),
        ],
        ResampleAlgorithm::Sinc { quality } => seq![
            (ResampleOption::LinearInterp, 0i64),
            (ResampleOption::FilterType, 1i64),
            (ResampleOption::FilterSize, (16 + 8 * clamp_quality(quality as int)) as i64),
        ],
    }
}

impl ResampleAlgorithm {
    /// The option settings that select this algorithm.
    pub fn settings(&self) -> (r: Vec<(ResampleOption, i64)>)
        ensures
            r@ == algorithm_settings(*self),
    {
        let mut v: Vec<(ResampleOption, i64)> = Vec::new();
        match *self {
            ResampleAlgorithm::Linear => {
                v.push((ResampleOption::LinearInterp, 1));
                v.push((ResampleOption::FilterType, 0));
            },
            ResampleAlgorithm::Cubic => {
                v.push((ResampleOption::LinearInterp, 0));
                v.push((ResampleOption::FilterType, 0));
            },
            ResampleAlgorithm::Sinc { quality } => {
                let q: i64 = if quality < 0 {
                    0
                } else if quality > 10 {
                    10
                } else {
                    quality as i64
                };
                v.push((ResampleOption::LinearInterp, 0));
                v.push((ResampleOption::FilterType, 1));
                v.push((ResampleOption::FilterSize, 16 + 8 * q));
            },
        }
        assert(v@ =~= algorithm_settings(*self));
        v
    }
}

/// Everything the resampler is set up from: input and output rate, sample
/// format and channel layout, and the algorithm.
#[derive(Debug, Clone, Copy)]
pub struct ResamplerConfig {
    pub in_sample_rate: i32,
    pub in_sample_fmt: AVSampleFormat,
    pub in_channel_layout: ChannelLayout,
    pub out_sample_rate: i32,
    pub out_sample_fmt: AVSampleFormat,
    pub out_channel_layout: ChannelLayout,
    pub algorithm: ResampleAlgorithm,
}

impl ResamplerConfig {
    /// A configuration with the given algorithm; the channel layouts carry only
    /// the channel counts. Rates and counts must fit the library's C `int`.
    pub fn with_algorithm(
        in_sample_rate: usize,
        in_sample_fmt: AVSampleFormat,
        in_channel_count: usize,
        out_sample_rate: usize,
        out_sample_fmt: AVSampleFormat,
        out_channel_count: usize,
        algorithm: ResampleAlgorithm,
    ) -> (r: ResamplerConfig)
        requires
            in_sample_rate <= i32::MAX,
            in_channel_count <= i32::MAX,
            out_sample_rate <= i32::MAX,
            out_channel_count <= i32::MAX,
        ensures
            r.in_sample_rate == in_sample_rate,
            r.in_sample_fmt == in_sample_fmt,
            r.in_channel_layout.spec_count() == in_channel_count,
            r.in_channel_layout.spec_order() is Unspecified,
            r.out_sample_rate == out_sample_rate,
            r.out_sample_fmt == out_sample_fmt,
            r.out_channel_layout.spec_count() == out_channel_count,
            r.out_channel_layout.spec_order() is Unspecified,
            r.algorithm == algorithm,
    {
        ResamplerConfig {
            in_sample_rate: in_sample_rate as i32,
            in_sample_fmt,
            in_channel_layout: ChannelLayout::unspecified(in_channel_count),
            out_sample_rate: out_sample_rate as i32,
            out_sample_fmt,
            out_channel_layout: ChannelLayout::unspecified(out_channel_count),
            algorithm,
        }
    }

    /// A configuration with the default algorithm, cubic interpolation.
    pub fn new(
        in_sample_rate: usize,
        in_sample_fmt: AVSampleFormat,
        in_channel_count: usize,
        out_sample_rate: usize,
        out_sample_fmt: AVSampleFormat,
        out_channel_count: usize,
    ) -> (r: ResamplerConfig)
        requires
            in_sample_rate <= i32::MAX,
            in_channel_count <= i32::MAX,
            out_sample_rate <= i32::MAX,
            out_channel_count <= i32::MAX,
        ensures
            r.in_sample_rate == in_sample_rate,
            r.in_sample_fmt == in_sample_fmt,
            r.in_channel_layout.spec_count() == in_channel_count,
            r.in_channel_layout.spec_order() is Unspecified,
            r.out_sample_rate == out_sample_rate,
            r.out_sample_fmt == out_sample_fmt,
            r.out_channel_layout.spec_count() == out_channel_count,
            r.out_channel_layout.spec_order() is Unspecified,
            r.algorithm == ResampleAlgorithm::Cubic,
    {
        Self::with_algorithm(
            in_sample_rate,
            in_sample_fmt,
            in_channel_count,
            out_sample_rate,
            out_sample_fmt,
            out_channel_count,
            ResampleAlgorithm::Cubic,
        )
    }
}

/// The output samples that `in_samples` input samples become, rounded up:
/// `ceil(in_samples * out_rate / in_rate)`.
pub open spec fn spec_out_samples(in_samples: int, in_rate: int, out_rate: int) -> int {
    div_round(in_samples * out_rate, in_rate, Rounding::Up)
}

/// The output buffer a conversion needs: the samples buffered inside the
/// resampler (`delay`, in input samples) and the new input, at the output rate,
/// rounded up.
pub open spec fn spec_predicted_output_samples(
    in_rate: int,
    out_rate: int,
    delay: int,
    input_samples: int,
) -> int {
    spec_out_samples(delay + input_samples, in_rate, out_rate)
}

/// `div_round(n, d, Up)` is the least integer whose multiple of `d` reaches `n`.
pub proof fn lemma_round_up_is_ceiling(n: int, d: int)
    requires
        d > 0,
    ensures
        div_round(n, d, Rounding::Up) * d >= n,
        (div_round(n, d, Rounding::Up) - 1) * d < n,
{
    let q = (-n) / d;
    let r = (-n) % d;
    vstd::arithmetic::div_mod::lemma_fundamental_div_mod(-n, d);
    assert(0 <= r < d);
    assert((-q) * d >= n) by (nonlinear_arith)
        requires -n == d * q + r, 0 <= r;
    assert((-q - 1) * d < n) by (nonlinear_arith)
        requires -n == d * q + r, r < d;
}

/// Output samples for `in_samples` input samples: `ceil(in_samples * out_rate / in_rate)`,
/// or `None` where that is not a value of `i64`.
pub fn get_out_samples(in_samples: i64, in_rate: i64, out_rate: i64) -> (r: Option<i64>)
    requires
        in_rate > 0,
        out_rate >= 0,
    ensures
        r == (if fits_i64(spec_out_samples(in_samples as int, in_rate as int, out_rate as int)) {
            Some(spec_out_samples(in_samples as int, in_rate as int, out_rate as int) as i64)
        } else {
            None::<i64>
        }),
{
    rescale_rnd(in_samples, out_rate, in_rate, Rounding::Up)
}

/// The output capacity for `input_samples` new samples while `delay` samples
/// wait inside the resampler, where it and `delay + input_samples` are values of `i64`.
pub open spec fn spec_predicted_output(in_rate: int, out_rate: int, delay: int, input_samples: int) -> Option<i64> {
    if fits_i64(delay + input_samples) && fits_i64(
        spec_predicted_output_samples(in_rate, out_rate, delay, input_samples),
    ) {
        Some(spec_predicted_output_samples(in_rate, out_rate, delay, input_samples) as i64)
    } else {
        None
    }
}

/// The number of output samples to allocate before converting `input_samples`
/// new samples while `delay` samples wait inside the resampler. `None` where
/// the count is not a value of `i64`.
pub fn predicted_output_samples(in_rate: i64, out_rate: i64, delay: i64, input_samples: i64) -> (r:
    Option<i64>)
    requires
        in_rate > 0,
        out_rate >= 0,
    ensures
        r == spec_predicted_output(in_rate as int, out_rate as int, delay as int, input_samples as int),
        r matches Some(v) ==> v * in_rate >= (delay + input_samples) * out_rate && (v - 1) * in_rate
            < (delay + input_samples) * out_rate,
{
    proof {
        lemma_round_up_is_ceiling((delay + input_samples) * out_rate, in_rate as int);
    }
    match delay.checked_add(input_samples) {
        Some(total) => get_out_samples(total, in_rate, out_rate),
        None => None,
    }
}

} // verus!
