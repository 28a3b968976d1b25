//! Verified core of a media transcoding pipeline: error codes of the codec
//! library, exact timestamp arithmetic, resampler sizing and configuration,
//! the byte-level I/O bridge, and the decode → convert → encode driver.

mod channel_layout;
mod codec;
mod error;
mod format;
mod io_context;
mod log;
mod memory_io;
mod pipeline;
mod plane;
mod rational;
mod sample_format;
mod stream;
mod swr;

pub use channel_layout::{channel_order_raw, AVChannelOrder, ChannelLayout};
pub use codec::{codec_status, spec_codec_status, CodecStatus, CoderPhase, CoderState};
pub use error::{
    av_error_code, av_error_of, error_of, fferrtag, lemma_av_error_code_round_trip, AVError, Error,
    AVERROR_EOF, EAGAIN,
};
pub use format::{
    check_c_string, check_open, check_probe, check_status, duration_micros, needs_file,
    packet_read_result, Io, AVFMT_NOFILE, IO_BUFFER_SIZE,
};
pub use io_context::{
    failure_code, failure_status, read_status, seek_origins_spec, seek_status, seek_target,
    spec_read_code, spec_seek_code,
    spec_seek_target, spec_write_code, write_status, IoContext, IoContextParams, IoHandler,
    IoRegistration, SeekTarget, Transfer,
};
pub use log::{log_level_raw, log_severity, spec_severity, AVLogLevel, Severity};
pub use memory_io::{
    lemma_memory_round_trip, spec_after_write, spec_padded, spec_read_all, spec_read_bytes,
    spec_seek_position, spec_write_all, MemoryIo,
};
pub use pipeline::{
    failed, lemma_finished_run_is_complete, lemma_frames_are_stamped_in_order,
    lemma_header_written, lemma_no_unit_lost, lemma_read_outcomes, lemma_start_writes_header,
    lemma_step_keeps_inv, lemma_submit_only_when_drained, lemma_trailer_then_done,
    lemma_unexpected_event_fails, spec_step, Action, Event, PipelineConfig, Stage, Transcoder,
};
pub use plane::{plane_bytes, plane_lines, spec_plane_bytes, spec_plane_lines};
pub use rational::{
    div_round, fits_i64, lemma_rescale_round_trip, rescale, rescale_or_unset, rescale_rnd,
    spec_rescale, spec_rescale_or_unset, spec_rescale_rnd, Rational, Rounding, NOPTS_VALUE,
};
pub use sample_format::{sample_format_raw, spec_bytes_per_sample, AVSampleFormat};
pub use stream::{audio_stream_params, AudioStreamParams};
pub use swr::{
    algorithm_settings, clamp_quality, get_out_samples, lemma_round_up_is_ceiling, option_key,
    predicted_output_samples, spec_out_samples, spec_predicted_output,
    spec_predicted_output_samples, ResampleAlgorithm, ResampleOption, ResamplerConfig,
};
