use vstd::prelude::*;
use crate::error::{error_of, AVError, Error, AVERROR_EOF, EAGAIN};
use crate::rational::{rescale_or_unset, spec_rescale_or_unset, Rational};
use crate::swr::{predicted_output_samples, spec_predicted_output};

verus! {

/// What the transcoding driver is set up with.
#[derive(Debug, Clone, Copy, PartialEq, Eq, Structural)]
pub struct PipelineConfig {
    /// Index of the input stream that is transcoded; packets of other streams are skipped.
    pub stream_index: i32,
    /// Sample rate of the decoded audio.
    pub in_sample_rate: i64,
    /// Sample rate after resampling.
    pub out_sample_rate: i64,
    /// Clock of the encoder's packets.
    pub encoder_time_base: Rational,
    /// Clock of the output stream.
    pub stream_time_base: Rational,
}

impl PipelineConfig {
    pub open spec fn is_valid(self) -> bool {
        &&& self.in_sample_rate > 0
        &&& self.out_sample_rate > 0
        &&& self.encoder_time_base.is_clock()
        &&& self.stream_time_base.is_clock()
    }
}

/// The next thing the caller must do against the codec library; the result
/// goes back to `Transcoder::step` as an `Event`.
#[derive(Debug, Clone, Copy, PartialEq, Eq, Structural)]
pub enum Action {
    /// Write the output container's header (answer `Written`).
    WriteHeader,
    /// Read the next packet of the input (answer `Read`).
    ReadPacket,
    /// Submit the packet just read to the decoder (answer `Submitted`).
    SendPacket,
    /// Submit the end-of-input marker, an empty packet, to the decoder (answer `Submitted`).
    FlushDecoder,
    /// Retrieve a frame from the decoder (answer `Decoded`).
    ReceiveFrame,
    /// Convert the decoded frame into an output frame allocated for `capacity` samples (answer `Converted`).
    Convert { capacity: i64 },
    /// Drain the resampler into an output frame allocated for `capacity` samples (answer `Converted`).
    FlushResampler { capacity: i64 },
    /// Submit the converted frame to the encoder, stamped `pts` (answer `Submitted`).
    SendFrame { pts: i64 },
    /// Submit the end-of-input marker to the encoder (answer `Submitted`).
    FlushEncoder,
    /// Retrieve a packet from the encoder (answer `Encoded`).
    ReceivePacket,
    /// Write the encoded packet with these timestamps, in the output stream's clock (answer `Written`).
    WritePacket { pts: i64, dts: i64, duration: i64 },
    /// Write the output container's trailer (answer `Written`).
    WriteTrailer,
    /// Nothing is left to do.
    Finish,
}

/// What performing an action gave: the codec library's return value and the
/// values read alongside it.
#[derive(Debug, Clone, Copy, PartialEq, Eq, Structural)]
pub enum Event {
    /// The driver starts.
    Start,
    /// A packet read: the status and the packet's stream.
    Read { ret: i32, stream_index: i32 },
    /// A submission to the decoder or the encoder.
    Submitted { ret: i32 },
    /// A frame retrieval: the status, the frame's sample count, and the
    /// samples then waiting inside the resampler (at the input rate).
    Decoded { ret: i32, samples: i32, delay: i64 },
    /// A conversion: the samples produced (or a negative status), and the
    /// samples still waiting inside the resampler.
    Converted { ret: i32, delay: i64 },
    /// A packet retrieval from the encoder: the status and its timestamps in
    /// the encoder's clock.
    Encoded { ret: i32, pts: i64, dts: i64, duration: i64 },
    /// A header, packet or trailer write.
    Written { ret: i32 },
}

/// Which result the driver waits for.
#[derive(Debug, Clone, Copy, PartialEq, Eq, Structural)]
pub enum Stage {
    Idle,
    Header,
    Reading,
    DecoderSubmit,
    DecoderDrain,
    Converting,
    EncoderSubmit,
    EncoderDrain,
    Writing,
    Trailer,
    Done,
    Failed,
}

/// The decode → convert → encode → mux driver. It decides; the caller acts.
/// Each coder is drained until it would block before it is submitted to
/// again, a submission that is refused is retried after draining, and at the
/// end of input the decoder, the resampler and the encoder are flushed in turn.
pub struct Transcoder {
    cfg: PipelineConfig,
    stage: Stage,
    /// The input has no more packets.
    input_ended: bool,
    /// A packet of the stream was read and not yet taken by the decoder.
    packet_pending: bool,
    /// The decoder took the end-of-input marker.
    decoder_flushed: bool,
    /// The decoder reported its end.
    decoder_done: bool,
    /// A converted frame was not yet taken by the encoder.
    frame_pending: bool,
    /// Samples in that frame.
    frame_samples: i64,
    /// The resampler's flush produced nothing more.
    resampler_done: bool,
    /// The encoder took the end-of-input marker.
    encoder_flushed: bool,
    /// Timestamp of the next frame, in output samples.
    pts: i64,
    /// Samples waiting inside the resampler, as last reported.
    delay: i64,
    /// The decoder may hold output not yet retrieved.
    decoder_busy: Ghost<bool>,
    /// The encoder may hold output not yet retrieved.
    encoder_busy: Ghost<bool>,
    packets_read: Ghost<nat>,
    packets_submitted: Ghost<nat>,
    frames_decoded: Ghost<nat>,
    frames_converted: Ghost<nat>,
    samples_converted: Ghost<int>,
    packets_encoded: Ghost<nat>,
    packets_written: Ghost<nat>,
}

/// The driver after a failure.
pub closed spec fn failed(s: Transcoder) -> Transcoder {
    Transcoder { stage: Stage::Failed, ..s }
}

/// The state and result of one step: what to do next, or the error that ends the run.
pub closed spec fn spec_step(s: Transcoder, e: Event) -> (Transcoder, Result<Action, Error>) {
    match s.stage {
        Stage::Done | Stage::Failed => (s, Ok(Action::Finish)),
        Stage::Idle => match e {
            Event::Start => (Transcoder { stage: Stage::Header, ..s }, Ok(Action::WriteHeader)),
            _ => unexpected(s),
        },
        Stage::Header => match e {
            Event::Written { ret } => if ret < 0 {
                (failed(s), Err(error_of(ret)))
            } else {
                (Transcoder { stage: Stage::Reading, ..s }, Ok(Action::ReadPacket))
            },
            _ => unexpected(s),
        },
        Stage::Reading => match e {
            Event::Read { ret, stream_index } => spec_on_read(s, ret, stream_index),
            _ => unexpected(s),
        },
        Stage::DecoderSubmit => match e {
            Event::Submitted { ret } => spec_on_decoder_submitted(s, ret),
            _ => unexpected(s),
        },
        Stage::DecoderDrain => match e {
            Event::Decoded { ret, samples, delay } => spec_on_decoded(s, ret, samples, delay),
            _ => unexpected(s),
        },
        Stage::Converting => match e {
            Event::Converted { ret, delay } => spec_on_converted(s, ret, delay),
            _ => unexpected(s),
        },
        Stage::EncoderSubmit => match e {
            Event::Submitted { ret } => spec_on_encoder_submitted(s, ret),
            _ => unexpected(s),
        },
        Stage::EncoderDrain => match e {
            Event::Encoded { ret, pts, dts, duration } => spec_on_encoded(s, ret, pts, dts, duration),
            _ => unexpected(s),
        },
        Stage::Writing => match e {
            Event::Written { ret } => if ret < 0 {
                (failed(s), Err(error_of(ret)))
            } else {
                (
                    Transcoder {
                        stage: Stage::EncoderDrain,
                        packets_written: Ghost(s.packets_written@ + 1),
                        ..s
                    },
                    Ok(Action::ReceivePacket),
                )
            },
            _ => unexpected(s),
        },
        Stage::Trailer => match e {
            Event::Written { ret } => if ret < 0 {
                (failed(s), Err(error_of(ret)))
            } else {
                (Transcoder { stage: Stage::Done, ..s }, Ok(Action::Finish))
            },
            _ => unexpected(s),
        },
    }
}

/// An event that does not answer the awaited action ends the run.
pub closed spec fn unexpected(s: Transcoder) -> (Transcoder, Result<Action, Error>) {
    (failed(s), Err(Error::Av(AVError::Bug)))
}

/// A packet was read: skip other streams, submit this stream's packet, or
/// start flushing the decoder at the end of the input.
pub closed spec fn spec_on_read(s: Transcoder, ret: i32, stream_index: i32) -> (Transcoder, Result<Action, Error>) {
    if ret == AVERROR_EOF {
        (Transcoder { stage: Stage::DecoderSubmit, input_ended: true, ..s }, Ok(Action::FlushDecoder))
    } else if ret < 0 {
        (failed(s), Err(error_of(ret)))
    } else if stream_index != s.cfg.stream_index {
        (s, Ok(Action::ReadPacket))
    } else {
        (
            Transcoder {
                stage: Stage::DecoderSubmit,
                packet_pending: true,
                packets_read: Ghost(s.packets_read@ + 1),
                ..s
            },
            Ok(Action::SendPacket),
        )
    }
}

/// The decoder answered a submission: drain it, whether it took the input or
/// asked to be drained first.
pub closed spec fn spec_on_decoder_submitted(s: Transcoder, ret: i32) -> (Transcoder, Result<Action, Error>) {
    if ret >= 0 {
        if s.packet_pending {
            (
                Transcoder {
                    stage: Stage::DecoderDrain,
                    packet_pending: false,
                    decoder_busy: Ghost(true),
                    packets_submitted: Ghost(s.packets_submitted@ + 1),
                    ..s
                },
                Ok(Action::ReceiveFrame),
            )
        } else {
            (
                Transcoder { stage: Stage::DecoderDrain, decoder_flushed: true, decoder_busy: Ghost(true), ..s },
                Ok(Action::ReceiveFrame),
            )
        }
    } else if ret == EAGAIN {
        (Transcoder { stage: Stage::DecoderDrain, decoder_busy: Ghost(true), ..s }, Ok(Action::ReceiveFrame))
    } else {
        (failed(s), Err(error_of(ret)))
    }
}

/// The decoder answered a retrieval: convert the frame into an output frame
/// sized for it and the resampler's delay; once drained, submit again (the
/// refused packet, the end marker, or a new packet); at its end, flush the resampler.
pub closed spec fn spec_on_decoded(s: Transcoder, ret: i32, samples: i32, delay: i64) -> (Transcoder, Result<Action, Error>) {
    let cfg = s.cfg;
    if ret >= 0 {
        if samples < 0 || delay < 0 {
            (failed(s), Err(Error::Av(AVError::Bug)))
        } else {
            match spec_predicted_output(cfg.in_sample_rate as int, cfg.out_sample_rate as int, delay as int, samples as int) {
                Some(c) => (
                    Transcoder { stage: Stage::Converting, delay, frames_decoded: Ghost(s.frames_decoded@ + 1), ..s },
                    Ok(Action::Convert { capacity: c }),
                ),
                None => (failed(s), Err(Error::Alloc)),
            }
        }
    } else if ret == EAGAIN {
        let s2 = Transcoder { decoder_busy: Ghost(false), ..s };
        if s.packet_pending {
            (Transcoder { stage: Stage::DecoderSubmit, ..s2 }, Ok(Action::SendPacket))
        } else if s.input_ended && !s.decoder_flushed {
            (Transcoder { stage: Stage::DecoderSubmit, ..s2 }, Ok(Action::FlushDecoder))
        } else if s.input_ended {
            (failed(s), Err(error_of(ret)))
        } else {
            (Transcoder { stage: Stage::Reading, ..s2 }, Ok(Action::ReadPacket))
        }
    } else if ret == AVERROR_EOF {
        if !s.decoder_flushed || delay < 0 {
            (failed(s), Err(error_of(ret)))
        } else {
            match spec_predicted_output(cfg.in_sample_rate as int, cfg.out_sample_rate as int, delay as int, 0) {
                Some(c) => (
                    Transcoder { stage: Stage::Converting, decoder_done: true, decoder_busy: Ghost(false), delay, ..s },
                    Ok(Action::FlushResampler { capacity: c }),
                ),
                None => (failed(s), Err(Error::Alloc)),
            }
        }
    } else {
        (failed(s), Err(error_of(ret)))
    }
}

/// The resampler produced `ret` samples: submit them to the encoder; nothing
/// produced means back to the decoder, or, while flushing, the encoder's flush.
pub closed spec fn spec_on_converted(s: Transcoder, ret: i32, delay: i64) -> (Transcoder, Result<Action, Error>) {
    if ret < 0 {
        (failed(s), Err(error_of(ret)))
    } else if delay < 0 {
        (failed(s), Err(Error::Av(AVError::Bug)))
    } else {
        let counted = if s.decoder_done { s.frames_converted@ } else { s.frames_converted@ + 1 };
        let s2 = Transcoder { delay, frames_converted: Ghost(counted), ..s };
        if ret == 0 {
            if s.decoder_done {
                (Transcoder { stage: Stage::EncoderSubmit, resampler_done: true, ..s2 }, Ok(Action::FlushEncoder))
            } else {
                (Transcoder { stage: Stage::DecoderDrain, ..s2 }, Ok(Action::ReceiveFrame))
            }
        } else {
            (
                Transcoder {
                    stage: Stage::EncoderSubmit,
                    frame_pending: true,
                    frame_samples: ret as i64,
                    samples_converted: Ghost(s.samples_converted@ + ret),
                    ..s2
                },
                Ok(Action::SendFrame { pts: s.pts }),
            )
        }
    }
}

/// The encoder answered a submission: a frame taken advances the timestamp
/// by its samples; either way the encoder is drained next.
pub closed spec fn spec_on_encoder_submitted(s: Transcoder, ret: i32) -> (Transcoder, Result<Action, Error>) {
    if ret >= 0 {
        if s.frame_pending {
            if s.pts + s.frame_samples > i64::MAX {
                (failed(s), Err(Error::Av(AVError::Bug)))
            } else {
                (
                    Transcoder {
                        stage: Stage::EncoderDrain,
                        frame_pending: false,
                        pts: (s.pts + s.frame_samples) as i64,
                        encoder_busy: Ghost(true),
                        ..s
                    },
                    Ok(Action::ReceivePacket),
                )
            }
        } else {
            (
                Transcoder { stage: Stage::EncoderDrain, encoder_flushed: true, encoder_busy: Ghost(true), ..s },
                Ok(Action::ReceivePacket),
            )
        }
    } else if ret == EAGAIN {
        (Transcoder { stage: Stage::EncoderDrain, encoder_busy: Ghost(true), ..s }, Ok(Action::ReceivePacket))
    } else {
        (failed(s), Err(error_of(ret)))
    }
}

/// The encoder answered a retrieval: write the packet with its timestamps in
/// the stream's clock; once drained, go back to what feeds the encoder; at its
/// end, write the trailer.
pub closed spec fn spec_on_encoded(s: Transcoder, ret: i32, pts: i64, dts: i64, duration: i64) -> (Transcoder, Result<Action, Error>) {
    let cfg = s.cfg;
    if ret >= 0 {
        (
            Transcoder { stage: Stage::Writing, packets_encoded: Ghost(s.packets_encoded@ + 1), ..s },
            Ok(
                Action::WritePacket {
                    pts: spec_rescale_or_unset(pts, cfg.encoder_time_base, cfg.stream_time_base),
                    dts: spec_rescale_or_unset(dts, cfg.encoder_time_base, cfg.stream_time_base),
                    duration: if duration > 0 {
                        spec_rescale_or_unset(duration, cfg.encoder_time_base, cfg.stream_time_base)
                    } else {
                        duration
                    },
                },
            ),
        )
    } else if ret == EAGAIN {
        let s2 = Transcoder { encoder_busy: Ghost(false), ..s };
        if s.frame_pending {
            (Transcoder { stage: Stage::EncoderSubmit, ..s2 }, Ok(Action::SendFrame { pts: s.pts }))
        } else if s.resampler_done && !s.encoder_flushed {
            (Transcoder { stage: Stage::EncoderSubmit, ..s2 }, Ok(Action::FlushEncoder))
        } else if s.resampler_done {
            (failed(s), Err(error_of(ret)))
        } else if s.decoder_done {
            match spec_predicted_output(cfg.in_sample_rate as int, cfg.out_sample_rate as int, s.delay as int, 0) {
                Some(c) => (Transcoder { stage: Stage::Converting, ..s2 }, Ok(Action::FlushResampler { capacity: c })),
                None => (failed(s), Err(Error::Alloc)),
            }
        } else {
            (Transcoder { stage: Stage::DecoderDrain, ..s2 }, Ok(Action::ReceiveFrame))
        }
    } else if ret == AVERROR_EOF && s.encoder_flushed {
        (Transcoder { stage: Stage::Trailer, encoder_busy: Ghost(false), ..s }, Ok(Action::WriteTrailer))
    } else {
        (failed(s), Err(error_of(ret)))
    }
}

impl Transcoder {
    /// A driver for `cfg` that has not started; its first step must be `Event::Start`.
    pub fn new(cfg: PipelineConfig) -> (r: Transcoder)
        requires
            cfg.is_valid(),
        ensures
            r.config() == cfg,
            r.stage() == Stage::Idle,
            r.inv(),
    {
        Transcoder {
            cfg,
            stage: Stage::Idle,
            input_ended: false,
            packet_pending: false,
            decoder_flushed: false,
            decoder_done: false,
            frame_pending: false,
            frame_samples: 0,
            resampler_done: false,
            encoder_flushed: false,
            pts: 0,
            delay: 0,
            decoder_busy: Ghost(false),
            encoder_busy: Ghost(false),
            packets_read: Ghost(0),
            packets_submitted: Ghost(0),
            frames_decoded: Ghost(0),
            frames_converted: Ghost(0),
            samples_converted: Ghost(0),
            packets_encoded: Ghost(0),
            packets_written: Ghost(0),
        }
    }

    pub closed spec fn config(&self) -> PipelineConfig {
        self.cfg
    }

    pub closed spec fn stage(&self) -> Stage {
        self.stage
    }

    pub closed spec fn spec_pts(&self) -> i64 {
        self.pts
    }

    /// Packets of the transcoded stream read from the input.
    pub closed spec fn packets_read(&self) -> nat {
        self.packets_read@
    }

    /// Packets the decoder took.
    pub closed spec fn packets_submitted(&self) -> nat {
        self.packets_submitted@
    }

    /// Frames retrieved from the decoder.
    pub closed spec fn frames_decoded(&self) -> nat {
        self.frames_decoded@
    }

    /// Decoded frames handed through the resampler.
    pub closed spec fn frames_converted(&self) -> nat {
        self.frames_converted@
    }

    /// Samples the resampler produced, flush included.
    pub closed spec fn samples_converted(&self) -> int {
        self.samples_converted@
    }

    /// Packets retrieved from the encoder.
    pub closed spec fn packets_encoded(&self) -> nat {
        self.packets_encoded@
    }

    /// Packets written to the output.
    pub closed spec fn packets_written(&self) -> nat {
        self.packets_written@
    }

    /// A packet read and not yet taken by the decoder.
    pub closed spec fn holds_packet(&self) -> bool {
        self.packet_pending
    }

    /// A converted frame not yet taken by the encoder, and its sample count.
    pub closed spec fn holds_frame(&self) -> bool {
        self.frame_pending
    }

    pub closed spec fn held_samples(&self) -> int {
        self.frame_samples as int
    }

    /// The decoder took the end-of-input marker and then reported its end;
    /// the resampler's flush ran dry; the encoder took its end-of-input marker.
    pub closed spec fn fully_flushed(&self) -> bool {
        self.input_ended && self.decoder_flushed && self.decoder_done && self.resampler_done
            && self.encoder_flushed
    }

    /// A decoded frame is being converted (not a flush of the resampler).
    pub closed spec fn converting_frame(&self) -> bool {
        self.stage == Stage::Converting && !self.decoder_done
    }

    /// The decoder may hold output that has not been retrieved.
    pub closed spec fn decoder_busy(&self) -> bool {
        self.decoder_busy@
    }

    /// The encoder may hold output that has not been retrieved.
    pub closed spec fn encoder_busy(&self) -> bool {
        self.encoder_busy@
    }

    /// What holds of every state the driver reaches; after a failure only the
    /// configuration and the timestamp's range are kept.
    pub closed spec fn inv(&self) -> bool {
        &&& self.cfg.is_valid()
        &&& self.pts >= 0
        &&& self.delay >= 0
        &&& (self.stage != Stage::Failed ==> self.progress())
    }

    /// The bookkeeping of a run that has not failed.
    pub closed spec fn progress(&self) -> bool {
        &&& (self.frame_pending ==> self.frame_samples > 0)
        // Nothing read is lost: every packet of the stream reaches the decoder.
        &&& self.packets_read@ == self.packets_submitted@ + (if self.packet_pending { 1int } else { 0 })
        // Every decoded frame goes through the resampler.
        &&& self.frames_decoded@ == self.frames_converted@ + (if self.stage == Stage::Converting
            && !self.decoder_done { 1int } else { 0 })
        // Every converted sample reaches the encoder, in timestamp order.
        &&& self.samples_converted@ == self.pts + (if self.frame_pending { self.frame_samples as int } else { 0 })
        // Every encoded packet is written.
        &&& self.packets_encoded@ == self.packets_written@ + (if self.stage == Stage::Writing { 1int } else { 0 })
        // A coder is submitted to only once drained.
        &&& (self.stage == Stage::DecoderSubmit ==> !self.decoder_busy@)
        &&& (self.stage == Stage::EncoderSubmit ==> !self.encoder_busy@)
        // Flushing happens in order, once everything before it has passed.
        &&& (self.decoder_flushed ==> self.input_ended && !self.packet_pending)
        &&& (self.decoder_done ==> self.decoder_flushed)
        &&& (self.resampler_done ==> self.decoder_done && !self.frame_pending)
        &&& (self.encoder_flushed ==> self.resampler_done)
        &&& (self.stage == Stage::Converting ==> !self.frame_pending && !self.resampler_done)
        &&& (self.stage == Stage::Reading ==> !self.packet_pending && !self.input_ended
            && !self.frame_pending)
        &&& (self.stage == Stage::DecoderSubmit ==> !self.frame_pending && !self.decoder_done && (
        self.packet_pending || self.input_ended))
        &&& (self.stage == Stage::DecoderDrain ==> !self.frame_pending && !self.decoder_done
            && !self.resampler_done)
        &&& (self.stage == Stage::Reading ==> !self.decoder_busy@)
        &&& (self.stage == Stage::Reading || self.stage == Stage::DecoderSubmit || self.stage
            == Stage::DecoderDrain || self.stage == Stage::Converting ==> !self.encoder_busy@)
        &&& (self.stage == Stage::EncoderSubmit ==> self.frame_pending || self.resampler_done)
        &&& (self.stage == Stage::Trailer || self.stage == Stage::Done ==> self.input_ended
            && self.decoder_flushed && self.decoder_done && self.resampler_done
            && self.encoder_flushed && !self.packet_pending)
        &&& (self.stage == Stage::Idle || self.stage == Stage::Header ==> self.packets_read@ == 0
            && self.frames_decoded@ == 0 && self.packets_encoded@ == 0 && !self.packet_pending
            && !self.frame_pending && !self.input_ended && self.samples_converted@ == 0
            && self.pts == 0 && !self.decoder_busy@ && !self.encoder_busy@ && !self.decoder_done
            && self.frames_converted@ == 0 && self.packets_written@ == 0 && self.packets_submitted@ == 0)
    }

    /// Whether the run has ended, finished or failed.
    pub fn is_finished(&self) -> (r: bool)
        ensures
            r == (self.stage() == Stage::Done || self.stage() == Stage::Failed),
    {
        match self.stage {
            Stage::Done | Stage::Failed => true,
            _ => false,
        }
    }

    /// Timestamp of the next output frame, in output samples: the samples
    /// submitted to the encoder so far.
    pub fn pts(&self) -> (r: i64)
        ensures
            r == self.spec_pts(),
    {
        self.pts
    }

    fn fail(&mut self, e: Error) -> (r: Result<Action, Error>)
        ensures
            *final(self) == failed(*old(self)),
            r == Err::<Action, Error>(e),
    {
        self.stage = Stage::Failed;
        Err(e)
    }

    /// Takes the result of the last action and returns the next one, or the
    /// error that ends the run.
    pub fn step(&mut self, e: Event) -> (r: Result<Action, Error>)
        requires
            old(self).inv(),
        ensures
            (*final(self), r) == spec_step(*old(self), e),
            final(self).inv(),
            final(self).config() == old(self).config(),
            final(self).spec_pts() >= old(self).spec_pts(),
    {
        proof {
            lemma_step_keeps_inv(*self, e);
        }
        self.step_exec(e)
    }

    fn step_exec(&mut self, e: Event) -> (r: Result<Action, Error>)
        requires
            old(self).inv(),
        ensures
            (*final(self), r) == spec_step(*old(self), e),
    {
        match self.stage {
            Stage::Done | Stage::Failed => Ok(Action::Finish),
            Stage::Idle => match e {
                Event::Start => {
                    self.stage = Stage::Header;
                    Ok(Action::WriteHeader)
                },
                _ => self.fail(Error::Av(AVError::Bug)),
            },
            Stage::Header => match e {
                Event::Written { ret } => if ret < 0 {
                    self.fail(Error::new(ret))
                } else {
                    self.stage = Stage::Reading;
                    Ok(Action::ReadPacket)
                },
                _ => self.fail(Error::Av(AVError::Bug)),
            },
            Stage::Reading => match e {
                Event::Read { ret, stream_index } => self.on_read(ret, stream_index),
                _ => self.fail(Error::Av(AVError::Bug)),
            },
            Stage::DecoderSubmit => match e {
                Event::Submitted { ret } => self.on_decoder_submitted(ret),
                _ => self.fail(Error::Av(AVError::Bug)),
            },
            Stage::DecoderDrain => match e {
                Event::Decoded { ret, samples, delay } => self.on_decoded(ret, samples, delay),
                _ => self.fail(Error::Av(AVError::Bug)),
            },
            Stage::Converting => match e {
                Event::Converted { ret, delay } => self.on_converted(ret, delay),
                _ => self.fail(Error::Av(AVError::Bug)),
            },
            Stage::EncoderSubmit => match e {
                Event::Submitted { ret } => self.on_encoder_submitted(ret),
                _ => self.fail(Error::Av(AVError::Bug)),
            },
            Stage::EncoderDrain => match e {
                Event::Encoded { ret, pts, dts, duration } => self.on_encoded(ret, pts, dts, duration),
                _ => self.fail(Error::Av(AVError::Bug)),
            },
            Stage::Writing => match e {
                Event::Written { ret } => if ret < 0 {
                    self.fail(Error::new(ret))
                } else {
                    self.stage = Stage::EncoderDrain;
                    self.packets_written = Ghost(self.packets_written@ + 1);
                    Ok(Action::ReceivePacket)
                },
                _ => self.fail(Error::Av(AVError::Bug)),
            },
            Stage::Trailer => match e {
                Event::Written { ret } => if ret < 0 {
                    self.fail(Error::new(ret))
                } else {
                    self.stage = Stage::Done;
                    Ok(Action::Finish)
                },
                _ => self.fail(Error::Av(AVError::Bug)),
            },
        }
    }

    fn on_read(&mut self, ret: i32, stream_index: i32) -> (r: Result<Action, Error>)
        ensures
            (*final(self), r) == spec_on_read(*old(self), ret, stream_index),
    {
        if ret == AVERROR_EOF {
            self.stage = Stage::DecoderSubmit;
            self.input_ended = true;
            Ok(Action::FlushDecoder)
        } else if ret < 0 {
            self.fail(Error::new(ret))
        } else if stream_index != self.cfg.stream_index {
            Ok(Action::ReadPacket)
        } else {
            self.stage = Stage::DecoderSubmit;
            self.packet_pending = true;
            self.packets_read = Ghost(self.packets_read@ + 1);
            Ok(Action::SendPacket)
        }
    }

    fn on_decoder_submitted(&mut self, ret: i32) -> (r: Result<Action, Error>)
        ensures
            (*final(self), r) == spec_on_decoder_submitted(*old(self), ret),
    {
        if ret >= 0 {
            self.stage = Stage::DecoderDrain;
            self.decoder_busy = Ghost(true);
            if self.packet_pending {
                self.packet_pending = false;
                self.packets_submitted = Ghost(self.packets_submitted@ + 1);
            } else {
                self.decoder_flushed = true;
            }
            Ok(Action::ReceiveFrame)
        } else if ret == EAGAIN {
            self.stage = Stage::DecoderDrain;
            self.decoder_busy = Ghost(true);
            Ok(Action::ReceiveFrame)
        } else {
            self.fail(Error::new(ret))
        }
    }

    fn on_decoded(&mut self, ret: i32, samples: i32, delay: i64) -> (r: Result<Action, Error>)
        requires
            old(self).cfg.is_valid(),
        ensures
            (*final(self), r) == spec_on_decoded(*old(self), ret, samples, delay),
    {
        let cfg = self.cfg;
        if ret >= 0 {
            if samples < 0 || delay < 0 {
                return self.fail(Error::Av(AVError::Bug));
            }
            match predicted_output_samples(cfg.in_sample_rate, cfg.out_sample_rate, delay, samples as i64) {
                Some(c) => {
                    self.stage = Stage::Converting;
                    self.delay = delay;
                    self.frames_decoded = Ghost(self.frames_decoded@ + 1);
                    Ok(Action::Convert { capacity: c })
                },
                None => self.fail(Error::Alloc),
            }
        } else if ret == EAGAIN {
            if self.packet_pending {
                self.decoder_busy = Ghost(false);
                self.stage = Stage::DecoderSubmit;
                Ok(Action::SendPacket)
            } else if self.input_ended && !self.decoder_flushed {
                self.decoder_busy = Ghost(false);
                self.stage = Stage::DecoderSubmit;
                Ok(Action::FlushDecoder)
            } else if self.input_ended {
                self.fail(Error::new(ret))
            } else {
                self.decoder_busy = Ghost(false);
                self.stage = Stage::Reading;
                Ok(Action::ReadPacket)
            }
        } else if ret == AVERROR_EOF {
            if !self.decoder_flushed || delay < 0 {
                return self.fail(Error::new(ret));
            }
            match predicted_output_samples(cfg.in_sample_rate, cfg.out_sample_rate, delay, 0) {
                Some(c) => {
                    self.stage = Stage::Converting;
                    self.decoder_done = true;
                    self.decoder_busy = Ghost(false);
                    self.delay = delay;
                    Ok(Action::FlushResampler { capacity: c })
                },
                None => self.fail(Error::Alloc),
            }
        } else {
            self.fail(Error::new(ret))
        }
    }

    fn on_converted(&mut self, ret: i32, delay: i64) -> (r: Result<Action, Error>)
        ensures
            (*final(self), r) == spec_on_converted(*old(self), ret, delay),
    {
        if ret < 0 {
            return self.fail(Error::new(ret));
        }
        if delay < 0 {
            return self.fail(Error::Av(AVError::Bug));
        }
        self.delay = delay;
        if !self.decoder_done {
            self.frames_converted = Ghost(self.frames_converted@ + 1);
        }
        if ret == 0 {
            if self.decoder_done {
                self.stage = Stage::EncoderSubmit;
                self.resampler_done = true;
                Ok(Action::FlushEncoder)
            } else {
                self.stage = Stage::DecoderDrain;
                Ok(Action::ReceiveFrame)
            }
        } else {
            self.stage = Stage::EncoderSubmit;
            self.frame_pending = true;
            self.frame_samples = ret as i64;
            self.samples_converted = Ghost(self.samples_converted@ + ret);
            Ok(Action::SendFrame { pts: self.pts })
        }
    }

    fn on_encoder_submitted(&mut self, ret: i32) -> (r: Result<Action, Error>)
        ensures
            (*final(self), r) == spec_on_encoder_submitted(*old(self), ret),
    {
        if ret >= 0 {
            if self.frame_pending {
                let next: i128 = self.pts as i128 + self.frame_samples as i128;
                if next > i64::MAX as i128 {
                    return self.fail(Error::Av(AVError::Bug));
                }
                self.stage = Stage::EncoderDrain;
                self.frame_pending = false;
                self.pts = next as i64;
                self.encoder_busy = Ghost(true);
                Ok(Action::ReceivePacket)
            } else {
                self.stage = Stage::EncoderDrain;
                self.encoder_flushed = true;
                self.encoder_busy = Ghost(true);
                Ok(Action::ReceivePacket)
            }
        } else if ret == EAGAIN {
            self.stage = Stage::EncoderDrain;
            self.encoder_busy = Ghost(true);
            Ok(Action::ReceivePacket)
        } else {
            self.fail(Error::new(ret))
        }
    }

    fn on_encoded(&mut self, ret: i32, pts: i64, dts: i64, duration: i64) -> (r: Result<Action, Error>)
        requires
            old(self).cfg.is_valid(),
        ensures
            (*final(self), r) == spec_on_encoded(*old(self), ret, pts, dts, duration),
    {
        let cfg = self.cfg;
        if ret >= 0 {
            self.stage = Stage::Writing;
            self.packets_encoded = Ghost(self.packets_encoded@ + 1);
            let from = cfg.encoder_time_base;
            let to = cfg.stream_time_base;
            let d = if duration > 0 {
                rescale_or_unset(duration, from, to)
            } else {
                duration
            };
            Ok(Action::WritePacket { pts: rescale_or_unset(pts, from, to), dts: rescale_or_unset(dts, from, to), duration: d })
        } else if ret == EAGAIN {
            if self.frame_pending {
                self.encoder_busy = Ghost(false);
                self.stage = Stage::EncoderSubmit;
                Ok(Action::SendFrame { pts: self.pts })
            } else if self.resampler_done && !self.encoder_flushed {
                self.encoder_busy = Ghost(false);
                self.stage = Stage::EncoderSubmit;
                Ok(Action::FlushEncoder)
            } else if self.resampler_done {
                self.fail(Error::new(ret))
            } else if self.decoder_done {
                match predicted_output_samples(cfg.in_sample_rate, cfg.out_sample_rate, self.delay, 0) {
                    Some(c) => {
                        self.encoder_busy = Ghost(false);
                        self.stage = Stage::Converting;
                        Ok(Action::FlushResampler { capacity: c })
                    },
                    None => self.fail(Error::Alloc),
                }
            } else {
                self.encoder_busy = Ghost(false);
                self.stage = Stage::DecoderDrain;
                Ok(Action::ReceiveFrame)
            }
        } else if ret == AVERROR_EOF && self.encoder_flushed {
            self.stage = Stage::Trailer;
            self.encoder_busy = Ghost(false);
            Ok(Action::WriteTrailer)
        } else {
            self.fail(Error::new(ret))
        }
    }
}

proof fn lemma_on_read_keeps_inv(s: Transcoder, ret: i32, stream_index: i32)
    requires
        s.inv(),
        s.stage == Stage::Reading,
    ensures
        spec_on_read(s, ret, stream_index).0.inv(),
{
}

proof fn lemma_on_decoder_submitted_keeps_inv(s: Transcoder, ret: i32)
    requires
        s.inv(),
        s.stage == Stage::DecoderSubmit,
    ensures
        spec_on_decoder_submitted(s, ret).0.inv(),
{
}

proof fn lemma_on_decoded_keeps_inv(s: Transcoder, ret: i32, samples: i32, delay: i64)
    requires
        s.inv(),
        s.stage == Stage::DecoderDrain,
    ensures
        spec_on_decoded(s, ret, samples, delay).0.inv(),
{
}

proof fn lemma_on_converted_keeps_inv(s: Transcoder, ret: i32, delay: i64)
    requires
        s.inv(),
        s.stage == Stage::Converting,
    ensures
        spec_on_converted(s, ret, delay).0.inv(),
{
}

proof fn lemma_on_encoder_submitted_keeps_inv(s: Transcoder, ret: i32)
    requires
        s.inv(),
        s.stage == Stage::EncoderSubmit,
    ensures
        spec_on_encoder_submitted(s, ret).0.inv(),
        spec_on_encoder_submitted(s, ret).0.pts >= s.pts,
{
}

proof fn lemma_on_encoded_keeps_inv(s: Transcoder, ret: i32, pts: i64, dts: i64, duration: i64)
    requires
        s.inv(),
        s.stage == Stage::EncoderDrain,
    ensures
        spec_on_encoded(s, ret, pts, dts, duration).0.inv(),
{
}

/// Nothing is lost between stages, in any state of a run that has not failed:
/// every packet of the stream that was read reaches the decoder (but the one
/// being handed over), every frame retrieved from the decoder goes through the
/// resampler (but the one being converted), every sample the resampler
/// produced reaches the encoder (but those of the frame being handed over, and
/// frame timestamps count exactly the samples handed over), and every packet
/// retrieved from the encoder is written (but the one being written).
pub proof fn lemma_no_unit_lost(s: Transcoder)
    requires
        s.inv(),
        s.stage() != Stage::Failed,
    ensures
        s.packets_read() == s.packets_submitted() + (if s.holds_packet() { 1int } else { 0 }),
        s.frames_decoded() == s.frames_converted() + (if s.converting_frame() { 1int } else { 0 }),
        s.samples_converted() == s.spec_pts() + (if s.holds_frame() { s.held_samples() } else { 0 }),
        s.packets_encoded() == s.packets_written() + (if s.stage() == Stage::Writing { 1int } else { 0 }),
{
}

/// A coder is submitted to only once drained: the driver asks for a decoder
/// submission only right after a packet was read or after the decoder answered
/// a retrieval with "would block", and likewise for the encoder (after a
/// conversion, or after the encoder would block). After every accepted or
/// refused submission the next action is a retrieval.
pub proof fn lemma_submit_only_when_drained(s: Transcoder, e: Event)
    requires
        s.inv(),
    ensures
        spec_step(s, e).1 == Ok::<Action, Error>(Action::SendPacket) || spec_step(s, e).1 == Ok::<
            Action,
            Error,
        >(Action::FlushDecoder) ==> (s.stage() == Stage::Reading && e is Read) || (s.stage()
            == Stage::DecoderDrain && (e matches Event::Decoded { ret, .. } && ret == EAGAIN)),
        (spec_step(s, e).1 matches Ok(Action::SendFrame { .. })) || spec_step(s, e).1 == Ok::<
            Action,
            Error,
        >(Action::FlushEncoder) ==> (s.stage() == Stage::Converting && e is Converted) || (
        s.stage() == Stage::EncoderDrain && (e matches Event::Encoded { ret, .. } && ret == EAGAIN)),
        spec_step(s, e).0.stage() == Stage::DecoderSubmit ==> !spec_step(s, e).0.decoder_busy(),
        spec_step(s, e).0.stage() == Stage::EncoderSubmit ==> !spec_step(s, e).0.encoder_busy(),
        s.stage() == Stage::DecoderSubmit && spec_step(s, e).1 is Ok ==> spec_step(s, e).1
            == Ok::<Action, Error>(Action::ReceiveFrame),
        s.stage() == Stage::EncoderSubmit && spec_step(s, e).1 is Ok ==> spec_step(s, e).1
            == Ok::<Action, Error>(Action::ReceivePacket),
{
    lemma_step_keeps_inv(s, e);
}

/// Flush completeness: the trailer is written, and the run finishes, only
/// after the input ended, the decoder took its end marker and reported its
/// end, the resampler's flush ran dry and the encoder took its end marker and
/// reported its end; by then every packet read was decoded, every decoded
/// frame converted, every converted sample encoded and every encoded packet
/// written.
pub proof fn lemma_finished_run_is_complete(s: Transcoder)
    requires
        s.inv(),
        s.stage() == Stage::Trailer || s.stage() == Stage::Done,
    ensures
        s.fully_flushed(),
        !s.holds_packet(),
        !s.holds_frame(),
        s.packets_read() == s.packets_submitted(),
        s.frames_decoded() == s.frames_converted(),
        s.samples_converted() == s.spec_pts(),
        s.packets_encoded() == s.packets_written(),
{
}

/// A new driver's first step, on `Start`, asks for the header.
pub proof fn lemma_start_writes_header(s: Transcoder)
    requires
        s.stage() == Stage::Idle,
    ensures
        spec_step(s, Event::Start).1 == Ok::<Action, Error>(Action::WriteHeader),
        spec_step(s, Event::Start).0.stage() == Stage::Header,
{
}

/// A written header leads to reading; a failed one ends the run with its error.
pub proof fn lemma_header_written(s: Transcoder, ret: i32)
    requires
        s.stage() == Stage::Header,
    ensures
        ret >= 0 ==> spec_step(s, Event::Written { ret }).1 == Ok::<Action, Error>(Action::ReadPacket)
            && spec_step(s, Event::Written { ret }).0.stage() == Stage::Reading,
        ret < 0 ==> spec_step(s, Event::Written { ret }).1 == Err::<Action, Error>(error_of(ret))
            && spec_step(s, Event::Written { ret }).0.stage() == Stage::Failed,
{
}

/// What a read leads to: the end of input starts the decoder's flush, a packet
/// of another stream is skipped with nothing changed, a packet of the stream is
/// submitted, and a read error ends the run.
pub proof fn lemma_read_outcomes(s: Transcoder, ret: i32, stream_index: i32)
    requires
        s.stage() == Stage::Reading,
    ensures
        ret == AVERROR_EOF ==> spec_step(s, Event::Read { ret, stream_index }).1 == Ok::<
            Action,
            Error,
        >(Action::FlushDecoder),
        ret >= 0 && stream_index != s.config().stream_index ==> spec_step(
            s,
            Event::Read { ret, stream_index },
        ) == (s, Ok::<Action, Error>(Action::ReadPacket)),
        ret >= 0 && stream_index == s.config().stream_index ==> spec_step(
            s,
            Event::Read { ret, stream_index },
        ).1 == Ok::<Action, Error>(Action::SendPacket) && spec_step(
            s,
            Event::Read { ret, stream_index },
        ).0.holds_packet(),
        ret < 0 && ret != AVERROR_EOF ==> spec_step(s, Event::Read { ret, stream_index }).1 == Err::<
            Action,
            Error,
        >(error_of(ret)),
{
}

/// A converted frame is submitted stamped with the running sample count, and
/// the count moves on by its samples once the encoder takes it.
pub proof fn lemma_frames_are_stamped_in_order(s: Transcoder, ret: i32, delay: i64)
    requires
        s.inv(),
        s.stage() == Stage::Converting,
        ret > 0,
        delay >= 0,
    ensures
        spec_step(s, Event::Converted { ret, delay }).1 == Ok::<Action, Error>(
            Action::SendFrame { pts: s.spec_pts() },
        ),
        spec_step(s, Event::Converted { ret, delay }).0.holds_frame(),
        spec_step(s, Event::Converted { ret, delay }).0.held_samples() == ret,
        spec_step(spec_step(s, Event::Converted { ret, delay }).0, Event::Submitted { ret: 0 }).0.spec_pts()
            == s.spec_pts() + ret || spec_step(
            spec_step(s, Event::Converted { ret, delay }).0,
            Event::Submitted { ret: 0 },
        ).1 is Err,
{
}

/// The end of a run: a written trailer finishes it, a failed one ends it with
/// its error, and a finished or failed run answers every event with `Finish`
/// and stays as it is.
pub proof fn lemma_trailer_then_done(s: Transcoder, e: Event)
    ensures
        s.stage() == Stage::Trailer && (e matches Event::Written { ret } && ret >= 0) ==> spec_step(
            s,
            e,
        ).1 == Ok::<Action, Error>(Action::Finish) && spec_step(s, e).0.stage() == Stage::Done,
        s.stage() == Stage::Trailer && (e matches Event::Written { ret } && ret < 0) ==> spec_step(
            s,
            e,
        ).1 == Err::<Action, Error>(error_of(e->Written_ret)) && spec_step(s, e).0.stage()
            == Stage::Failed,
        s.stage() == Stage::Done || s.stage() == Stage::Failed ==> spec_step(s, e) == (
            s,
            Ok::<Action, Error>(Action::Finish),
        ),
{
}

/// An event that does not answer the awaited action ends the run as a bug.
pub proof fn lemma_unexpected_event_fails(s: Transcoder, e: Event)
    requires
        s.stage() != Stage::Done,
        s.stage() != Stage::Failed,
        !(s.stage() == Stage::Idle && e is Start),
        !((s.stage() == Stage::Header || s.stage() == Stage::Writing || s.stage() == Stage::Trailer)
            && e is Written),
        !(s.stage() == Stage::Reading && e is Read),
        !((s.stage() == Stage::DecoderSubmit || s.stage() == Stage::EncoderSubmit) && e is Submitted),
        !(s.stage() == Stage::DecoderDrain && e is Decoded),
        !(s.stage() == Stage::Converting && e is Converted),
        !(s.stage() == Stage::EncoderDrain && e is Encoded),
    ensures
        spec_step(s, e).1 == Err::<Action, Error>(Error::Av(AVError::Bug)),
        spec_step(s, e).0.stage() == Stage::Failed,
{
}

/// Every step keeps the driver's invariant and its configuration, and never
/// moves the frame timestamp back.
pub proof fn lemma_step_keeps_inv(s: Transcoder, e: Event)
    requires
        s.inv(),
    ensures
        spec_step(s, e).0.inv(),
        spec_step(s, e).0.config() == s.config(),
        spec_step(s, e).0.spec_pts() >= s.spec_pts(),
{
    match (s.stage, e) {
        (Stage::Reading, Event::Read { ret, stream_index }) => lemma_on_read_keeps_inv(s, ret, stream_index),
        (Stage::DecoderSubmit, Event::Submitted { ret }) => lemma_on_decoder_submitted_keeps_inv(s, ret),
        (Stage::DecoderDrain, Event::Decoded { ret, samples, delay }) => lemma_on_decoded_keeps_inv(s, ret, samples, delay),
        (Stage::Converting, Event::Converted { ret, delay }) => lemma_on_converted_keeps_inv(s, ret, delay),
        (Stage::EncoderSubmit, Event::Submitted { ret }) => lemma_on_encoder_submitted_keeps_inv(s, ret),
        (Stage::EncoderDrain, Event::Encoded { ret, pts, dts, duration }) => lemma_on_encoded_keeps_inv(s, ret, pts, dts, duration),
        _ => {},
    }
}

} // verus!
