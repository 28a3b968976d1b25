use std::collections::VecDeque;

use libavcodec::{
    Action, AVError, CodecStatus, CoderPhase, CoderState, Error, Event, PipelineConfig, Rational,
    Transcoder, AVERROR_EOF, EAGAIN,
};

const IN_RATE: i64 = 44100;
const OUT_RATE: i64 = 16000;

/// Stand-ins for the demuxer, the decoder, the resampler, the encoder and the
/// muxer, behaving as the codec library documents them.
struct Sim {
    packets: VecDeque<(i32, i32)>,
    decoded: VecDeque<i32>,
    decoder_flushed: bool,
    refuse_every_other_submit: bool,
    refused_last: bool,
    current_frame: i64,
    consumed: i64,
    produced: i64,
    resampler_flushed: bool,
    encoded: VecDeque<(i64, i64)>,
    encoder_flushed: bool,
    written: Vec<(i64, i64, i64)>,
    header: bool,
    trailer: bool,
    accepted_packets: usize,
    last_read: i32,
    last_out: i64,
}

impl Sim {
    fn new(packets: Vec<(i32, i32)>) -> Sim {
        Sim {
            packets: packets.into(),
            decoded: VecDeque::new(),
            decoder_flushed: false,
            refuse_every_other_submit: false,
            refused_last: false,
            current_frame: 0,
            consumed: 0,
            produced: 0,
            resampler_flushed: false,
            encoded: VecDeque::new(),
            encoder_flushed: false,
            written: Vec::new(),
            header: false,
            trailer: false,
            accepted_packets: 0,
            last_read: 0,
            last_out: 0,
        }
    }

    fn delay(&self) -> i64 {
        self.consumed - self.produced * IN_RATE / OUT_RATE
    }

    fn perform(&mut self, a: Action) -> Event {
        match a {
            Action::WriteHeader => {
                self.header = true;
                Event::Written { ret: 0 }
            }
            Action::ReadPacket => match self.packets.pop_front() {
                Some((stream, samples)) => {
                    self.last_read = samples;
                    Event::Read { ret: 0, stream_index: stream }
                }
                None => Event::Read { ret: AVERROR_EOF, stream_index: 0 },
            },
            Action::SendPacket => {
                if self.refuse_every_other_submit && !self.refused_last {
                    self.refused_last = true;
                    return Event::Submitted { ret: EAGAIN };
                }
                self.refused_last = false;
                self.accepted_packets += 1;
                self.decoded.push_back(self.last_read);
                Event::Submitted { ret: 0 }
            }
            Action::FlushDecoder => {
                self.decoder_flushed = true;
                Event::Submitted { ret: 0 }
            }
            Action::ReceiveFrame => {
                if let Some(n) = self.decoded.pop_front() {
                    self.current_frame = n as i64;
                    Event::Decoded { ret: 0, samples: n, delay: self.delay() }
                } else if self.decoder_flushed {
                    Event::Decoded { ret: AVERROR_EOF, samples: 0, delay: self.delay() }
                } else {
                    Event::Decoded { ret: EAGAIN, samples: 0, delay: self.delay() }
                }
            }
            Action::Convert { capacity } => {
                self.consumed += self.current_frame;
                let out = self.consumed * OUT_RATE / IN_RATE - self.produced;
                assert!(out <= capacity);
                self.produced += out;
                self.last_out = out;
                Event::Converted { ret: out as i32, delay: self.delay() }
            }
            Action::FlushResampler { capacity } => {
                let out = if self.resampler_flushed {
                    0
                } else {
                    (self.consumed * OUT_RATE + IN_RATE - 1) / IN_RATE - self.produced
                };
                self.resampler_flushed = true;
                assert!(out <= capacity);
                self.produced += out;
                self.last_out = out;
                Event::Converted { ret: out as i32, delay: 0 }
            }
            Action::SendFrame { pts } => {
                self.encoded.push_back((pts, self.last_out));
                Event::Submitted { ret: 0 }
            }
            Action::FlushEncoder => {
                self.encoder_flushed = true;
                Event::Submitted { ret: 0 }
            }
            Action::ReceivePacket => match self.encoded.pop_front() {
                Some((pts, dur)) => Event::Encoded { ret: 0, pts, dts: pts, duration: dur },
                None if self.encoder_flushed => {
                    Event::Encoded { ret: AVERROR_EOF, pts: 0, dts: 0, duration: 0 }
                }
                None => Event::Encoded { ret: EAGAIN, pts: 0, dts: 0, duration: 0 },
            },
            Action::WritePacket { pts, dts, duration } => {
                self.written.push((pts, dts, duration));
                Event::Written { ret: 0 }
            }
            Action::WriteTrailer => {
                self.trailer = true;
                Event::Written { ret: 0 }
            }
            Action::Finish => Event::Start,
        }
    }
}

fn config() -> PipelineConfig {
    PipelineConfig {
        stream_index: 0,
        in_sample_rate: IN_RATE,
        out_sample_rate: OUT_RATE,
        encoder_time_base: Rational::new(1, 16000),
        stream_time_base: Rational::new(1, 16000),
    }
}

fn run(sim: &mut Sim) -> Result<(), Error> {
    let mut t = Transcoder::new(config());
    let mut ev = Event::Start;
    for _ in 0..100_000 {
        let a = t.step(ev)?;
        if a == Action::Finish {
            assert!(t.is_finished());
            return Ok(());
        }
        ev = sim.perform(a);
    }
    panic!("the driver did not finish");
}

fn two_seconds_mono() -> Vec<(i32, i32)> {
    let mut packets = Vec::new();
    let mut left = 88200;
    while left > 0 {
        let n = left.min(1024);
        packets.push((0, n));
        packets.push((1, 0));
        left -= n;
    }
    packets
}

#[test]
fn two_second_downsample_writes_32000_samples_in_order() {
    let mut sim = Sim::new(two_seconds_mono());
    run(&mut sim).unwrap();
    assert!(sim.header && sim.trailer);
    let total: i64 = sim.written.iter().map(|w| w.2).sum();
    assert_eq!(total, 32000);
    assert_eq!(sim.produced, 32000);
    let mut last = i64::MIN;
    let mut expected_pts = 0;
    for &(pts, dts, dur) in &sim.written {
        assert!(pts >= last);
        assert_eq!(pts, dts);
        assert_eq!(pts, expected_pts);
        expected_pts += dur;
        last = pts;
    }
}

#[test]
fn refused_submissions_are_retried_after_draining() {
    let packets = two_seconds_mono();
    let fed = packets.iter().filter(|p| p.0 == 0).count();
    let mut sim = Sim::new(packets);
    sim.refuse_every_other_submit = true;
    run(&mut sim).unwrap();
    assert_eq!(sim.accepted_packets, fed);
    let total: i64 = sim.written.iter().map(|w| w.2).sum();
    assert_eq!(total, 32000);
}

#[test]
fn empty_input_still_flushes_and_finishes() {
    let mut sim = Sim::new(Vec::new());
    run(&mut sim).unwrap();
    assert!(sim.decoder_flushed && sim.encoder_flushed && sim.trailer);
    assert!(sim.written.is_empty());
}

#[test]
fn decoder_error_ends_the_run() {
    let mut t = Transcoder::new(config());
    assert_eq!(t.step(Event::Start).unwrap(), Action::WriteHeader);
    assert_eq!(t.step(Event::Written { ret: 0 }).unwrap(), Action::ReadPacket);
    assert_eq!(t.step(Event::Read { ret: 0, stream_index: 0 }).unwrap(), Action::SendPacket);
    assert_eq!(t.step(Event::Submitted { ret: 0 }).unwrap(), Action::ReceiveFrame);
    let r = t.step(Event::Decoded { ret: -0x41444E49, samples: 0, delay: 0 });
    assert!(matches!(r, Err(Error::Av(AVError::InvalidData))));
    assert!(t.is_finished());
    assert_eq!(t.step(Event::Start).unwrap(), Action::Finish);
}

#[test]
fn header_failure_ends_the_run() {
    let mut t = Transcoder::new(config());
    t.step(Event::Start).unwrap();
    assert!(matches!(t.step(Event::Written { ret: -5 }), Err(Error::Other(-5))));
    assert!(t.is_finished());
}

#[test]
fn trailer_then_done_then_only_finish() {
    let mut sim = Sim::new(Vec::new());
    let mut t = Transcoder::new(config());
    let mut ev = Event::Start;
    loop {
        let a = t.step(ev).unwrap();
        if a == Action::WriteTrailer {
            break;
        }
        ev = sim.perform(a);
    }
    assert!(!t.is_finished());
    assert_eq!(t.step(Event::Written { ret: 0 }).unwrap(), Action::Finish);
    assert!(t.is_finished());
    assert_eq!(t.step(Event::Read { ret: 0, stream_index: 0 }).unwrap(), Action::Finish);
    assert_eq!(t.step(Event::Start).unwrap(), Action::Finish);
}

#[test]
fn an_event_that_answers_nothing_is_a_bug() {
    let mut t = Transcoder::new(config());
    assert!(matches!(t.step(Event::Written { ret: 0 }), Err(Error::Av(AVError::Bug))));
}

#[test]
fn conversion_capacity_counts_the_delay() {
    let mut t = Transcoder::new(config());
    t.step(Event::Start).unwrap();
    t.step(Event::Written { ret: 0 }).unwrap();
    t.step(Event::Read { ret: 0, stream_index: 0 }).unwrap();
    t.step(Event::Submitted { ret: 0 }).unwrap();
    let a = t.step(Event::Decoded { ret: 0, samples: 1024, delay: 16 }).unwrap();
    assert_eq!(a, Action::Convert { capacity: 378 });
    let s = t.step(Event::Converted { ret: 371, delay: 20 }).unwrap();
    assert_eq!(s, Action::SendFrame { pts: 0 });
    assert_eq!(t.step(Event::Submitted { ret: 0 }).unwrap(), Action::ReceivePacket);
    assert_eq!(t.pts(), 371);
}

#[test]
fn packet_timestamps_are_rescaled_to_the_stream_clock() {
    let cfg = PipelineConfig {
        stream_index: 0,
        in_sample_rate: 48000,
        out_sample_rate: 48000,
        encoder_time_base: Rational::new(1, 48000),
        stream_time_base: Rational::new(1, 1000),
    };
    let mut t = Transcoder::new(cfg);
    t.step(Event::Start).unwrap();
    t.step(Event::Written { ret: 0 }).unwrap();
    t.step(Event::Read { ret: 0, stream_index: 0 }).unwrap();
    t.step(Event::Submitted { ret: 0 }).unwrap();
    t.step(Event::Decoded { ret: 0, samples: 960, delay: 0 }).unwrap();
    t.step(Event::Converted { ret: 960, delay: 0 }).unwrap();
    t.step(Event::Submitted { ret: 0 }).unwrap();
    let w = t.step(Event::Encoded { ret: 0, pts: 48000, dts: i64::MIN, duration: 960 }).unwrap();
    assert_eq!(w, Action::WritePacket { pts: 1000, dts: i64::MIN, duration: 20 });
}

#[test]
fn coder_protocol_drain_before_submit_and_nothing_after_end() {

    let mut c = CoderState::new();
    assert!(matches!(c.before_submit(), Err(Error::Av(AVError::Bug))));
    assert!(matches!(c.on_open(-22), Err(Error::Other(-22))));
    assert_eq!(c.phase, CoderPhase::Configured);
    assert!(c.on_open(0).is_ok());
    assert!(c.before_submit().is_ok());
    assert!(matches!(c.after_submit(false, 0), CodecStatus::Ready));
    assert!(matches!(c.before_submit(), Err(Error::Other(-11))));
    assert!(matches!(c.after_retrieve(0), CodecStatus::Ready));
    assert!(c.before_submit().is_err());
    assert!(matches!(c.after_retrieve(EAGAIN), CodecStatus::WouldBlock));
    assert!(c.before_submit().is_ok());
    assert!(matches!(c.after_submit(true, 0), CodecStatus::Ready));
    assert_eq!(c.phase, CoderPhase::Flushing);
    assert!(matches!(c.before_submit(), Err(Error::Av(AVError::Eof))));
    assert!(matches!(c.after_retrieve(AVERROR_EOF), CodecStatus::EndOfStream));
    assert_eq!(c.phase, CoderPhase::Closed);
    assert!(matches!(c.after_retrieve(EAGAIN), CodecStatus::WouldBlock));
    assert!(matches!(c.before_submit(), Err(Error::Av(AVError::Eof))));
    assert!(matches!(c.on_open(0), Err(Error::Av(AVError::Bug))));
}
