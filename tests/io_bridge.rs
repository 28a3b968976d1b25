use libavcodec::{
    failure_status, read_status, seek_status, seek_target, write_status, Io, IoContext, IoContextParams,
    IoHandler, MemoryIo, SeekTarget, Transfer, AVERROR_EOF, IO_BUFFER_SIZE,
};

/// A source that hands out its bytes in pieces and counts the calls.
struct CountingSource {
    bytes: Vec<u8>,
    at: usize,
    reads: usize,
}

impl IoHandler for CountingSource {
    fn read(&mut self, buf: &mut [u8]) -> Result<usize, std::io::Error> {
        self.reads += 1;
        let n = buf.len().min(self.bytes.len() - self.at);
        buf[..n].copy_from_slice(&self.bytes[self.at..self.at + n]);
        self.at += n;
        Ok(n)
    }

    fn write(&mut self, _buf: &[u8]) -> Result<usize, std::io::Error> {
        Err(std::io::Error::from(std::io::ErrorKind::Unsupported))
    }

    fn seek(&mut self, pos: SeekTarget) -> Result<u64, std::io::Error> {
        match pos {
            SeekTarget::Start(p) => {
                self.at = p as usize;
                Ok(p)
            }
            _ => Err(std::io::Error::from(std::io::ErrorKind::Unsupported)),
        }
    }
}

/// A handler whose every call fails with the given error.
struct Failing {
    os_code: Option<i32>,
}

impl Failing {
    fn error(&self) -> std::io::Error {
        match self.os_code {
            Some(c) => std::io::Error::from_raw_os_error(c),
            None => std::io::Error::other("broken"),
        }
    }
}

impl IoHandler for Failing {
    fn read(&mut self, _buf: &mut [u8]) -> Result<usize, std::io::Error> {
        Err(self.error())
    }

    fn write(&mut self, _buf: &[u8]) -> Result<usize, std::io::Error> {
        Err(self.error())
    }

    fn seek(&mut self, _pos: SeekTarget) -> Result<u64, std::io::Error> {
        Err(self.error())
    }
}

#[test]
fn zero_byte_read_is_end_of_file_and_is_not_repeated() {
    let src = CountingSource { bytes: vec![1, 2, 3], at: 0, reads: 0 };
    let mut ctx = IoContext::new(src, IoContextParams::Read { seekable: false, buffer_size: 4 });
    let mut buf = [0u8; 4];
    assert_eq!(ctx.read_packet(&mut buf), 3);
    assert_eq!(&buf[..3], &[1, 2, 3]);
    assert_eq!(ctx.read_packet(&mut buf), AVERROR_EOF);
    assert_eq!(ctx.data().reads, 2);
    assert_eq!(ctx.read_packet(&mut buf), AVERROR_EOF);
    assert_eq!(ctx.read_packet(&mut buf), AVERROR_EOF);
    assert_eq!(ctx.data().reads, 2);
}

#[test]
fn seeking_clears_end_of_file() {
    let src = CountingSource { bytes: vec![9, 8], at: 0, reads: 0 };
    let mut ctx = IoContext::new(src, IoContextParams::Read { seekable: true, buffer_size: 8 });
    let mut buf = [0u8; 8];
    assert_eq!(ctx.read_packet(&mut buf), 2);
    assert_eq!(ctx.read_packet(&mut buf), AVERROR_EOF);
    assert_eq!(ctx.seek(0, 0), 0);
    assert_eq!(ctx.read_packet(&mut buf), 2);
    assert_eq!(ctx.data().reads, 3);
}

#[test]
fn failing_reads_report_the_os_code() {
    let mut ctx = IoContext::new(
        Failing { os_code: Some(5) },
        IoContextParams::ReadWrite { seekable: true, buffer_size: 16 },
    );
    let mut buf = [0u8; 16];
    assert_eq!(ctx.read_packet(&mut buf), -5);
    assert_eq!(ctx.write_packet(&buf), -5);
    assert_eq!(ctx.seek(0, 0), -1);
    let mut other = IoContext::new(
        Failing { os_code: None },
        IoContextParams::Read { seekable: false, buffer_size: 16 },
    );
    assert_eq!(other.read_packet(&mut buf), -1);
}

#[test]
fn operations_not_offered_are_refused_without_a_call() {
    let src = CountingSource { bytes: vec![1], at: 0, reads: 0 };
    let mut ctx = IoContext::new(src, IoContextParams::Write { seekable: false, buffer_size: 16 });
    let mut buf = [0u8; 4];
    assert_eq!(ctx.read_packet(&mut buf), -1);
    assert_eq!(ctx.seek(0, 0), -1);
    assert_eq!(ctx.data().reads, 0);
}

#[test]
fn registration_follows_the_parameters() {
    let r = IoContext::new((), IoContextParams::Read { seekable: false, buffer_size: 32 })
        .registration();
    assert_eq!((r.buffer_size, r.write_flag, r.read, r.write, r.seek), (32, 0, true, false, false));
    let w = IoContext::new((), IoContextParams::Write { seekable: true, buffer_size: 64 })
        .registration();
    assert_eq!((w.buffer_size, w.write_flag, w.read, w.write, w.seek), (64, 1, false, true, true));
    let rw = IoContext::new((), IoContextParams::ReadWrite { seekable: true, buffer_size: 1 })
        .registration();
    assert_eq!((rw.write_flag, rw.read, rw.write, rw.seek), (1, true, true, true));
}

#[test]
fn status_translation() {
    assert_eq!(read_status(Transfer::Done(0), 10), AVERROR_EOF);
    assert_eq!(read_status(Transfer::Done(7), 10), 7);
    assert_eq!(read_status(Transfer::Done(11), 10), -1);
    assert_eq!(read_status(Transfer::Failed(Some(4)), 10), -4);
    assert_eq!(write_status(Transfer::Done(0), 10), 0);
    assert_eq!(write_status(Transfer::Done(10), 10), 10);
    assert_eq!(write_status(Transfer::Done(12), 10), -1);
    assert_eq!(failure_status(None), -1);
    assert_eq!(failure_status(Some(0)), -1);
    assert_eq!(failure_status(Some(28)), -28);
    // An OS code that would read as the end-of-file sentinel stays an error.
    assert_eq!(failure_status(Some(-AVERROR_EOF)), -1);
    assert_eq!(read_status(Transfer::Failed(Some(-AVERROR_EOF)), 10), -1);
}

#[test]
fn seek_results_are_the_new_position() {
    assert_eq!(seek_status(Some(0)), 0);
    assert_eq!(seek_status(Some(4096)), 4096);
    assert_eq!(seek_status(Some(i64::MAX as u64)), i64::MAX);
    assert_eq!(seek_status(Some(i64::MAX as u64 + 1)), -1);
    assert_eq!(seek_status(None), -1);
    let mut ctx = IoContext::new(
        MemoryIo::new(vec![0; 100]),
        IoContextParams::Read { seekable: true, buffer_size: 16 },
    );
    assert_eq!(ctx.seek(40, 0), 40);
    assert_eq!(ctx.seek(-10, 1), 30);
    assert_eq!(ctx.seek(-1, 2), 99);
    assert_eq!(ctx.data().pos(), 99);
    assert_eq!(ctx.seek(-200, 1), -1);
    assert_eq!(ctx.data().pos(), 99);
}

#[test]
fn seek_requests_are_decoded() {
    assert_eq!(seek_target(10, 0), Some(SeekTarget::Start(10)));
    assert_eq!(seek_target(-1, 0), Some(SeekTarget::Start(u64::MAX)));
    assert_eq!(seek_target(-3, 1), Some(SeekTarget::Current(-3)));
    assert_eq!(seek_target(-4, 2), Some(SeekTarget::End(-4)));
    assert_eq!(seek_target(0, 0x10000), None);
}

#[test]
fn container_bytes_survive_a_write_then_read_round_trip() {
    let original: Vec<u8> = (0..10_000u32).map(|i| (i * 7 + 3) as u8).collect();
    let mut sink = IoContext::new(
        MemoryIo::empty(),
        IoContextParams::Write { seekable: true, buffer_size: 4096 },
    );
    for chunk in original.chunks(4096) {
        assert_eq!(sink.write_packet(chunk), chunk.len() as i32);
    }
    let written = sink.into_data().into_bytes();
    assert_eq!(written, original);

    let mut source = IoContext::new(
        MemoryIo::new(written),
        IoContextParams::Read { seekable: true, buffer_size: 1000 },
    );
    let mut back = Vec::new();
    let mut buf = [0u8; 1000];
    loop {
        let n = source.read_packet(&mut buf);
        if n == AVERROR_EOF {
            break;
        }
        assert!(n > 0);
        back.extend_from_slice(&buf[..n as usize]);
    }
    assert_eq!(back, original);
}

#[test]
fn memory_buffer_overwrites_pads_and_seeks() {
    let mut m = MemoryIo::new(vec![1, 2, 3, 4]);
    assert_eq!(m.seek_to(SeekTarget::Start(1)), Some(1));
    assert_eq!(m.write_from(&[9, 9]), Some(2));
    assert_eq!(m.as_bytes(), &vec![1, 9, 9, 4]);
    assert_eq!(m.seek_to(SeekTarget::End(2)), Some(6));
    assert_eq!(m.write_from(&[5]), Some(1));
    assert_eq!(m.as_bytes(), &vec![1, 9, 9, 4, 0, 0, 5]);
    assert_eq!(m.pos(), 7);
    assert_eq!(m.seek_to(SeekTarget::Current(-8)), None);
    assert_eq!(m.pos(), 7);
    assert_eq!(m.seek_to(SeekTarget::Current(-7)), Some(0));
    let mut buf = [0u8; 3];
    assert_eq!(m.read_into(&mut buf), 3);
    assert_eq!(buf, [1, 9, 9]);
    assert!(IoHandler::seek(&mut m, SeekTarget::End(-100)).is_err());
}

#[test]
fn io_sources() {
    match Io::from_reader(5u8, Some("a.mp3".to_string())) {
        Io::Custom { data, params, file_name } => {
            assert_eq!(data, 5);
            assert_eq!(params, IoContextParams::Read { seekable: false, buffer_size: IO_BUFFER_SIZE });
            assert_eq!(file_name.as_deref(), Some("a.mp3"));
        }
        Io::File(_) => panic!("expected a custom source"),
    }
    match Io::from_seekable(1u8, None) {
        Io::Custom { params, .. } => {
            assert_eq!(params, IoContextParams::Read { seekable: true, buffer_size: 32768 })
        }
        Io::File(_) => panic!("expected a custom source"),
    }
    match Io::from_bytes(vec![1, 2], None) {
        Io::Custom { data, params, .. } => {
            assert_eq!(data.as_bytes(), &vec![1, 2]);
            assert_eq!(data.pos(), 0);
            assert_eq!(params, IoContextParams::Read { seekable: true, buffer_size: 32768 });
        }
        Io::File(_) => panic!("expected a custom source"),
    }
    match Io::<()>::from_file("in.wav") {
        Ok(Io::File(p)) => assert_eq!(p, "in.wav"),
        _ => panic!("expected a file source"),
    }
}
