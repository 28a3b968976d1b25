use libavcodec::{
    check_c_string, check_open, check_probe, check_status, codec_status, duration_micros,
    log_severity, needs_file, packet_read_result, AVError, AVLogLevel, CodecStatus, Error,
    Severity, AVERROR_EOF, AVFMT_NOFILE, EAGAIN,
};

const ALL: [AVError; 21] = [
    AVError::BsfNotFound,
    AVError::Bug,
    AVError::BufferTooSmall,
    AVError::DecoderNotFound,
    AVError::DemuxerNotFound,
    AVError::EncoderNotFound,
    AVError::Eof,
    AVError::Exit,
    AVError::External,
    AVError::FilterNotFound,
    AVError::InvalidData,
    AVError::MuxerNotFound,
    AVError::OptionNotFound,
    AVError::PatchWelcome,
    AVError::ProtocolNotFound,
    AVError::StreamNotFound,
    AVError::Bug2,
    AVError::Unknown,
    AVError::Experimental,
    AVError::InputChanged,
    AVError::OutputChanged,
];

fn tag(a: u8, b: u8, c: u8, d: u8) -> i32 {
    -((a as i32) | ((b as i32) << 8) | ((c as i32) << 16) | ((d as i32) << 24))
}

#[test]
fn eof_code_is_the_eof_tag() {
    assert_eq!(AVERROR_EOF, -541478725);
    assert_eq!(AVError::Eof.code(), tag(b'E', b'O', b'F', b' '));
    assert_eq!(AVError::InvalidData.code(), tag(b'I', b'N', b'D', b'A'));
    assert_eq!(AVError::DecoderNotFound.code(), tag(0xF8, b'D', b'E', b'C'));
    assert_eq!(AVError::Bug.code(), tag(b'B', b'U', b'G', b'!'));
}

#[test]
fn every_tag_maps_back_to_its_error() {
    for e in ALL {
        assert_eq!(AVError::from_code(e.code()), Some(e));
    }
    for (i, a) in ALL.iter().enumerate() {
        for b in ALL.iter().skip(i + 1) {
            assert_ne!(a.code(), b.code());
        }
    }
}

#[test]
fn untagged_codes_have_no_tagged_error() {
    assert_eq!(AVError::from_code(EAGAIN), None);
    assert_eq!(AVError::from_code(-2), None);
    assert_eq!(AVError::from_code(0), None);
}

#[test]
fn error_new_maps_tagged_and_other_codes() {
    assert!(matches!(Error::new(AVERROR_EOF), Error::Av(AVError::Eof)));
    assert!(Error::new(AVERROR_EOF).is_eof());
    assert!(matches!(Error::new(-0x41444E49), Error::Av(AVError::InvalidData)));
    assert!(matches!(Error::new(-22), Error::Other(-22)));
    assert!(!Error::new(-22).is_eof());
}

#[test]
fn status_checks_map_negative_codes() {
    assert!(check_status(0).is_ok());
    assert!(check_status(17).is_ok());
    assert!(matches!(check_status(-12), Err(Error::Other(-12))));
    assert!(matches!(check_status(AVERROR_EOF), Err(Error::Av(AVError::Eof))));
}

#[test]
fn opening_a_missing_path_is_an_open_error() {
    // ENOENT, as the container library reports a path that does not exist.
    let r = check_open(-2);
    assert!(matches!(r, Err(Error::Open(-2))));
    assert!(check_open(0).is_ok());
}

#[test]
fn failed_stream_probe_is_a_probe_error() {
    assert!(matches!(check_probe(-0x41444E49), Err(Error::Probe(-0x41444E49))));
    assert!(check_probe(3).is_ok());
}

#[test]
fn packet_reads_end_without_error() {
    assert!(matches!(packet_read_result(0), Ok(true)));
    assert!(matches!(packet_read_result(AVERROR_EOF), Ok(false)));
    assert!(matches!(packet_read_result(-5), Err(Error::Other(-5))));
}

#[test]
fn codec_status_classifies_return_values() {
    assert!(matches!(codec_status(0), CodecStatus::Ready));
    assert!(matches!(codec_status(EAGAIN), CodecStatus::WouldBlock));
    assert!(matches!(codec_status(AVERROR_EOF), CodecStatus::EndOfStream));
    assert!(matches!(codec_status(-12), CodecStatus::Failed(Error::Other(-12))));
    assert!(matches!(codec_status(-0x21475542), CodecStatus::Failed(Error::Av(AVError::Bug))));
}

#[test]
fn c_strings_refuse_nul_bytes() {
    assert!(check_c_string("out.wav").is_ok());
    assert!(check_c_string("").is_ok());
    assert!(matches!(check_c_string("a\0b"), Err(Error::NulByte)));
}

#[test]
fn log_levels_map_to_severities() {
    assert_eq!(log_severity(0), Some(Severity::Error));
    assert_eq!(log_severity(8), Some(Severity::Error));
    assert_eq!(log_severity(16), Some(Severity::Error));
    assert_eq!(log_severity(24), Some(Severity::Warn));
    assert_eq!(log_severity(32), Some(Severity::Info));
    assert_eq!(log_severity(40), Some(Severity::Debug));
    assert_eq!(log_severity(48), Some(Severity::Debug));
    assert_eq!(log_severity(56), Some(Severity::Trace));
    assert_eq!(log_severity(-8), None);
    assert_eq!(log_severity(12), None);
    assert_eq!(AVLogLevel::Trace.raw(), 56);
    assert_eq!(AVLogLevel::from_raw(24), Some(AVLogLevel::Warning));
}

#[test]
fn durations_and_output_flags() {
    assert_eq!(duration_micros(-1), None);
    assert_eq!(duration_micros(0), Some(0));
    assert_eq!(duration_micros(2_000_000), Some(2_000_000));
    assert!(needs_file(0));
    assert!(!needs_file(AVFMT_NOFILE));
    assert!(needs_file(0x0040));
}
