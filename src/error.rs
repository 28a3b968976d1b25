use vstd::prelude::*;

verus! {

/// Builds the negative status code that the codec library derives from four tag bytes.
pub open spec fn fferrtag(a: int, b: int, c: int, d: int) -> int {
    -(a + b * 0x100 + c * 0x10000 + d * 0x1000000)
}

/// End of file or stream.
pub const AVERROR_EOF: i32 = -0x20464F45;

/// The codec cannot take more input (or produce more output) right now.
pub const EAGAIN: i32 = -11;

/// Status codes that carry a tag of the codec library.
#[derive(Debug, Clone, Copy, PartialEq, Eq, Structural)]
pub enum AVError {
    BsfNotFound,
    Bug,
    BufferTooSmall,
    DecoderNotFound,
    DemuxerNotFound,
    EncoderNotFound,
    Eof,
    Exit,
    External,
    FilterNotFound,
    InvalidData,
    MuxerNotFound,
    OptionNotFound,
    PatchWelcome,
    ProtocolNotFound,
    StreamNotFound,
    Bug2,
    Unknown,
    Experimental,
    InputChanged,
    OutputChanged,
}

/// The numeric status of each tagged error.
pub open spec fn av_error_code(e: AVError) -> int {
    match e {
        AVError::BsfNotFound => fferrtag(0xF8, 'B' as int, 'S' as int, 'F' as int),
        AVError::Bug => fferrtag('B' as int, 'U' as int, 'G' as int, '!' as int),
        AVError::BufferTooSmall => fferrtag('B' as int, 'U' as int, 'F' as int, 'S' as int),
        AVError::DecoderNotFound => fferrtag(0xF8, 'D' as int, 'E' as int, 'C' as int),
        AVError::DemuxerNotFound => fferrtag(0xF8, 'D' as int, 'E' as int, 'M' as int),
        AVError::EncoderNotFound => fferrtag(0xF8, 'E' as int, 'N' as int, 'C' as int),
        AVError::Eof => fferrtag('E' as int, 'O' as int, 'F' as int, ' ' as int),
        AVError::Exit => fferrtag('E' as int, 'X' as int, 'I' as int, 'T' as int),
        AVError::External => fferrtag('E' as int, 'X' as int, 'T' as int, ' ' as int),
        AVError::FilterNotFound => fferrtag(0xF8, 'F' as int, 'I' as int, 'L' as int),
        AVError::InvalidData => fferrtag('I' as int, 'N' as int, 'D' as int, 'A' as int),
        AVError::MuxerNotFound => fferrtag(0xF8, 'M' as int, 'U' as int, 'X' as int),
        AVError::OptionNotFound => fferrtag(0xF8, 'O' as int, 'P' as int, 'T' as int),
        AVError::PatchWelcome => fferrtag('P' as int, 'A' as int, 'W' as int, 'E' as int),
        AVError::ProtocolNotFound => fferrtag(0xF8, 'P' as int, 'R' as int, 'O' as int),
        AVError::StreamNotFound => fferrtag(0xF8, 'S' as int, 'T' as int, 'R' as int),
        AVError::Bug2 => fferrtag('B' as int, 'U' as int, 'G' as int, ' ' as int),
        AVError::Unknown => fferrtag('U' as int, 'N' as int, 'K' as int, 'N' as int),
        AVError::Experimental => -0x2bb2afa8,
        AVError::InputChanged => -0x636e6701,
        AVError::OutputChanged => -0x636e6702,
    }
}

/// The tagged error whose status is `code`, if there is one.
pub open spec fn av_error_of(code: int) -> Option<AVError> {
    if code == av_error_code(AVError::BsfNotFound) {
        Some(AVError::BsfNotFound)
    } else if code == av_error_code(AVError::Bug) {
        Some(AVError::Bug)
    } else if code == av_error_code(AVError::BufferTooSmall) {
        Some(AVError::BufferTooSmall)
    } else if code == av_error_code(AVError::DecoderNotFound) {
        Some(AVError::DecoderNotFound)
    } else if code == av_error_code(AVError::DemuxerNotFound) {
        Some(AVError::DemuxerNotFound)
    } else if code == av_error_code(AVError::EncoderNotFound) {
        Some(AVError::EncoderNotFound)
    } else if code == av_error_code(AVError::Eof) {
        Some(AVError::Eof)
    } else if code == av_error_code(AVError::Exit) {
        Some(AVError::Exit)
    } else if code == av_error_code(AVError::External) {
        Some(AVError::External)
    } else if code == av_error_code(AVError::FilterNotFound) {
        Some(AVError::FilterNotFound)
    } else if code == av_error_code(AVError::InvalidData) {
        Some(AVError::InvalidData)
    } else if code == av_error_code(AVError::MuxerNotFound) {
        Some(AVError::MuxerNotFound)
    } else if code == av_error_code(AVError::OptionNotFound) {
        Some(AVError::OptionNotFound)
    } else if code == av_error_code(AVError::PatchWelcome) {
        Some(AVError::PatchWelcome)
    } else if code == av_error_code(AVError::ProtocolNotFound) {
        Some(AVError::ProtocolNotFound)
    } else if code == av_error_code(AVError::StreamNotFound) {
        Some(AVError::StreamNotFound)
    } else if code == av_error_code(AVError::Bug2) {
        Some(AVError::Bug2)
    } else if code == av_error_code(AVError::Unknown) {
        Some(AVError::Unknown)
    } else if code == av_error_code(AVError::Experimental) {
        Some(AVError::Experimental)
    } else if code == av_error_code(AVError::InputChanged) {
        Some(AVError::InputChanged)
    } else if code == av_error_code(AVError::OutputChanged) {
        Some(AVError::OutputChanged)
    } else {
        None
    }
}

impl AVError {
    /// The numeric status of this error.
    pub fn code(self) -> (r: i32)
        ensures
            r == av_error_code(self),
    {
        match self {
            AVError::BsfNotFound => -0x465342F8,
            AVError::Bug => -0x21475542,
            AVError::BufferTooSmall => -0x53465542,
            AVError::DecoderNotFound => -0x434544F8,
            AVError::DemuxerNotFound => -0x4D4544F8,
            AVError::EncoderNotFound => -0x434E45F8,
            AVError::Eof => AVERROR_EOF,
            AVError::Exit => -0x54495845,
            AVError::External => -0x20545845,
            AVError::FilterNotFound => -0x4C4946F8,
            AVError::InvalidData => -0x41444E49,
            AVError::MuxerNotFound => -0x58554DF8,
            AVError::OptionNotFound => -0x54504FF8,
            AVError::PatchWelcome => -0x45574150,
            AVError::ProtocolNotFound => -0x4F5250F8,
            AVError::StreamNotFound => -0x525453F8,
            AVError::Bug2 => -0x20475542,
            AVError::Unknown => -0x4E4B4E55,
            AVError::Experimental => -0x2bb2afa8,
            AVError::InputChanged => -0x636e6701,
            AVError::OutputChanged => -0x636e6702,
        }
    }

    /// The tagged error whose status is `code`, or `None` for any other status.
    pub fn from_code(code: i32) -> (r: Option<AVError>)
        ensures
            r == av_error_of(code as int),
    {
        if code == -0x465342F8 {
            Some(AVError::BsfNotFound)
        } else if code == -0x21475542 {
            Some(AVError::Bug)
        } else if code == -0x53465542 {
            Some(AVError::BufferTooSmall)
        } else if code == -0x434544F8 {
            Some(AVError::DecoderNotFound)
        } else if code == -0x4D4544F8 {
            Some(AVError::DemuxerNotFound)
        } else if code == -0x434E45F8 {
            Some(AVError::EncoderNotFound)
        } else if code == AVERROR_EOF {
            Some(AVError::Eof)
        } else if code == -0x54495845 {
            Some(AVError::Exit)
        } else if code == -0x20545845 {
            Some(AVError::External)
        } else if code == -0x4C4946F8 {
            Some(AVError::FilterNotFound)
        } else if code == -0x41444E49 {
            Some(AVError::InvalidData)
        } else if code == -0x58554DF8 {
            Some(AVError::MuxerNotFound)
        } else if code == -0x54504FF8 {
            Some(AVError::OptionNotFound)
        } else if code == -0x45574150 {
            Some(AVError::PatchWelcome)
        } else if code == -0x4F5250F8 {
            Some(AVError::ProtocolNotFound)
        } else if code == -0x525453F8 {
            Some(AVError::StreamNotFound)
        } else if code == -0x20475542 {
            Some(AVError::Bug2)
        } else if code == -0x4E4B4E55 {
            Some(AVError::Unknown)
        } else if code == -0x2bb2afa8 {
            Some(AVError::Experimental)
        } else if code == -0x636e6701 {
            Some(AVError::InputChanged)
        } else if code == -0x636e6702 {
            Some(AVError::OutputChanged)
        } else {
            None
        }
    }
}

/// Each tagged error is found again from its status code, and a status code
/// names only the tagged error that has it.
pub proof fn lemma_av_error_code_round_trip(e: AVError, code: int)
    ensures
        av_error_of(av_error_code(e)) == Some(e),
        av_error_of(code) == Some(e) ==> av_error_code(e) == code,
{
}

/// Makes `std::io::Error` known to the verifier, as an opaque value that
/// errors of the I/O bridge carry along unchanged.
#[verifier::external_type_specification]
#[verifier::external_body]
pub struct ExIoError(std::io::Error);

/// Failures of the pipeline's operations.
#[derive(Debug)]
pub enum Error {
    /// A tagged status of the codec library.
    Av(AVError),
    /// Any other negative status of the codec library.
    Other(i32),
    /// The codec library could not allocate an object.
    Alloc,
    /// A path or name was not valid UTF-8.
    Utf8,
    /// A path or name held a nul byte.
    NulByte,
    /// The container could not be opened: unknown, truncated or missing.
    Open(i32),
    /// The container opened, but its stream information could not be determined.
    Probe(i32),
    /// The source or sink behind the I/O bridge failed.
    Io(std::io::Error),
}

/// The error that a negative status of the codec library stands for.
pub open spec fn error_of(code: i32) -> Error {
    match av_error_of(code as int) {
        Some(e) => Error::Av(e),
        None => Error::Other(code),
    }
}

impl Error {
    /// Maps a status of the codec library to a tagged error where it has a tag.
    pub fn new(code: i32) -> (r: Error)
        ensures
            r == error_of(code),
    {
        match AVError::from_code(code) {
            Some(e) => Error::Av(e),
            None => Error::Other(code),
        }
    }

    /// Whether this is the end-of-stream status.
    pub fn is_eof(&self) -> (r: bool)
        ensures
            r == (*self == Error::Av(AVError::Eof)),
    {
        match self {
            Error::Av(AVError::Eof) => true,
            _ => false,
        }
    }
}

} // verus!
